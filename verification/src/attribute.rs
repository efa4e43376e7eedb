//! The TLV attribute of the heartbeat block: its value type, the factory
//! constructors for every protocol-defined field, and the bit-exact
//! serialization of one attribute or of a whole block.

use vstd::prelude::*;

use crate::token::{current_unix_time, derive_token, spec_salt, spec_token};
use crate::wire::{be_u16, be_u32, push_be_u16, push_be_u32};
use vstd::slice::slice_to_vec;
use vstd::utf8::encode_utf8;

verus! {

/// One TLV-encoded field of the heartbeat attribute block.
///
/// The serialized form is the identifier, the total length as a
/// big-endian 16-bit integer, then the raw payload; the label, the type
/// tag and the value kind are carried as metadata and never written to
/// the wire.
#[derive(Debug)]
pub struct Attribute {
    typename: String,
    parent_id: u8,
    type_id: u8,
    value_type_id: u8,
    data: Vec<u8>,
}

impl Attribute {
    /// The human-readable name of the field; never serialized.
    pub closed spec fn label(self) -> Seq<char> {
        self.typename@
    }

    /// The 8-bit protocol-assigned field code.
    pub closed spec fn id(self) -> u8 {
        self.parent_id
    }

    /// The 8-bit field the protocol reserves; always zero today.
    pub closed spec fn type_tag(self) -> u8 {
        self.type_id
    }

    /// The 8-bit tag for the payload's semantic shape; not serialized.
    pub closed spec fn value_kind(self) -> u8 {
        self.value_type_id
    }

    /// The raw payload bytes.
    pub closed spec fn payload(self) -> Seq<u8> {
        self.data@
    }

    /// The serialized length fits the 16-bit length field.
    pub open spec fn wf(self) -> bool {
        self.payload().len() + 3 <= u16::MAX
    }

    #[verifier::type_invariant]
    spec fn type_wf(self) -> bool {
        self.wf()
    }

    /// The exact wire bytes: identifier, big-endian total length, then
    /// the raw payload.
    pub open spec fn wire_bytes(self) -> Seq<u8> {
        seq![self.id()] + be_u16((self.payload().len() + 3) as u16) + self.payload()
    }

    /// Builds an attribute from its parts. The payload must leave the
    /// total length within the 16-bit length field.
    pub fn new(typename: &str, parent_id: u8, type_id: u8, value_type_id: u8, data: Vec<u8>) -> (r: Self)
        requires
            data@.len() + 3 <= u16::MAX,
        ensures
            r.label() == typename@,
            r.id() == parent_id,
            r.type_tag() == type_id,
            r.value_kind() == value_type_id,
            r.payload() == data@,
    {
        Attribute {
            typename: typename.to_owned(),
            parent_id,
            type_id,
            value_type_id,
            data,
        }
    }

    /// The payload length alone.
    fn data_length(&self) -> (r: u16)
        ensures
            r == self.payload().len(),
    {
        proof {
            use_type_invariant(&*self);
        }
        self.data.len() as u16
    }

    /// The total serialized length: payload length plus the 3 header
    /// bytes.
    pub fn length(&self) -> (r: u16)
        ensures
            r == self.payload().len() + 3,
    {
        proof {
            use_type_invariant(&*self);
        }
        self.data_length() + 3
    }

    /// Serializes the attribute to its exact wire bytes.
    pub fn as_bytes(&self) -> (r: Box<Vec<u8>>)
        ensures
            r@ == self.wire_bytes(),
    {
        proof {
            use_type_invariant(&*self);
        }
        let mut attribute_bytes: Vec<u8> = Vec::new();
        attribute_bytes.push(self.parent_id);
        let length = self.length();
        push_be_u16(&mut attribute_bytes, length);
        assert(attribute_bytes@ =~= seq![self.id()] + be_u16(length) + self.data@.take(0));
        let mut i: usize = 0;
        while i < self.data.len()
            invariant
                i <= self.data@.len(),
                length == self.payload().len() + 3,
                attribute_bytes@ == seq![self.id()] + be_u16(length) + self.data@.take(i as int),
            decreases self.data@.len() - i,
        {
            attribute_bytes.push(self.data[i]);
            assert(attribute_bytes@ =~= seq![self.id()] + be_u16(length) + self.data@.take(
                i + 1,
            ));
            i = i + 1;
        }
        proof {
            use_type_invariant(&*self);
            assert(attribute_bytes@ =~= self.wire_bytes());
        }
        Box::new(attribute_bytes)
    }
}

/// One constructor per protocol-defined field. Each binds the fixed
/// identifier and value-kind tag of its field to caller-supplied data,
/// so callers never hand-pick the codes; `calc_keepalive_data` derives
/// the rotating token that `keepalive_data` carries.
pub trait AttributeFactory {
    /// User-Name: identifier 0x1, text payload.
    fn username(username: &str) -> (r: Attribute)
        requires
            encode_utf8(username@).len() + 3 <= u16::MAX,
        ensures
            r.label() == "User-Name"@,
            r.id() == 0x1,
            r.type_tag() == 0x0,
            r.value_kind() == 0x2,
            r.payload() == encode_utf8(username@),
    ;

    /// Client-IP-Address: identifier 0x2, the four address octets in
    /// network order.
    fn client_ip_address(ipaddress: [u8; 4]) -> (r: Attribute)
        ensures
            r.label() == "Client-IP-Address"@,
            r.id() == 0x2,
            r.type_tag() == 0x0,
            r.value_kind() == 0x1,
            r.payload() == ipaddress@,
    ;

    /// Client-Type: identifier 0x4, text payload.
    fn client_type(client_type: &str) -> (r: Attribute)
        requires
            encode_utf8(client_type@).len() + 3 <= u16::MAX,
        ensures
            r.label() == "Client-Type"@,
            r.id() == 0x4,
            r.type_tag() == 0x0,
            r.value_kind() == 0x2,
            r.payload() == encode_utf8(client_type@),
    ;

    /// Client-Version: identifier 0x3, text payload.
    fn client_version(client_version: &str) -> (r: Attribute)
        requires
            encode_utf8(client_version@).len() + 3 <= u16::MAX,
        ensures
            r.label() == "Client-Version"@,
            r.id() == 0x3,
            r.type_tag() == 0x0,
            r.value_kind() == 0x2,
            r.payload() == encode_utf8(client_version@),
    ;

    /// OS-Version: identifier 0x5, text payload.
    fn os_version(version: &str) -> (r: Attribute)
        requires
            encode_utf8(version@).len() + 3 <= u16::MAX,
        ensures
            r.label() == "OS-Version"@,
            r.id() == 0x5,
            r.type_tag() == 0x0,
            r.value_kind() == 0x2,
            r.payload() == encode_utf8(version@),
    ;

    /// OS-Lang: identifier 0x6, text payload.
    fn os_language(language: &str) -> (r: Attribute)
        requires
            encode_utf8(language@).len() + 3 <= u16::MAX,
        ensures
            r.label() == "OS-Lang"@,
            r.id() == 0x6,
            r.type_tag() == 0x0,
            r.value_kind() == 0x2,
            r.payload() == encode_utf8(language@),
    ;

    /// CPU-Info: identifier 0x8, text payload.
    fn cpu_info(cpu_info: &str) -> (r: Attribute)
        requires
            encode_utf8(cpu_info@).len() + 3 <= u16::MAX,
        ensures
            r.label() == "CPU-Info"@,
            r.id() == 0x8,
            r.type_tag() == 0x0,
            r.value_kind() == 0x2,
            r.payload() == encode_utf8(cpu_info@),
    ;

    /// MAC-Address: identifier 0x9, the four raw bytes the protocol
    /// sends for this field.
    fn mac_address(mac_address: &[u8; 4]) -> (r: Attribute)
        ensures
            r.label() == "MAC-Address"@,
            r.id() == 0x9,
            r.type_tag() == 0x0,
            r.value_kind() == 0x2,
            r.payload() == mac_address@,
    ;

    /// Memory-Size: identifier 0xa, the size as a big-endian 32-bit
    /// integer.
    fn memory_size(size: u32) -> (r: Attribute)
        ensures
            r.label() == "Memory-Size"@,
            r.id() == 0xa,
            r.type_tag() == 0x0,
            r.value_kind() == 0x0,
            r.payload() == be_u32(size),
    ;

    /// Default-Explorer: identifier 0xb, text payload.
    fn default_explorer(explorer: &str) -> (r: Attribute)
        requires
            encode_utf8(explorer@).len() + 3 <= u16::MAX,
        ensures
            r.label() == "Default-Explorer"@,
            r.id() == 0xb,
            r.type_tag() == 0x0,
            r.value_kind() == 0x2,
            r.payload() == encode_utf8(explorer@),
    ;

    /// KeepAlive-Data: identifier 0x14, the hex-encoded token as text.
    fn keepalive_data(data: &str) -> (r: Attribute)
        requires
            encode_utf8(data@).len() + 3 <= u16::MAX,
        ensures
            r.label() == "KeepAlive-Data"@,
            r.id() == 0x14,
            r.type_tag() == 0x0,
            r.value_kind() == 0x2,
            r.payload() == encode_utf8(data@),
    ;

    /// KeepAlive-Time: identifier 0x12, the timestamp as a big-endian
    /// 32-bit integer.
    fn keepalive_time(timestamp: u32) -> (r: Attribute)
        ensures
            r.label() == "KeepAlive-Time"@,
            r.id() == 0x12,
            r.type_tag() == 0x0,
            r.value_kind() == 0x0,
            r.payload() == be_u32(timestamp),
    ;

    /// Derives the rotating keepalive token. The timestamp defaults to
    /// the current Unix time, the salt to the previous token or to the
    /// fixed protocol seed; the result is 32 lowercase hex digits.
    fn calc_keepalive_data(timestamp: Option<u32>, last_data: Option<&str>) -> (r: String)
        ensures
            timestamp matches Some(t) ==> r@ == spec_token(t, spec_salt(last_data)),
            timestamp is None ==> exists|t: u32| r@ == spec_token(t, spec_salt(last_data)),
            r@.len() == 32,
    ;
}

impl AttributeFactory for Attribute {
    fn username(username: &str) -> (r: Attribute) {
        Attribute::new("User-Name", 0x1, 0x0, 0x2, slice_to_vec(username.as_bytes()))
    }

    fn client_ip_address(ipaddress: [u8; 4]) -> (r: Attribute) {
        Attribute::new("Client-IP-Address", 0x2, 0x0, 0x1, slice_to_vec(ipaddress.as_slice()))
    }

    fn client_type(client_type: &str) -> (r: Attribute) {
        Attribute::new("Client-Type", 0x4, 0x0, 0x2, slice_to_vec(client_type.as_bytes()))
    }

    fn client_version(client_version: &str) -> (r: Attribute) {
        Attribute::new("Client-Version", 0x3, 0x0, 0x2, slice_to_vec(client_version.as_bytes()))
    }

    fn os_version(version: &str) -> (r: Attribute) {
        Attribute::new("OS-Version", 0x5, 0x0, 0x2, slice_to_vec(version.as_bytes()))
    }

    fn os_language(language: &str) -> (r: Attribute) {
        Attribute::new("OS-Lang", 0x6, 0x0, 0x2, slice_to_vec(language.as_bytes()))
    }

    fn cpu_info(cpu_info: &str) -> (r: Attribute) {
        Attribute::new("CPU-Info", 0x8, 0x0, 0x2, slice_to_vec(cpu_info.as_bytes()))
    }

    fn mac_address(mac_address: &[u8; 4]) -> (r: Attribute) {
        Attribute::new("MAC-Address", 0x9, 0x0, 0x2, slice_to_vec(mac_address.as_slice()))
    }

    fn memory_size(size: u32) -> (r: Attribute) {
        let mut size_bytes: Vec<u8> = Vec::new();
        push_be_u32(&mut size_bytes, size);
        assert(size_bytes@ =~= be_u32(size));
        Attribute::new("Memory-Size", 0xa, 0x0, 0x0, size_bytes)
    }

    fn default_explorer(explorer: &str) -> (r: Attribute) {
        Attribute::new("Default-Explorer", 0xb, 0x0, 0x2, slice_to_vec(explorer.as_bytes()))
    }

    fn keepalive_data(data: &str) -> (r: Attribute) {
        Attribute::new("KeepAlive-Data", 0x14, 0x0, 0x2, slice_to_vec(data.as_bytes()))
    }

    fn keepalive_time(timestamp: u32) -> (r: Attribute) {
        let mut timestamp_bytes: Vec<u8> = Vec::new();
        push_be_u32(&mut timestamp_bytes, timestamp);
        assert(timestamp_bytes@ =~= be_u32(timestamp));
        Attribute::new("KeepAlive-Time", 0x12, 0x0, 0x0, timestamp_bytes)
    }

    fn calc_keepalive_data(timestamp: Option<u32>, last_data: Option<&str>) -> (r: String) {
        let timenow: u32 = match timestamp {
            Some(t) => t,
            None => current_unix_time(),
        };
        let token = match last_data {
            Some(data) => derive_token(timenow, data.as_bytes()),
            None => derive_token(timenow, "llwl".as_bytes()),
        };
        proof {
            assert(token@ == spec_token(timenow, spec_salt(last_data)));
        }
        token
    }
}

/// Serialization of a whole attribute block.
pub trait AttributeVec {
    /// The wire bytes of the block, as a mathematical sequence.
    spec fn spec_as_bytes(&self) -> Seq<u8>;

    /// Serializes every attribute, in order, into one contiguous block.
    fn as_bytes(&self) -> (r: Vec<u8>)
        ensures
            r@ == self.spec_as_bytes(),
    ;
}

impl AttributeVec for Vec<Attribute> {
    open spec fn spec_as_bytes(&self) -> Seq<u8> {
        wire_bytes_all(self@)
    }

    fn as_bytes(&self) -> (r: Vec<u8>) {
        let mut attributes_bytes: Vec<u8> = Vec::new();
        assert(attributes_bytes@ =~= wire_bytes_all(self@.take(0)));
        let mut i: usize = 0;
        while i < self.len()
            invariant
                i <= self@.len(),
                attributes_bytes@ == wire_bytes_all(self@.take(i as int)),
            decreases self@.len() - i,
        {
            let attr: &Attribute = &self[i];
            let mut piece: Vec<u8> = *attr.as_bytes();
            attributes_bytes.append(&mut piece);
            proof {
                assert(self@.take(i + 1).drop_last() =~= self@.take(i as int));
                assert(self@.take(i + 1).last() == self@[i as int]);
                assert(attributes_bytes@ =~= wire_bytes_all(self@.take(i + 1)));
            }
            i = i + 1;
        }
        assert(self@.take(self@.len() as int) =~= self@);
        attributes_bytes
    }
}

/// Law: the serialized form is exactly 3 bytes longer than the payload.
pub proof fn lemma_serialized_len(a: Attribute)
    ensures
        a.wire_bytes().len() == a.payload().len() + 3,
{
}

/// Law: the first wire byte is the identifier, the next two carry the
/// total length in big-endian order, and the rest is the raw payload.
pub proof fn lemma_serialized_header(a: Attribute)
    requires
        a.wf(),
    ensures
        a.wire_bytes()[0] == a.id(),
        (a.wire_bytes()[1] as int) * 0x100 + a.wire_bytes()[2] as int == a.payload().len() + 3,
        a.wire_bytes().skip(3) == a.payload(),
{
    let n = (a.payload().len() + 3) as u16;
    assert(a.wire_bytes()[1] == (n / 0x100) as u8);
    assert(a.wire_bytes()[2] == (n % 0x100) as u8);
    assert(a.wire_bytes().skip(3) =~= a.payload());
}

/// The concatenation of the wire bytes of every attribute, in order.
pub open spec fn wire_bytes_all(attrs: Seq<Attribute>) -> Seq<u8>
    decreases attrs.len(),
{
    if attrs.len() == 0 {
        Seq::empty()
    } else {
        wire_bytes_all(attrs.drop_last()) + attrs.last().wire_bytes()
    }
}

/// Law: serializing a block concatenates the serializations of its
/// attributes and preserves their order.
pub proof fn lemma_wire_bytes_all_concat(s1: Seq<Attribute>, s2: Seq<Attribute>)
    ensures
        wire_bytes_all(s1 + s2) == wire_bytes_all(s1) + wire_bytes_all(s2),
    decreases s2.len(),
{
    if s2.len() == 0 {
        assert(s1 + s2 =~= s1);
        assert(wire_bytes_all(s1) + wire_bytes_all(s2) =~= wire_bytes_all(s1));
    } else {
        lemma_wire_bytes_all_concat(s1, s2.drop_last());
        assert((s1 + s2).drop_last() =~= s1 + s2.drop_last());
        assert(wire_bytes_all(s1) + wire_bytes_all(s2) =~= wire_bytes_all(s1)
            + wire_bytes_all(s2.drop_last()) + s2.last().wire_bytes());
    }
}

/// Law: a single attribute serializes in a block exactly as it does
/// alone.
pub proof fn lemma_wire_bytes_all_one(a: Attribute)
    ensures
        wire_bytes_all(seq![a]) == a.wire_bytes(),
{
    let s = seq![a];
    assert(s.drop_last() =~= Seq::<Attribute>::empty());
    assert(wire_bytes_all(Seq::<Attribute>::empty()) == Seq::<u8>::empty());
    assert(wire_bytes_all(s) == wire_bytes_all(s.drop_last()) + s.last().wire_bytes());
    assert(wire_bytes_all(s) =~= a.wire_bytes());
}

} // verus!
