//! Attribute encoding and keepalive-token derivation for the SingleNet
//! heartbeat protocol.
//!
//! The library builds typed attributes, serializes them to their exact
//! TLV wire bytes (identifier, big-endian length, raw payload), and
//! derives the rotating keepalive token by hashing a timestamp together
//! with a salt.

pub mod attribute;
pub mod token;
pub mod wire;
