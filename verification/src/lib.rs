//! A verified bidirectional codec for the attribute set of the devlink
//! generic-netlink family: an in-memory tagged value per attribute kind, an
//! encoder that lays the value out in its exact type-length-value wire form,
//! and a decoder that dispatches on the wire type code, validates the payload
//! and rebuilds the value or reports a typed failure.

pub mod tags;
pub mod model;
pub mod attr;
pub mod encode;
pub mod decode;
pub mod laws;
