//! Typed fixed-width integer values: newtype wrappers for the 8/16/32/64-bit
//! signed integers of the wire protocol.
//!
//! These wrappers are the logical payload of both serialization paths. When
//! handed to a generic serialization framework they present themselves as
//! plain signed integers of the matching width, and the framework picks the
//! concrete encoding; the bytes produced that way depend on the active
//! format and are **not** guaranteed to be the big-endian wire encoding. For
//! guaranteed big-endian byte-level output, use
//! [`KafkaSerializer`](crate::KafkaSerializer) and
//! [`KafkaDeserializer`](crate::KafkaDeserializer) instead.

use vstd::prelude::*;

verus! {

/// An 8-bit signed integer of the wire protocol.
#[derive(Clone, Copy, PartialEq, Eq, Structural, Debug)]
pub struct KafkaInt8(pub i8);

/// A 16-bit signed integer of the wire protocol, encoded big-endian on the
/// byte-level path.
#[derive(Clone, Copy, PartialEq, Eq, Structural, Debug)]
pub struct KafkaInt16(pub i16);

/// A 32-bit signed integer of the wire protocol, encoded big-endian on the
/// byte-level path.
#[derive(Clone, Copy, PartialEq, Eq, Structural, Debug)]
pub struct KafkaInt32(pub i32);

/// A 64-bit signed integer of the wire protocol, encoded big-endian on the
/// byte-level path.
#[derive(Clone, Copy, PartialEq, Eq, Structural, Debug)]
pub struct KafkaInt64(pub i64);

} // verus!
