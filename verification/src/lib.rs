//! Wire-protocol primitives for a Kafka-style, length-prefixed, big-endian
//! transport: fixed-width signed integers (8/16/32/64 bits) and their
//! canonical big-endian byte representation.
//!
//! Two independent paths share the same value model:
//!
//! - the byte-level codec ([`KafkaSerializer`] / [`KafkaDeserializer`]),
//!   which writes and reads exact big-endian byte sequences against an
//!   in-memory byte stream, and is the only place where byte order is
//!   enforced; and
//! - the typed-integer wrappers ([`KafkaInt8`], [`KafkaInt16`],
//!   [`KafkaInt32`], [`KafkaInt64`]), scalar values meant to be embedded in
//!   larger structures and driven by a generic serialization framework.
//!   That framework chooses its own concrete encoding, which is *not*
//!   guaranteed to match the codec's big-endian output.
//!
//! The byte-level encoding itself lives in [`wire`] as specification
//! functions, together with the round-trip lemmas that relate them.

mod typed;
pub mod io;
pub mod wire;

pub use typed::{KafkaInt16, KafkaInt32, KafkaInt64, KafkaInt8};
pub use io::{CodecError, KafkaDeserializer, KafkaSerializer};
