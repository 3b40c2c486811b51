//! Serialization strategies for guest inputs and outputs.
//!
//! The `Io` trait carries its own specification hooks: an implementation
//! states which values and byte strings it accepts and what they map to,
//! and its `serialize` / `deserialize` must meet those statements.  The
//! format-specific strategies (bincode, CBOR, rkyv, SSZ) are bound to
//! serde-style traits of their format crates, so their implementations
//! live with the unverified host glue; the marker types are declared
//! here so the rest of the toolkit can name them.

use vstd::prelude::*;

verus! {

/// A serialization strategy for values of type `T`.
pub trait Io<T> {
    type Error;

    /// Which values serialize successfully.
    spec fn serializable(&self, value: T) -> bool;

    /// The bytes a successful serialization produces.
    spec fn spec_serialize(&self, value: T) -> Seq<u8>;

    /// Which byte strings deserialize successfully.
    spec fn deserializable(&self, bytes: Seq<u8>) -> bool;

    /// The value a successful deserialization produces.
    spec fn spec_deserialize(&self, bytes: Seq<u8>) -> T;

    fn serialize(&self, value: T) -> (r: Result<Vec<u8>, Self::Error>)
        ensures
            r is Ok <==> self.serializable(value),
            r matches Ok(bytes) ==> bytes@ == self.spec_serialize(value),
    ;

    fn deserialize(&self, bytes: &[u8]) -> (r: Result<T, Self::Error>)
        ensures
            r is Ok <==> self.deserializable(bytes@),
            r matches Ok(value) ==> value == self.spec_deserialize(bytes@),
    ;
}

/// A simple raw byte I/O implementation that works with types that can be
/// converted to/from byte slices.
pub struct RawIo;

#[derive(Debug)]
pub enum RawIoError {
    InvalidLength { expected: usize, actual: usize },
}

impl Io<()> for RawIo {
    type Error = RawIoError;

    open spec fn serializable(&self, value: ()) -> bool {
        true
    }

    open spec fn spec_serialize(&self, value: ()) -> Seq<u8> {
        Seq::empty()
    }

    open spec fn deserializable(&self, bytes: Seq<u8>) -> bool {
        true
    }

    open spec fn spec_deserialize(&self, bytes: Seq<u8>) -> () {
        ()
    }

    fn serialize(&self, value: ()) -> (r: Result<Vec<u8>, RawIoError>) {
        Ok(Vec::new())
    }

    fn deserialize(&self, bytes: &[u8]) -> (r: Result<(), RawIoError>) {
        Ok(())
    }
}

/// Bincode serialization IO.
///
/// Bincode is a compact binary format that is fast and produces small
/// output.  Its strategy is bound to serde's `Serialize` and
/// `Deserialize` traits, so the `Io` implementation lives with the host
/// glue.
#[derive(Debug, Clone, Copy, Default)]
pub struct BincodeIo;

/// CBOR serialization IO.
///
/// CBOR (Concise Binary Object Representation) is a binary format
/// designed for small message size and extensibility.  Its strategy is
/// bound to serde's traits, so the `Io` implementation lives with the
/// host glue.
#[derive(Debug, Clone, Copy, Default)]
pub struct CborIo;

/// Zero-copy serialization IO using rkyv.
///
/// rkyv provides extremely fast serialization and zero-copy
/// deserialization.  Its strategy is bound to rkyv's archive traits, so
/// the `Io` implementation lives with the host glue.
#[derive(Debug, Clone, Copy, Default)]
pub struct RkyvIo;

/// SSZ serialization IO.
///
/// SSZ (Simple Serialize) is the serialization format used in Ethereum.
/// Its strategy is bound to the format crate's read/write traits, so the
/// `Io` implementation lives with the host glue.
pub struct SszIo;

/// SSZ serialization IO using Grandine's implementation.
#[derive(Debug, Clone, Copy, Default)]
pub struct SszGrandineIo;

} // verus!
