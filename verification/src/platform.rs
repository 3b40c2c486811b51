//! The guest-side platform interface: how a guest program receives its
//! input bytes and commits its output bytes.
//!
//! The concrete platforms forward to their vendor SDKs and live with the
//! unverified host glue; verified code works on the bytes they hand
//! over.

use vstd::prelude::*;

use crate::io::Io;

verus! {

/// What a guest platform must provide.
pub trait Platform {
    /// The input bytes for this run.
    fn read_input() -> Vec<u8>;

    /// Commits the guest's output.
    fn write_output(bytes: &[u8]);
}

/// Decodes one guest input from the bytes the platform handed over.
pub fn read<T, R: Io<T>>(reader: R, bytes: &[u8]) -> (r: T)
    requires
        reader.deserializable(bytes@),
    ensures
        r == reader.spec_deserialize(bytes@),
{
    match reader.deserialize(bytes) {
        Ok(value) => value,
        Err(_) => vstd::pervasive::unreached(),
    }
}

} // verus!
