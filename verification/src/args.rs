//! Library models of the values that arrive over the C boundary.
//!
//! Callers communicate through raw pointers; the embedding layer classifies
//! each pointer once (null? decodable?) and hands the library one of the
//! plain values below, so that every decision about them is made — and
//! verified — inside the library.

use vstd::prelude::*;

verus! {

/// A string argument as it arrived over the C boundary: a null pointer, a
/// non-null pointer whose bytes were not valid UTF-8, or the decoded string.
pub enum StrArg {
    Null,
    NotUtf8,
    Utf8(String),
}

/// The caller-supplied output region for token ids: a null pointer, or a
/// buffer with one slot per id whose length is the declared capacity.
pub enum IdBuffer {
    Null,
    Buf(Vec<u32>),
}

impl IdBuffer {
    /// The buffer contents, slot by slot; meaningful only for `Buf`.
    pub open spec fn slots(&self) -> Seq<u32> {
        match self {
            IdBuffer::Buf(v) => v@,
            IdBuffer::Null => Seq::<u32>::empty(),
        }
    }

    /// The declared capacity: the number of slots.
    pub open spec fn cap(&self) -> nat {
        self.slots().len()
    }
}

/// The bytes of the model description file named by an initialization call,
/// or nothing when that file could not be read.
pub enum FileData {
    Missing,
    Data(Vec<u8>),
}

} // verus!
