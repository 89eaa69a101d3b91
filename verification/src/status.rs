//! The closed set of integer status codes reported across the C boundary.
//!
//! A non-negative result of an encode call is a count of ids written; every
//! failure is one of the negative codes below. The codes are assigned per
//! operation: `-3` means a failed model load for `tokenizer_initialize` and
//! an empty slot for `tokenizer_encode`, and `-4` means a poisoned lock for
//! `tokenizer_initialize` and a failed encoding for `tokenizer_encode`.

use vstd::prelude::*;

verus! {

/// Success.
pub const STATUS_OK: i32 = 0;

/// A required pointer argument was null.
pub const STATUS_NULL_ARGUMENT: i32 = -1;

/// A string argument did not decode as UTF-8.
pub const STATUS_INVALID_UTF8: i32 = -2;

/// `tokenizer_initialize`: the model description could not be read or parsed.
pub const STATUS_LOAD_FAILED: i32 = -3;

/// `tokenizer_encode`: no tokenizer is installed in the slot.
pub const STATUS_NOT_INITIALIZED: i32 = -3;

/// `tokenizer_encode`: the tokenizer itself reported an error for this input.
pub const STATUS_ENCODE_FAILED: i32 = -4;

/// `tokenizer_initialize`: the slot's lock is unusable (poisoned). Produced
/// by the embedding layer that owns the lock, never by the library itself.
pub const STATUS_INIT_LOCK_UNUSABLE: i32 = -4;

/// `tokenizer_encode`: the slot's lock is unusable (poisoned). Produced by
/// the embedding layer that owns the lock, never by the library itself.
pub const STATUS_ENCODE_LOCK_UNUSABLE: i32 = -5;

} // verus!
