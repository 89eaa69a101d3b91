//! The resource slot and the three operations of the service surface:
//! initialize (install a freshly parsed tokenizer, unconditionally replacing
//! any earlier one), encode (read the slot, run the tokenizer, write a
//! truncated prefix of the ids into the caller's buffer), and free (clear the
//! slot). The embedding layer serializes every call on one lock and converts
//! raw pointers to the plain argument values used here.

use vstd::prelude::*;

use crate::args::{FileData, IdBuffer, StrArg};
use crate::encode::complete_encode;
use crate::ext;
use crate::status::{
    STATUS_ENCODE_FAILED, STATUS_INVALID_UTF8, STATUS_LOAD_FAILED, STATUS_NOT_INITIALIZED,
    STATUS_NULL_ARGUMENT, STATUS_OK,
};

verus! {

/// The process-wide resource slot: at most one loaded tokenizer, fully
/// constructed before it is installed, never observable half-built.
pub struct TokenizerSlot {
    model: Option<tokenizers::Tokenizer>,
}

/// The slot contents after an installation: the new tokenizer, whatever was
/// installed before — a later initialization always overwrites.
pub open spec fn installed(
    prior: Option<tokenizers::Tokenizer>,
    t: tokenizers::Tokenizer,
) -> Option<tokenizers::Tokenizer> {
    Some(t)
}

impl TokenizerSlot {
    /// The currently installed tokenizer, if any.
    pub closed spec fn model(&self) -> Option<tokenizers::Tokenizer> {
        self.model
    }

    /// A fresh slot, as at process start: nothing installed.
    pub fn empty() -> (slot: Self)
        ensures
            slot.model() is None,
    {
        TokenizerSlot { model: None }
    }

    /// Install `t`, unconditionally replacing whatever was installed before.
    pub fn install(&mut self, t: tokenizers::Tokenizer)
        ensures
            final(self).model() == installed(old(self).model(), t),
    {
        self.model = Some(t);
    }

    /// Remove the installed tokenizer, if any. Idempotent.
    pub fn clear(&mut self)
        ensures
            final(self).model() is None,
    {
        self.model = None;
    }

    /// Borrow the installed tokenizer.
    pub fn loaded(&self) -> (t: Option<&tokenizers::Tokenizer>)
        ensures
            t is Some <==> self.model() is Some,
            (t matches Some(m) ==> self.model() == Some(*m)),
    {
        match &self.model {
            Some(m) => Some(m),
            None => None,
        }
    }
}

/// The code with which `tokenizer_initialize` rejects its path argument
/// before any model is parsed, or `None` when the argument passes.
pub open spec fn init_precheck(path: StrArg) -> Option<i32> {
    if path is Null {
        Some(STATUS_NULL_ARGUMENT)
    } else if path is NotUtf8 {
        Some(STATUS_INVALID_UTF8)
    } else {
        None
    }
}

/// The code with which `tokenizer_encode` rejects a call before the
/// tokenizer runs, or `None` when text, buffer and slot all pass.
pub open spec fn encode_precheck(text: StrArg, out: IdBuffer, loaded: bool) -> Option<i32> {
    if text is Null || out is Null {
        Some(STATUS_NULL_ARGUMENT)
    } else if text is NotUtf8 {
        Some(STATUS_INVALID_UTF8)
    } else if !loaded {
        Some(STATUS_NOT_INITIALIZED)
    } else {
        None
    }
}

/// Install the tokenizer described by the file at `path`, whose bytes the
/// embedding layer has read into `contents`. On success the new tokenizer
/// replaces any previously installed one; on any failure the slot is left
/// exactly as it was.
pub fn tokenizer_initialize(
    slot: &mut TokenizerSlot,
    path: &StrArg,
    contents: &FileData,
) -> (status: i32)
    ensures
        (match init_precheck(*path) {
            Some(code) => status == code && final(slot).model() == old(slot).model(),
            None => {
                &&& status == STATUS_OK || status == STATUS_LOAD_FAILED
                &&& contents is Missing ==> status == STATUS_LOAD_FAILED
                &&& (contents matches FileData::Data(b) ==> (status == STATUS_OK
                    <==> ext::well_formed_model(b@)))
                &&& status == STATUS_OK ==> final(slot).model() is Some
                &&& status == STATUS_LOAD_FAILED ==> final(slot).model() == old(slot).model()
            },
        }),
{
    match path {
        StrArg::Null => STATUS_NULL_ARGUMENT,
        StrArg::NotUtf8 => STATUS_INVALID_UTF8,
        StrArg::Utf8(_) => {
            let bytes = match contents {
                FileData::Missing => {
                    return STATUS_LOAD_FAILED;
                },
                FileData::Data(b) => b,
            };
            match ext::parse_model(bytes) {
                None => STATUS_LOAD_FAILED,
                Some(t) => {
                    slot.install(t);
                    STATUS_OK
                },
            }
        },
    }
}

/// Encode `text` with the installed tokenizer — special-token augmentation
/// always enabled, a fixed policy — and write the ids into the caller's
/// buffer, truncated to its capacity. The buffer travels through the call and
/// comes back beside the status; on every failure it comes back untouched,
/// and on success only its first `status` slots have changed.
pub fn tokenizer_encode(slot: &TokenizerSlot, text: &StrArg, out: IdBuffer) -> (res: (i32, IdBuffer))
    requires
        out.cap() <= i32::MAX,
    ensures
        (match encode_precheck(*text, out, slot.model() is Some) {
            Some(code) => res.0 == code && res.1 == out,
            None => {
                &&& res.0 == STATUS_ENCODE_FAILED || (0 <= res.0 <= out.cap())
                &&& res.0 == STATUS_ENCODE_FAILED ==> res.1 == out
                &&& res.0 >= 0 ==> {
                    &&& res.1 is Buf
                    &&& res.1.cap() == out.cap()
                    &&& forall|j: int| res.0 <= j < out.cap() ==> res.1.slots()[j] == out.slots()[j]
                }
            },
        }),
{
    let buf = match out {
        IdBuffer::Null => {
            return (STATUS_NULL_ARGUMENT, IdBuffer::Null);
        },
        IdBuffer::Buf(v) => v,
    };
    let text_str = match text {
        StrArg::Null => {
            return (STATUS_NULL_ARGUMENT, IdBuffer::Buf(buf));
        },
        StrArg::NotUtf8 => {
            return (STATUS_INVALID_UTF8, IdBuffer::Buf(buf));
        },
        StrArg::Utf8(s) => s,
    };
    let tokenizer = match slot.loaded() {
        None => {
            return (STATUS_NOT_INITIALIZED, IdBuffer::Buf(buf));
        },
        Some(t) => t,
    };
    let encoded = ext::encode_with_specials(tokenizer, text_str.as_str());
    let (status, filled) = complete_encode(encoded, buf);
    (status, IdBuffer::Buf(filled))
}

/// Clear the slot: forget the installed tokenizer, if any. Idempotent; after
/// it returns, encode calls are rejected as not initialized until a new
/// initialization succeeds.
pub fn tokenizer_free(slot: &mut TokenizerSlot)
    ensures
        final(slot).model() is None,
{
    slot.clear();
}

/// Law: a null text pointer or a null output pointer is always rejected with
/// the null-argument code, whatever the slot holds — the arguments are never
/// read further.
pub proof fn lemma_null_arguments_rejected(text: StrArg, out: IdBuffer, loaded: bool)
    requires
        text is Null || out is Null,
    ensures
        encode_precheck(text, out, loaded) == Some(STATUS_NULL_ARGUMENT),
{
}

/// Law: with valid arguments, an empty slot is always answered with the
/// not-initialized code — so every encode call before the first successful
/// initialization, or after a free, is rejected rather than run.
pub proof fn lemma_encode_needs_initialization(text: StrArg, out: IdBuffer)
    requires
        text is Utf8,
        out is Buf,
    ensures
        encode_precheck(text, out, false) == Some(STATUS_NOT_INITIALIZED),
{
}

/// Law: a later installation wins. After installing `t2` the slot holds
/// exactly `t2`, whatever — in particular, whichever `t1` — was installed
/// before; encoding then reads `t2` and never `t1`.
pub proof fn lemma_reinitialization_overwrites(
    prior: Option<tokenizers::Tokenizer>,
    t1: tokenizers::Tokenizer,
    t2: tokenizers::Tokenizer,
)
    ensures
        installed(installed(prior, t1), t2) == Some(t2),
        t1 != t2 ==> installed(installed(prior, t1), t2) != Some(t1),
{
}

/// Law: the lifecycle round-trips. After a clear the slot rejects encoding
/// as not initialized; after a following installation it accepts again.
pub proof fn lemma_lifecycle_round_trip(
    text: StrArg,
    out: IdBuffer,
    cleared: TokenizerSlot,
    reinstalled: TokenizerSlot,
    t: tokenizers::Tokenizer,
)
    requires
        text is Utf8,
        out is Buf,
        cleared.model() is None,
        reinstalled.model() == installed(cleared.model(), t),
    ensures
        encode_precheck(text, out, cleared.model() is Some) == Some(STATUS_NOT_INITIALIZED),
        encode_precheck(text, out, reinstalled.model() is Some) is None,
{
}

} // verus!
