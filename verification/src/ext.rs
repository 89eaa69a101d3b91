//! Trusted declarations for the underlying tokenizer library, which the
//! service consumes as a black box: it parses model descriptions and turns
//! text into token ids; everything around those two calls is verified.

use vstd::prelude::*;

verus! {

#[verifier::external_type_specification]
#[verifier::external_body]
pub struct ExTokenizer(tokenizers::Tokenizer);

/// Whether a byte sequence is a well-formed serialized model description:
/// whether `tokenizers::Tokenizer::from_bytes` parses it.
pub uninterp spec fn well_formed_model(bytes: Seq<u8>) -> bool;

/// Relies on `tokenizers::Tokenizer::from_bytes`, the parsing step behind
/// `Tokenizer::from_file`: it either constructs a fully built tokenizer from
/// a serialized model description or reports an error. Whether it succeeds is
/// a pure parse and so depends on the bytes alone, named `well_formed_model`;
/// which tokenizer value results is not a function of the bytes (its freshly
/// seeded hash tables differ from process to process) and is not described.
#[verifier::external_body]
pub(crate) fn parse_model(bytes: &Vec<u8>) -> (parsed: Option<tokenizers::Tokenizer>)
    ensures
        parsed is Some <==> well_formed_model(bytes@),
{
    match tokenizers::Tokenizer::from_bytes(bytes.as_slice()) {
        Ok(t) => Some(t),
        Err(_) => None,
    }
}

/// Relies on `tokenizers::Tokenizer::encode` with `add_special_tokens = true`
/// and on `Encoding::get_ids`: a successful call returns the full id sequence
/// for `text`, with the model's reserved tokens injected as its configuration
/// dictates. The sequence can depend on more than the arguments (a byte-pair
/// model configured with merge dropout draws random numbers while encoding),
/// so nothing is assumed about the returned ids themselves.
#[verifier::external_body]
pub(crate) fn encode_with_specials(
    tokenizer: &tokenizers::Tokenizer,
    text: &str,
) -> (encoded: Option<Vec<u32>>) {
    match tokenizer.encode(text, true) {
        Ok(enc) => Some(enc.get_ids().to_vec()),
        Err(_) => None,
    }
}

} // verus!
