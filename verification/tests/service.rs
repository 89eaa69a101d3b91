//! Lifecycle and argument-handling behaviour of the service surface.

use tokenizer_ffi::args::{FileData, IdBuffer, StrArg};
use tokenizer_ffi::service::{
    tokenizer_encode, tokenizer_free, tokenizer_initialize, TokenizerSlot,
};
use tokenizer_ffi::status::{
    STATUS_INVALID_UTF8, STATUS_LOAD_FAILED, STATUS_NOT_INITIALIZED, STATUS_NULL_ARGUMENT,
    STATUS_OK,
};

/// A word-level model with start/end special tokens `1`/`2` and a template
/// post-processor that always injects them around the sequence.
fn model_with_specials() -> Vec<u8> {
    let json = r#"{"model":{"type":"WordLevel","vocab":{"[UNK]":0,"[CLS]":1,"[SEP]":2,"hi":5,"there":6},"unk_token":"[UNK]"},"pre_tokenizer":{"type":"Whitespace"},"post_processor":{"type":"TemplateProcessing","single":[{"SpecialToken":{"id":"[CLS]","type_id":0}},{"Sequence":{"id":"A","type_id":0}},{"SpecialToken":{"id":"[SEP]","type_id":0}}],"pair":[{"Sequence":{"id":"A","type_id":0}},{"Sequence":{"id":"B","type_id":1}}],"special_tokens":{"[CLS]":{"id":"[CLS]","ids":[1],"tokens":["[CLS]"]},"[SEP]":{"id":"[SEP]","ids":[2],"tokens":["[SEP]"]}}}}"#;
    json.as_bytes().to_vec()
}

/// A plain word-level model with no post-processor and a different vocabulary.
fn model_plain() -> Vec<u8> {
    let json = r#"{"model":{"type":"WordLevel","vocab":{"[UNK]":0,"hi":7,"there":8},"unk_token":"[UNK]"},"pre_tokenizer":{"type":"Whitespace"}}"#;
    json.as_bytes().to_vec()
}

fn text(s: &str) -> StrArg {
    StrArg::Utf8(String::from(s))
}

fn sentinel_buffer(len: usize) -> IdBuffer {
    IdBuffer::Buf(vec![9999u32; len])
}

#[test]
fn encode_before_initialize_is_rejected() {
    let slot = TokenizerSlot::empty();
    let (status, out) = tokenizer_encode(&slot, &text("hi"), sentinel_buffer(4));
    assert_eq!(status, STATUS_NOT_INITIALIZED);
    match out {
        IdBuffer::Buf(v) => assert_eq!(v, vec![9999u32; 4]),
        IdBuffer::Null => panic!("buffer variant changed"),
    }
}

#[test]
fn encode_rejects_null_text() {
    let mut slot = TokenizerSlot::empty();
    let r = tokenizer_initialize(&mut slot, &text("m.json"), &FileData::Data(model_plain()));
    assert_eq!(r, STATUS_OK);
    let (status, out) = tokenizer_encode(&slot, &StrArg::Null, sentinel_buffer(3));
    assert_eq!(status, STATUS_NULL_ARGUMENT);
    match out {
        IdBuffer::Buf(v) => assert_eq!(v, vec![9999u32; 3]),
        IdBuffer::Null => panic!("buffer variant changed"),
    }
}

#[test]
fn encode_rejects_null_buffer() {
    let mut slot = TokenizerSlot::empty();
    tokenizer_initialize(&mut slot, &text("m.json"), &FileData::Data(model_plain()));
    let (status, out) = tokenizer_encode(&slot, &text("hi"), IdBuffer::Null);
    assert_eq!(status, STATUS_NULL_ARGUMENT);
    assert!(matches!(out, IdBuffer::Null));
}

#[test]
fn encode_rejects_invalid_utf8_text() {
    let mut slot = TokenizerSlot::empty();
    tokenizer_initialize(&mut slot, &text("m.json"), &FileData::Data(model_plain()));
    let (status, _) = tokenizer_encode(&slot, &StrArg::NotUtf8, sentinel_buffer(3));
    assert_eq!(status, STATUS_INVALID_UTF8);
}

#[test]
fn initialize_rejects_null_path() {
    let mut slot = TokenizerSlot::empty();
    let r = tokenizer_initialize(&mut slot, &StrArg::Null, &FileData::Missing);
    assert_eq!(r, STATUS_NULL_ARGUMENT);
}

#[test]
fn initialize_rejects_invalid_utf8_path() {
    let mut slot = TokenizerSlot::empty();
    let r = tokenizer_initialize(&mut slot, &StrArg::NotUtf8, &FileData::Missing);
    assert_eq!(r, STATUS_INVALID_UTF8);
}

#[test]
fn initialize_reports_unreadable_file() {
    let mut slot = TokenizerSlot::empty();
    let r = tokenizer_initialize(&mut slot, &text("no/such/file.json"), &FileData::Missing);
    assert_eq!(r, STATUS_LOAD_FAILED);
    let (status, _) = tokenizer_encode(&slot, &text("hi"), sentinel_buffer(3));
    assert_eq!(status, STATUS_NOT_INITIALIZED);
}

#[test]
fn initialize_reports_malformed_model() {
    let mut slot = TokenizerSlot::empty();
    let garbage = b"this is not a model description".to_vec();
    let r = tokenizer_initialize(&mut slot, &text("m.json"), &FileData::Data(garbage));
    assert_eq!(r, STATUS_LOAD_FAILED);
    let (status, _) = tokenizer_encode(&slot, &text("hi"), sentinel_buffer(3));
    assert_eq!(status, STATUS_NOT_INITIALIZED);
}

#[test]
fn initialize_accepts_well_formed_model() {
    let mut slot = TokenizerSlot::empty();
    let r = tokenizer_initialize(&mut slot, &text("m.json"), &FileData::Data(model_with_specials()));
    assert_eq!(r, STATUS_OK);
    let (status, _) = tokenizer_encode(&slot, &text("hi there"), sentinel_buffer(10));
    assert!(status >= 0);
}

#[test]
fn reinitialize_uses_new_model() {
    let mut slot = TokenizerSlot::empty();
    let r = tokenizer_initialize(&mut slot, &text("a.json"), &FileData::Data(model_with_specials()));
    assert_eq!(r, STATUS_OK);
    let (status, out) = tokenizer_encode(&slot, &text("hi"), sentinel_buffer(8));
    assert_eq!(status, 3);
    match out {
        IdBuffer::Buf(v) => assert_eq!(&v[..3], &[1, 5, 2]),
        IdBuffer::Null => panic!("buffer variant changed"),
    }

    let r = tokenizer_initialize(&mut slot, &text("b.json"), &FileData::Data(model_plain()));
    assert_eq!(r, STATUS_OK);
    let (status, out) = tokenizer_encode(&slot, &text("hi"), sentinel_buffer(8));
    assert_eq!(status, 1);
    match out {
        IdBuffer::Buf(v) => assert_eq!(v[0], 7),
        IdBuffer::Null => panic!("buffer variant changed"),
    }
}

#[test]
fn failed_reinitialize_keeps_old_model() {
    let mut slot = TokenizerSlot::empty();
    tokenizer_initialize(&mut slot, &text("a.json"), &FileData::Data(model_plain()));
    let r = tokenizer_initialize(&mut slot, &text("b.json"), &FileData::Missing);
    assert_eq!(r, STATUS_LOAD_FAILED);
    let (status, out) = tokenizer_encode(&slot, &text("hi"), sentinel_buffer(4));
    assert_eq!(status, 1);
    match out {
        IdBuffer::Buf(v) => assert_eq!(v[0], 7),
        IdBuffer::Null => panic!("buffer variant changed"),
    }
}

#[test]
fn free_then_encode_is_rejected_and_reinitialize_recovers() {
    let mut slot = TokenizerSlot::empty();
    tokenizer_initialize(&mut slot, &text("a.json"), &FileData::Data(model_with_specials()));
    tokenizer_free(&mut slot);
    let (status, _) = tokenizer_encode(&slot, &text("hi"), sentinel_buffer(4));
    assert_eq!(status, STATUS_NOT_INITIALIZED);

    let r = tokenizer_initialize(&mut slot, &text("a.json"), &FileData::Data(model_with_specials()));
    assert_eq!(r, STATUS_OK);
    let (status, _) = tokenizer_encode(&slot, &text("hi"), sentinel_buffer(4));
    assert_eq!(status, 3);
}

#[test]
fn free_is_idempotent() {
    let mut slot = TokenizerSlot::empty();
    tokenizer_free(&mut slot);
    tokenizer_free(&mut slot);
    let (status, _) = tokenizer_encode(&slot, &text("hi"), sentinel_buffer(2));
    assert_eq!(status, STATUS_NOT_INITIALIZED);
}
