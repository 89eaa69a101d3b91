//! A process-wide tokenizer service: load a serialized tokenizer model into a
//! single resource slot, encode text into token ids written into a
//! caller-supplied fixed-capacity buffer, and clear the slot again. Every
//! outcome is reported through a small closed set of integer status codes; no
//! failure escapes as a panic.

pub mod args;
pub mod encode;
pub mod ext;
pub mod service;
pub mod status;
