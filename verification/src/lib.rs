//! Reads three-column rows (host, start timestamp, end timestamp) from a
//! tokenized byte source and hands them across an opaque-handle boundary.
//!
//! The core here is the handle / ownership / iteration protocol: how a
//! reader, its iterator, and a reusable output record relate; how success,
//! exhaustion, and the error states are told apart through a small integer
//! contract; and how field bytes are exposed through nullable views. The
//! tokenizer itself (splitting raw bytes into field sequences) and the byte
//! source (file or standard input) are external collaborators: the caller
//! pulls one entry at a time from them and hands it to [`iter::read_next`],
//! which makes every decision and is verified for every possible entry.

pub mod field;
pub mod iter;
pub mod laws;
pub mod reader;
pub mod record;
