//! Decoders for a versioned binary beatmap-catalog file.
//!
//! The catalog is decoded bottom-up from a fully resident byte buffer:
//! primitive little-endian fields, closed-set enum bytes, version-dispatched
//! field shapes, composite records, count-prefixed collections, and finally
//! whole entries and the listing itself. Every decoder is a pure forward pass
//! over the buffer; each is verified against a specification function that
//! defines the byte layout exactly.

pub mod context;
pub mod elements;
pub mod entry;
pub mod error;
pub mod listing;
pub mod primitive;
pub mod stat;
pub mod timestamp;
