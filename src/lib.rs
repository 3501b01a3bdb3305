//! A string atop a shared, reference-counted byte buffer.
//!
//! `BytesString` wraps a `bytes::Bytes` value whose content is always
//! well-formed UTF-8 and offers a text interface to it without copying.

pub mod buffer;
pub mod text;

pub use text::BytesString;
