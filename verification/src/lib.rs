//! Number-to-words conversion.
//!
//! Converts signed integers into their written form in English and
//! Ukrainian. The value is split into base-1000 triplets; each nonzero
//! triplet is rendered through fixed word tables, and language-specific
//! grammar (Ukrainian gender agreement and plural-form selection for
//! scale words) is applied; the words are joined with single spaces.

pub mod en_us;
pub mod errors;
pub mod laws;
pub mod uk_ua;
pub mod utils;
