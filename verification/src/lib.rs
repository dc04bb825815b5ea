//! Validation of taxpayer identifiers of fixed format: the text is brought to
//! its normal form (upper case, no white space at either end) and matched
//! against one regular expression that is compiled once. Every answer is
//! stamped with the moment it was made at, written in UTC.

pub mod clock;
pub mod pattern;
pub mod service;
pub mod text;
