//! Normalising and parsing free-form git remote specifiers.

pub mod from_url;
pub mod parse;
pub mod protocol;
