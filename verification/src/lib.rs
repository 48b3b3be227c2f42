//! The verified core of a terminal weather scene: braille cell encoding,
//! the weather model's discrete classifications, the renderer's counters and
//! hashes, and the decisions taken on terminal input and provider replies.

pub mod braille;
pub mod weather;
pub mod view;
pub mod input;
pub mod provider;
