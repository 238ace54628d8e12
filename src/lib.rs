//! Typesetting normalizer for text that mixes Chinese and Latin script.
//!
//! Every line is cleaned up on its own: whitespace is collapsed, full-width
//! forms are folded, punctuation, brackets and quotes are localized to the
//! script they border, ellipses are made canonical and spaces are placed at
//! script boundaries.
mod text;
pub mod classify;
pub mod lang;
pub mod punc;
pub mod fold;
pub mod space;
pub mod quote;
pub mod ellipsis;
pub mod normalize;

pub use fold::convert_full_width_char;
pub use lang::{guess_lang, Lang};
pub use normalize::normalize;
