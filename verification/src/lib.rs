//! Command-line normalisation for a PNG colour quantizer.
//!
//! The raw tokens that follow the program name are parsed with `getopts`,
//! resolved into [`options::ParsedOptions`], and turned into a [`plan::Plan`]: either
//! a text to print with an exit code, or the options to hand to the
//! quantization engine.

pub mod banner;
pub mod error;
pub mod normalize;
pub mod number;
pub mod options;
pub mod parser;
pub mod plan;
pub mod table;
pub mod text;
