//! Line-oriented security scanner for Move smart-contract source text.
//!
//! Each detector looks for a textual trigger on each line and, depending on
//! its rule, for guard markers on the same line or in a window of lines
//! around it. Findings carry a fixed severity and fixed texts per detector.
pub mod analyzer;
pub mod laws;
pub mod patterns;
pub mod text;
