//! Editing and evaluation core of an interactive regular-expression tester:
//! three text buffers (pattern, sample text, matches), a rotating focus,
//! a key dispatcher and an evaluator that turns the pattern's captures on
//! the text into a report.
pub mod app;
pub mod buffer;
pub mod engine;
pub mod field;
pub mod report;
