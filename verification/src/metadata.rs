//! The metadata of a chart, and the parser that reads it from the comments
//! of a values file.

pub mod chart;
pub mod parser;
pub mod scan;
pub mod section;
pub mod tags;
pub mod value;
