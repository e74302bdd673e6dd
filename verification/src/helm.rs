//! The values document of a chart.

pub mod parser;
pub mod values;
pub mod yaml;
