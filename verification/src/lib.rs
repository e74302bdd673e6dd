//! Documentation of the values of a packaged application chart.
//!
//! The annotation parser reads the tags in the comments of a chart's values
//! file into metadata: sections, and the values that they document. The
//! section rewriter puts a table of those values under the parameters
//! heading of a document, in the place of what stood there, and keeps every
//! other line. The values reader flattens the values file itself into
//! dotted paths.
//!
//! Lines are matched by the `regex` crate, tables are laid out by the
//! `markdown_table` crate, and YAML is read by the `serde_yaml` crate. The
//! modules `pattern`, `table` and `helm::yaml` say what is taken from them
//! on trust; everything else is proved.

pub mod cli;
pub mod config;
pub mod helm;
pub mod markdown;
pub mod metadata;
pub mod pattern;
pub mod render;
pub mod table;
pub mod text;
