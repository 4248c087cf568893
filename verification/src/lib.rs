//! Verified library for a code-search command-line client: it builds the
//! search query URL, decodes the JSON search response into a result set,
//! and renders that result set as a fixed-width text table.

pub mod decode;
pub mod json;
pub mod model;
pub mod query;
pub mod render;
pub mod text;
