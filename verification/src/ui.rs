//! UI building tools: verified builders that turn tool parameters into
//! renderable component trees.

pub mod chart;
pub mod form;
pub mod layout;
pub mod schema;
pub mod table;
