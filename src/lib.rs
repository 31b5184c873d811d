//! Navigation and state core of a terminal feed reader.

pub mod list;
pub mod model;
pub mod text;
pub mod app;
