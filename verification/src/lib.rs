//! A terminal Kubernetes browser: the verified core of its state machine,
//! text handling and resource summaries.

pub mod text;
pub mod parse;
pub mod theme;
pub mod model;
pub mod sort;
pub mod fuzzy;
pub mod app;
pub mod keys;
pub mod describe;
pub mod output;
pub mod screen;
pub mod laws;
pub mod view_laws;
