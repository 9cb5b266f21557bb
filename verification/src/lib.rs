//! Rendering engine for per-user media statistics reports.

pub mod cli;
pub mod decoration;
pub mod display;
pub mod formatter;
pub mod model;
pub mod normalizer;
pub mod pipeline;
pub mod render;
pub mod request;
pub mod response;
pub mod status;
pub mod text;
pub mod watchtime;
