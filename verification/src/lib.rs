//! Extraction of code entities (functions, methods and classes) from Python source,
//! with a complexity score and the detection of API endpoints for each.

pub mod entity;
pub mod parser;
pub mod syntax;
pub mod text;
