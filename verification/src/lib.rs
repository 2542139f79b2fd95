//! Core library of a personal ebook reader: the canonical document model,
//! format detection, annotations and the document adapters.

pub mod adapter;
pub mod annotation;
pub mod clock;
pub mod epub;
pub mod markdown;
pub mod model;
pub mod path_text;
pub mod pdf;
pub mod uuid_text;
