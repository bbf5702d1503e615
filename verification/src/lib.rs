//! Configuration, naming and record-building logic of a tool that curates
//! GitHub repositories into line-delimited JSON code datasets.

pub mod config;
pub mod downloader;
pub mod extractor;
pub mod path;
pub mod text;
