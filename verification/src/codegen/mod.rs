//! Reading the stream declarations of the server, and writing the catalog from them.
pub mod parse;
pub mod render;
pub mod report;
pub mod scan;
