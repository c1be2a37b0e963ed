//! What the header scraper makes of the declarations that it finds in the
//! headers of the native library: the methods, the structs and the events
//! that bindings are generated from.

pub mod comment;
pub mod pattern;
pub mod query;
pub mod scrape;
pub mod text;
pub mod types;
