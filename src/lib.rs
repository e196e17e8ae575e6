//! Serving a frontend bundle that is embedded in the application from a
//! custom URI scheme: a request path is mapped to an embedded asset, with a
//! single-level fallback to the default document, and the response's content
//! type is derived from the path that is served.

pub mod path;
pub mod table;
pub mod resolve;
pub mod laws;

pub use path::DEFAULT_DOCUMENT;
pub use resolve::{locate, resolve, Resolution};
pub use table::{Asset, AssetTable};
