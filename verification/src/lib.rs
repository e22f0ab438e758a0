//! Codec for xgcode files: a fixed header, a thumbnail bitmap and a g-code
//! payload in one little-endian container.

pub mod document;
pub mod endian;
pub mod error;
pub mod header;
pub mod reader;
pub mod theorems;

pub use document::{NextRead, XGCode, XGCodeRef};
pub use error::Error;
pub use header::Header;
