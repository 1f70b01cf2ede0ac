//! Rewrites URLs of repository files and release assets on the source host into
//! URLs of the same resources served through a mirror or CDN, and reads such
//! source URLs back into resources.

pub mod error;
pub mod parse;
pub mod proxy;
pub mod resource;
pub mod text;
pub mod theorems;

pub use error::ConversionError;
pub use parse::split_reference_and_path;
pub use proxy::Proxy;
pub use resource::{Resource, ResourceView};
