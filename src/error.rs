use vstd::prelude::*;

verus! {

/// What can go wrong when a proxy name, a resource kind, arguments or a URL are read.
#[derive(Debug, Clone, PartialEq, Eq)]
pub enum ConversionError {
    /// The proxy identifier is not one of the supported services.
    InvalidProxyType(String),
    /// The resource kind is neither `file` nor `release`.
    InvalidResourceType(String),
    /// The arguments do not fit the resource kind.
    InvalidArguments(String),
    /// The URL has none of the recognized shapes; it holds the trimmed URL.
    InvalidUrl(String),
    /// The URL has a file shape, but its reference and path cannot be told apart.
    ParseError(String),
}

} // verus!
