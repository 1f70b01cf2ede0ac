use vstd::prelude::*;
use crate::error::ConversionError;
use crate::resource::{render, Resource};
use crate::text::{chars_of, equals_ignoring_ascii_case, folded};

verus! {

/// The services through which a resource can be fetched.
#[derive(Debug, PartialEq, Eq, Structural, Clone, Copy, Hash)]
pub enum Proxy {
    /// The source host itself, with no proxy.
    Github,
    /// gh-proxy.com, which takes the whole source URL after its own host.
    GhProxy,
    /// xget.xi-xu.me.
    Xget,
    /// cdn.jsdelivr.net, which serves repository files only.
    Jsdelivr,
    /// cdn.statically.io, which serves repository files only.
    Statically,
}

/// The canonical lower-case identifier of `p`.
pub open spec fn identifier_of(p: Proxy) -> Seq<char> {
    match p {
        Proxy::Github => "github"@,
        Proxy::GhProxy => "gh-proxy"@,
        Proxy::Xget => "xget"@,
        Proxy::Jsdelivr => "jsdelivr"@,
        Proxy::Statically => "statically"@,
    }
}

/// The proxy that `s` names, ignoring ASCII case, if any.
pub open spec fn proxy_named(s: Seq<char>) -> Option<Proxy> {
    if folded(s) == folded("github"@) {
        Some(Proxy::Github)
    } else if folded(s) == folded("gh-proxy"@) {
        Some(Proxy::GhProxy)
    } else if folded(s) == folded("xget"@) {
        Some(Proxy::Xget)
    } else if folded(s) == folded("jsdelivr"@) {
        Some(Proxy::Jsdelivr)
    } else if folded(s) == folded("statically"@) {
        Some(Proxy::Statically)
    } else {
        None
    }
}

/// `r` is what reading identifier `s` gives: the proxy it names, or else
/// `InvalidProxyType` holding `s`.
pub open spec fn names_proxy(s: Seq<char>, r: Result<Proxy, ConversionError>) -> bool {
    match r {
        Ok(p) => proxy_named(s) == Some(p),
        Err(e) => proxy_named(s) is None && e is InvalidProxyType && e->InvalidProxyType_0@ == s,
    }
}

impl Proxy {
    /// The canonical lower-case identifier of this proxy.
    pub fn identifier(&self) -> (r: &'static str)
        ensures
            r@ == identifier_of(*self),
            proxy_named(r@) == Some(*self),
    {
        proof {
            reveal_strlit("github");
            reveal_strlit("gh-proxy");
            reveal_strlit("xget");
            reveal_strlit("jsdelivr");
            reveal_strlit("statically");
            assert(folded("github"@)[1] != folded("gh-proxy"@)[1]);
            assert(folded("jsdelivr"@)[0] != folded("statically"@)[0]);
        }
        match self {
            Proxy::Github => "github",
            Proxy::GhProxy => "gh-proxy",
            Proxy::Xget => "xget",
            Proxy::Jsdelivr => "jsdelivr",
            Proxy::Statically => "statically",
        }
    }

    /// Reads a proxy identifier, ignoring ASCII case.
    pub fn parse(s: &str) -> (r: Result<Proxy, ConversionError>)
        ensures
            names_proxy(s@, r),
    {
        let v = chars_of(s);
        if equals_ignoring_ascii_case(&v, "github") {
            Ok(Proxy::Github)
        } else if equals_ignoring_ascii_case(&v, "gh-proxy") {
            Ok(Proxy::GhProxy)
        } else if equals_ignoring_ascii_case(&v, "xget") {
            Ok(Proxy::Xget)
        } else if equals_ignoring_ascii_case(&v, "jsdelivr") {
            Ok(Proxy::Jsdelivr)
        } else if equals_ignoring_ascii_case(&v, "statically") {
            Ok(Proxy::Statically)
        } else {
            Err(ConversionError::InvalidProxyType(s.to_owned()))
        }
    }

    /// The URL of `resource` through this proxy, or `None` where the proxy cannot serve it.
    pub fn url(&self, resource: Resource) -> (r: Option<String>)
        ensures
            match r {
                Some(u) => render(resource@, *self) == Some(u@),
                None => render(resource@, *self) is None,
            },
    {
        resource.url(self)
    }
}

impl std::str::FromStr for Proxy {
    type Err = ConversionError;

    /// Reads a proxy identifier, ignoring ASCII case.
    fn from_str(s: &str) -> (r: Result<Proxy, ConversionError>)
        ensures
            names_proxy(s@, r),
    {
        Proxy::parse(s)
    }
}

} // verus!
