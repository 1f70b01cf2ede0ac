use vstd::prelude::*;
use vstd::string::*;
use crate::error::ConversionError;
use crate::resource::{Resource, ResourceView};
use crate::text::{
    chars_of, find_slash, has_at, holds_at, lemma_slash_after_bounds, slash_after, trim, trimmed,
};

verus! {

/// How a trimmed URL decomposes, before its reference and path are split.
pub enum UrlShape {
    /// `<host>/{owner}/{repo}/raw/{rest}`
    Raw { owner: Seq<char>, repo: Seq<char>, rest: Seq<char> },
    /// `<host>/{owner}/{repo}/blob/{rest}`
    Blob { owner: Seq<char>, repo: Seq<char>, rest: Seq<char> },
    /// `<host>/{owner}/{repo}/releases/download/{tag}/{name}`
    Release { owner: Seq<char>, repo: Seq<char>, tag: Seq<char>, name: Seq<char> },
    /// Anything else.
    Unknown,
}

/// What follows the source host in `t`, for either scheme.
pub open spec fn source_body(t: Seq<char>) -> Option<Seq<char>> {
    if has_at(t, 0, "https://github.com/"@) {
        Some(t.subrange("https://github.com/"@.len() as int, t.len() as int))
    } else if has_at(t, 0, "http://github.com/"@) {
        Some(t.subrange("http://github.com/"@.len() as int, t.len() as int))
    } else {
        None
    }
}

/// The shape of `b`, the part of a URL after the source host. The owner and the
/// repository are the first two `/`-separated segments and must not be empty.
pub open spec fn body_shape(b: Seq<char>) -> UrlShape {
    let a = slash_after(b, 0);
    let c = slash_after(b, a + 1);
    let k = c + 1;
    if 0 < a && a + 1 < c && c < b.len() {
        let owner = b.subrange(0, a);
        let repo = b.subrange(a + 1, c);
        if has_at(b, k, "raw/"@) && k + "raw/"@.len() < b.len() {
            UrlShape::Raw { owner, repo, rest: b.subrange(k + "raw/"@.len(), b.len() as int) }
        } else if has_at(b, k, "blob/"@) && k + "blob/"@.len() < b.len() {
            UrlShape::Blob { owner, repo, rest: b.subrange(k + "blob/"@.len(), b.len() as int) }
        } else if has_at(b, k, "releases/download/"@) {
            let s = k + "releases/download/"@.len();
            let d = slash_after(b, s);
            if s < d && d + 1 < b.len() {
                UrlShape::Release {
                    owner,
                    repo,
                    tag: b.subrange(s, d),
                    name: b.subrange(d + 1, b.len() as int),
                }
            } else {
                UrlShape::Unknown
            }
        } else {
            UrlShape::Unknown
        }
    } else {
        UrlShape::Unknown
    }
}

/// The shape of the trimmed URL `t`.
pub open spec fn url_shape(t: Seq<char>) -> UrlShape {
    match source_body(t) {
        Some(b) => body_shape(b),
        None => UrlShape::Unknown,
    }
}

/// Splits what follows `raw/` or `blob/` into a reference and a path. A rest of four
/// or more segments that starts with `refs` takes its first three segments as the
/// reference; otherwise the first segment is the reference. Both parts must be
/// non-empty.
pub open spec fn reference_and_path(r: Seq<char>) -> Option<(Seq<char>, Seq<char>)> {
    let a = slash_after(r, 0);
    let b = slash_after(r, a + 1);
    let c = slash_after(r, b + 1);
    let e = if r.subrange(0, a) == "refs"@ && c < r.len() {
        c
    } else {
        a
    };
    if a < r.len() && 0 < e && e + 1 < r.len() {
        Some((r.subrange(0, e), r.subrange(e + 1, r.len() as int)))
    } else {
        None
    }
}

/// The resource that URL `u` denotes, if any.
pub open spec fn parse_url(u: Seq<char>) -> Option<ResourceView> {
    match url_shape(trimmed(u)) {
        UrlShape::Raw { owner, repo, rest } | UrlShape::Blob { owner, repo, rest } => {
            match reference_and_path(rest) {
                Some((reference, path)) => Some(
                    ResourceView::File { owner, repo, reference, path },
                ),
                None => None,
            }
        },
        UrlShape::Release { owner, repo, tag, name } => Some(
            ResourceView::Release { owner, repo, tag, name },
        ),
        UrlShape::Unknown => None,
    }
}

/// `r` is what reading URL `u` gives: the resource it denotes, or else
/// `InvalidUrl` holding the trimmed URL when it has none of the shapes, and
/// `ParseError` when it has a file shape whose rest cannot be split.
pub open spec fn parses_as(u: Seq<char>, r: Result<Resource, ConversionError>) -> bool {
    match r {
        Ok(res) => parse_url(u) == Some(res@),
        Err(e) => {
            &&& parse_url(u) is None
            &&& (e is InvalidUrl <==> url_shape(trimmed(u)) is Unknown)
            &&& (e is ParseError <==> !(url_shape(trimmed(u)) is Unknown))
            &&& e is InvalidUrl ==> e->InvalidUrl_0@ == trimmed(u)
        },
    }
}

/// Splits `rest`, what follows `raw/` or `blob/` in a file URL, into a reference and
/// a path.
pub fn split_reference_and_path(rest: &str) -> (r: Result<(String, String), ConversionError>)
    ensures
        match r {
            Ok((reference, path)) => reference_and_path(rest@) == Some((reference@, path@)),
            Err(e) => reference_and_path(rest@) is None && e is ParseError,
        },
{
    let v = chars_of(rest);
    let n = v.len();
    let a = find_slash(&v, 0);
    proof {
        lemma_slash_after_bounds(rest@, 0);
    }
    if a >= n {
        return Err(ConversionError::ParseError("Invalid reference/path format".to_owned()));
    }
    let b = find_slash(&v, a + 1);
    proof {
        lemma_slash_after_bounds(rest@, a + 1);
    }
    let c = if b < n {
        find_slash(&v, b + 1)
    } else {
        n
    };
    proof {
        if b < n {
            lemma_slash_after_bounds(rest@, b + 1);
        }
    }
    let refs_len = "refs".unicode_len();
    let e = if a == refs_len && holds_at(&v, 0, "refs") && c < n {
        c
    } else {
        a
    };
    assert((rest@.subrange(0, a as int) == "refs"@) == (a == refs_len && has_at(
        rest@,
        0,
        "refs"@,
    )));
    if e == 0 || e + 1 >= n {
        return Err(ConversionError::ParseError("Missing reference or file path".to_owned()));
    }
    let reference = rest.substring_char(0, e).to_owned();
    let path = rest.substring_char(e + 1, n).to_owned();
    Ok((reference, path))
}

impl Resource {
    /// Reads a source URL, with surrounding white space ignored, as a resource.
    pub fn parse(value: &str) -> (r: Result<Resource, ConversionError>)
        ensures
            parses_as(value@, r),
    {
        let t = trim(value);
        let tv = chars_of(t.as_str());
        let n = tv.len();
        let start = if holds_at(&tv, 0, "https://github.com/") {
            "https://github.com/".unicode_len()
        } else if holds_at(&tv, 0, "http://github.com/") {
            "http://github.com/".unicode_len()
        } else {
            return Err(ConversionError::InvalidUrl(t));
        };
        let body = t.as_str().substring_char(start, n);
        let bv = chars_of(body);
        let m = bv.len();
        assert(source_body(t@) == Some(body@));
        let a = find_slash(&bv, 0);
        proof {
            lemma_slash_after_bounds(body@, 0);
        }
        if a == 0 || a >= m {
            return Err(ConversionError::InvalidUrl(t));
        }
        let c = find_slash(&bv, a + 1);
        proof {
            lemma_slash_after_bounds(body@, a + 1);
        }
        if c <= a + 1 || c >= m {
            return Err(ConversionError::InvalidUrl(t));
        }
        let k = c + 1;
        let owner = body.substring_char(0, a).to_owned();
        let repo = body.substring_char(a + 1, c).to_owned();
        let raw_len = "raw/".unicode_len();
        let blob_len = "blob/".unicode_len();
        let download_len = "releases/download/".unicode_len();
        if holds_at(&bv, k, "raw/") && raw_len < m - k {
            let rest = body.substring_char(k + raw_len, m);
            match split_reference_and_path(rest) {
                Ok((reference, path)) => Ok(Resource::File { owner, repo, reference, path }),
                Err(e) => Err(e),
            }
        } else if holds_at(&bv, k, "blob/") && blob_len < m - k {
            let rest = body.substring_char(k + blob_len, m);
            match split_reference_and_path(rest) {
                Ok((reference, path)) => Ok(Resource::File { owner, repo, reference, path }),
                Err(e) => Err(e),
            }
        } else if holds_at(&bv, k, "releases/download/") {
            let s = k + download_len;
            let d = find_slash(&bv, s);
            proof {
                lemma_slash_after_bounds(body@, s as int);
            }
            if s < d && d < m && d + 1 < m {
                let tag = body.substring_char(s, d).to_owned();
                let name = body.substring_char(d + 1, m).to_owned();
                Ok(Resource::Release { owner, repo, tag, name })
            } else {
                Err(ConversionError::InvalidUrl(t))
            }
        } else {
            Err(ConversionError::InvalidUrl(t))
        }
    }
}

impl<'a> TryFrom<&'a str> for Resource {
    type Error = ConversionError;

    /// Reads a source URL, with surrounding white space ignored, as a resource.
    fn try_from(value: &'a str) -> (r: Result<Resource, ConversionError>)
        ensures
            parses_as(value@, r),
    {
        Resource::parse(value)
    }
}

impl<'a> vstd::std_specs::convert::TryFromSpecImpl<&'a str> for Resource {
    open spec fn obeys_try_from_spec() -> bool {
        false
    }

    open spec fn try_from_spec(value: &'a str) -> Result<Resource, ConversionError> {
        arbitrary()
    }
}

impl TryFrom<String> for Resource {
    type Error = ConversionError;

    /// Reads a source URL, with surrounding white space ignored, as a resource.
    fn try_from(value: String) -> (r: Result<Resource, ConversionError>)
        ensures
            parses_as(value@, r),
    {
        Resource::parse(value.as_str())
    }
}

impl vstd::std_specs::convert::TryFromSpecImpl<String> for Resource {
    open spec fn obeys_try_from_spec() -> bool {
        false
    }

    open spec fn try_from_spec(value: String) -> Result<Resource, ConversionError> {
        arbitrary()
    }
}

} // verus!
