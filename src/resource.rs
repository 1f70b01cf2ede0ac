use vstd::prelude::*;
use vstd::string::*;
use crate::proxy::Proxy;
use crate::error::ConversionError;
use crate::text::{chars_of, equals_ignoring_ascii_case, folded, is_white_space};

verus! {

/// A resource of a hosted repository.
#[derive(Debug, Clone, PartialEq, Eq, Hash)]
pub enum Resource {
    /// A raw file of the repository at a reference (a branch, a tag, a commit hash,
    /// or `refs/heads/<name>` / `refs/tags/<name>`).
    File { owner: String, repo: String, reference: String, path: String },
    /// An asset attached to a release.
    Release { owner: String, repo: String, tag: String, name: String },
}

/// A resource with its fields as character sequences.
pub enum ResourceView {
    File { owner: Seq<char>, repo: Seq<char>, reference: Seq<char>, path: Seq<char> },
    Release { owner: Seq<char>, repo: Seq<char>, tag: Seq<char>, name: Seq<char> },
}

impl View for Resource {
    type V = ResourceView;

    open spec fn view(&self) -> ResourceView {
        match self {
            Resource::File { owner, repo, reference, path } => ResourceView::File {
                owner: owner@,
                repo: repo@,
                reference: reference@,
                path: path@,
            },
            Resource::Release { owner, repo, tag, name } => ResourceView::Release {
                owner: owner@,
                repo: repo@,
                tag: tag@,
                name: name@,
            },
        }
    }
}

/// `s` holds no `/`.
pub open spec fn no_slash(s: Seq<char>) -> bool {
    forall|i: int| 0 <= i < s.len() ==> s[i] != '/'
}

/// `s` is a non-empty path segment.
pub open spec fn is_segment(s: Seq<char>) -> bool {
    s.len() > 0 && no_slash(s)
}

/// `s` holds at most one `/`.
pub open spec fn at_most_one_slash(s: Seq<char>) -> bool {
    forall|i: int, j: int| 0 <= i < j < s.len() && s[i] == '/' ==> s[j] != '/'
}

/// `reference` is a single segment (a branch, tag or commit hash), or the compound
/// form `refs/<kind>/<name>`. A single segment spelled `refs` is taken for the
/// start of a compound form when `path` holds two or more `/`, so it is only a
/// reference of its own in front of a path with at most one.
pub open spec fn is_reference_for(reference: Seq<char>, path: Seq<char>) -> bool {
    ||| is_segment(reference) && (reference != "refs"@ || at_most_one_slash(path))
    ||| exists|kind: Seq<char>, name: Seq<char>|
        no_slash(kind) && no_slash(name) && reference == "refs/"@ + kind + "/"@ + name
}

/// The last character of `s` is not white space.
pub open spec fn ends_without_space(s: Seq<char>) -> bool {
    s.len() > 0 && !is_white_space(s[s.len() - 1])
}

/// The fields of `r` are those of a resource that a URL can denote: owner,
/// repository and tag are non-empty segments, the asset name is one too, the
/// reference is one of the forms above, the path is not empty, and the URL does
/// not end in white space.
pub open spec fn is_valid(r: ResourceView) -> bool {
    match r {
        ResourceView::File { owner, repo, reference, path } => {
            &&& is_segment(owner)
            &&& is_segment(repo)
            &&& is_reference_for(reference, path)
            &&& ends_without_space(path)
        },
        ResourceView::Release { owner, repo, tag, name } => {
            &&& is_segment(owner)
            &&& is_segment(repo)
            &&& is_segment(tag)
            &&& is_segment(name)
            &&& ends_without_space(name)
        },
    }
}

/// The source host's URL prefix.
pub open spec fn source_host() -> Seq<char> {
    "https://github.com/"@
}

/// `host` followed by `owner/repo`, `sep`, `first/second`.
pub open spec fn fill(
    host: Seq<char>,
    owner: Seq<char>,
    repo: Seq<char>,
    sep: Seq<char>,
    first: Seq<char>,
    second: Seq<char>,
) -> Seq<char> {
    host + owner + "/"@ + repo + sep + first + "/"@ + second
}

/// The URL of `r` on the source host itself.
pub open spec fn source_url(r: ResourceView) -> Seq<char> {
    match r {
        ResourceView::File { owner, repo, reference, path } => fill(
            source_host(),
            owner,
            repo,
            "/raw/"@,
            reference,
            path,
        ),
        ResourceView::Release { owner, repo, tag, name } => fill(
            source_host(),
            owner,
            repo,
            "/releases/download/"@,
            tag,
            name,
        ),
    }
}

/// The URL of `r` through proxy `p`, or `None` where `p` cannot serve `r`'s kind.
pub open spec fn render(r: ResourceView, p: Proxy) -> Option<Seq<char>> {
    match p {
        Proxy::Github => Some(source_url(r)),
        Proxy::GhProxy => Some("https://gh-proxy.com/"@ + source_url(r)),
        Proxy::Xget => Some(
            match r {
                ResourceView::File { owner, repo, reference, path } => fill(
                    "https://xget.xi-xu.me/gh/"@,
                    owner,
                    repo,
                    "/raw/"@,
                    reference,
                    path,
                ),
                ResourceView::Release { owner, repo, tag, name } => fill(
                    "https://xget.xi-xu.me/gh/"@,
                    owner,
                    repo,
                    "/releases/download/"@,
                    tag,
                    name,
                ),
            },
        ),
        Proxy::Jsdelivr => match r {
            ResourceView::File { owner, repo, reference, path } => Some(
                fill("https://cdn.jsdelivr.net/gh/"@, owner, repo, "@"@, reference, path),
            ),
            ResourceView::Release { .. } => None,
        },
        Proxy::Statically => match r {
            ResourceView::File { owner, repo, reference, path } => Some(
                fill("https://cdn.statically.io/gh/"@, owner, repo, "/"@, reference, path),
            ),
            ResourceView::Release { .. } => None,
        },
    }
}

/// Builds `host` followed by `owner/repo`, `sep`, `first/second`.
fn fill_template(
    host: &str,
    owner: &String,
    repo: &String,
    sep: &str,
    first: &String,
    second: &String,
) -> (r: String)
    ensures
        r@ == fill(host@, owner@, repo@, sep@, first@, second@),
{
    let mut u = host.to_owned();
    u.append(owner.as_str());
    u.append("/");
    u.append(repo.as_str());
    u.append(sep);
    u.append(first.as_str());
    u.append("/");
    u.append(second.as_str());
    u
}

impl Resource {
    /// A raw file of repository `owner/repo` at `reference`.
    pub fn file(owner: String, repo: String, reference: String, path: String) -> (r: Resource)
        ensures
            r@ == (ResourceView::File {
                owner: owner@,
                repo: repo@,
                reference: reference@,
                path: path@,
            }),
    {
        Resource::File { owner, repo, reference, path }
    }

    /// An asset called `name` of release `tag` of repository `owner/repo`.
    pub fn release(owner: String, repo: String, tag: String, name: String) -> (r: Resource)
        ensures
            r@ == (ResourceView::Release { owner: owner@, repo: repo@, tag: tag@, name: name@ }),
    {
        Resource::Release { owner, repo, tag, name }
    }

    /// A resource from a kind named `file` or `release` (in any ASCII case) and its
    /// four fields: owner, repository, then reference and path for a file, or tag
    /// and asset name for a release.
    pub fn from_kind(kind: &str, fields: &Vec<String>) -> (r: Result<Resource, ConversionError>)
        ensures
            folded(kind@) == folded("file"@) ==> if fields.len() == 4 {
                r is Ok && r->Ok_0@ == (ResourceView::File {
                    owner: fields[0]@,
                    repo: fields[1]@,
                    reference: fields[2]@,
                    path: fields[3]@,
                })
            } else {
                r is Err && r->Err_0 is InvalidArguments
            },
            folded(kind@) == folded("release"@) ==> if fields.len() == 4 {
                r is Ok && r->Ok_0@ == (ResourceView::Release {
                    owner: fields[0]@,
                    repo: fields[1]@,
                    tag: fields[2]@,
                    name: fields[3]@,
                })
            } else {
                r is Err && r->Err_0 is InvalidArguments
            },
            folded(kind@) != folded("file"@) && folded(kind@) != folded("release"@) ==> r is Err
                && r->Err_0 is InvalidResourceType && r->Err_0->InvalidResourceType_0@ == kind@,
    {
        proof {
            reveal_strlit("file");
            reveal_strlit("release");
            assert(folded("file"@).len() != folded("release"@).len());
        }
        let k = chars_of(kind);
        if equals_ignoring_ascii_case(&k, "file") {
            if fields.len() != 4 {
                return Err(
                    ConversionError::InvalidArguments(
                        "file requires 4 arguments: owner repo reference path".to_owned(),
                    ),
                );
            }
            Ok(
                Resource::File {
                    owner: fields[0].clone(),
                    repo: fields[1].clone(),
                    reference: fields[2].clone(),
                    path: fields[3].clone(),
                },
            )
        } else if equals_ignoring_ascii_case(&k, "release") {
            if fields.len() != 4 {
                return Err(
                    ConversionError::InvalidArguments(
                        "release requires 4 arguments: owner repo tag name".to_owned(),
                    ),
                );
            }
            Ok(
                Resource::Release {
                    owner: fields[0].clone(),
                    repo: fields[1].clone(),
                    tag: fields[2].clone(),
                    name: fields[3].clone(),
                },
            )
        } else {
            Err(ConversionError::InvalidResourceType(kind.to_owned()))
        }
    }

    /// The URL of this resource through `proxy_type`, or `None` where that proxy
    /// cannot serve this kind of resource.
    pub fn url(&self, proxy_type: &Proxy) -> (r: Option<String>)
        ensures
            match r {
                Some(u) => render(self@, *proxy_type) == Some(u@),
                None => render(self@, *proxy_type) is None,
            },
    {
        match self {
            Resource::File { owner, repo, reference, path } => match proxy_type {
                Proxy::Github => Some(
                    fill_template("https://github.com/", owner, repo, "/raw/", reference, path),
                ),
                Proxy::GhProxy => {
                    let mut u = "https://gh-proxy.com/".to_owned();
                    let source = fill_template(
                        "https://github.com/",
                        owner,
                        repo,
                        "/raw/",
                        reference,
                        path,
                    );
                    u.append(source.as_str());
                    Some(u)
                },
                Proxy::Xget => Some(
                    fill_template(
                        "https://xget.xi-xu.me/gh/",
                        owner,
                        repo,
                        "/raw/",
                        reference,
                        path,
                    ),
                ),
                Proxy::Jsdelivr => Some(
                    fill_template(
                        "https://cdn.jsdelivr.net/gh/",
                        owner,
                        repo,
                        "@",
                        reference,
                        path,
                    ),
                ),
                Proxy::Statically => Some(
                    fill_template(
                        "https://cdn.statically.io/gh/",
                        owner,
                        repo,
                        "/",
                        reference,
                        path,
                    ),
                ),
            },
            Resource::Release { owner, repo, tag, name } => match proxy_type {
                Proxy::Github => Some(
                    fill_template(
                        "https://github.com/",
                        owner,
                        repo,
                        "/releases/download/",
                        tag,
                        name,
                    ),
                ),
                Proxy::GhProxy => {
                    let mut u = "https://gh-proxy.com/".to_owned();
                    let source = fill_template(
                        "https://github.com/",
                        owner,
                        repo,
                        "/releases/download/",
                        tag,
                        name,
                    );
                    u.append(source.as_str());
                    Some(u)
                },
                Proxy::Xget => Some(
                    fill_template(
                        "https://xget.xi-xu.me/gh/",
                        owner,
                        repo,
                        "/releases/download/",
                        tag,
                        name,
                    ),
                ),
                Proxy::Jsdelivr => None,
                Proxy::Statically => None,
            },
        }
    }
}

} // verus!
