use vstd::prelude::*;
use crate::parse::{body_shape, parse_url, reference_and_path, source_body, url_shape, UrlShape};
use crate::proxy::{proxy_named, Proxy};
use crate::resource::{
    at_most_one_slash, is_reference_for, is_segment, is_valid, no_slash, render, source_url,
    ResourceView,
};
use crate::text::{
    folded, has_at, is_white_space, lemma_slash_after_at, lemma_slash_after_bounds, lemma_trimmed_unchanged,
    slash_after, trimmed,
};

verus! {

/// A proxy serves every file; release assets are served by every proxy but the two
/// CDNs, jsDelivr and Statically.
pub proof fn lemma_proxy_capability(r: ResourceView, p: Proxy)
    ensures
        render(r, p) is None <==> (r is Release && (p == Proxy::Jsdelivr || p
            == Proxy::Statically)),
{
}

/// Proxy identifiers are read without regard to ASCII case: two strings that agree
/// once folded name the same proxy, or both name none.
pub proof fn lemma_proxy_name_ignores_case(s: Seq<char>, t: Seq<char>)
    requires
        folded(s) == folded(t),
    ensures
        proxy_named(s) == proxy_named(t),
{
}

/// Joining a reference and a path with `/` and splitting the result again gives
/// them back.
pub proof fn lemma_split_joined(reference: Seq<char>, path: Seq<char>)
    requires
        is_reference_for(reference, path),
        path.len() > 0,
    ensures
        reference_and_path(reference + "/"@ + path) == Some((reference, path)),
{
    reveal_strlit("/");
    reveal_strlit("refs");
    reveal_strlit("refs/");
    let rest = reference + "/"@ + path;
    let n = rest.len() as int;
    let lr = reference.len() as int;
    if is_segment(reference) && (reference != "refs"@ || at_most_one_slash(path)) {
        lemma_slash_after_at(rest, 0, lr);
        assert(rest.subrange(0, lr) =~= reference);
        assert(rest.subrange(lr + 1, n) =~= path);
        let b = slash_after(rest, lr + 1);
        lemma_slash_after_bounds(rest, lr + 1);
        let c = slash_after(rest, b + 1);
        if reference == "refs"@ && b < n {
            lemma_slash_after_bounds(rest, b + 1);
            if c < n {
                assert(path[b - lr - 1] == '/');
                assert(path[c - lr - 1] == '/');
            }
        }
    } else {
        let (kind, name) = choose|kind: Seq<char>, name: Seq<char>|
            no_slash(kind) && no_slash(name) && reference == "refs/"@ + kind + "/"@ + name;
        let lk = kind.len() as int;
        let ln = name.len() as int;
        assert(rest =~= "refs/"@ + kind + "/"@ + name + "/"@ + path);
        lemma_slash_after_at(rest, 0, 4);
        assert(rest.subrange(0, 4) =~= "refs"@);
        lemma_slash_after_at(rest, 5, 5 + lk);
        lemma_slash_after_at(rest, 6 + lk, 6 + lk + ln);
        assert(lr == 6 + lk + ln);
        assert(rest.subrange(0, lr) =~= reference);
        assert(rest.subrange(lr + 1, n) =~= path);
    }
}

/// A URL on the source host, with no white space at its end, has the shape of
/// what follows the host.
proof fn lemma_source_host_body(body: Seq<char>)
    requires
        body.len() > 0,
        !is_white_space(body[body.len() - 1]),
    ensures
        url_shape(trimmed("https://github.com/"@ + body)) == body_shape(body),
{
    reveal_strlit("https://github.com/");
    let u = "https://github.com/"@ + body;
    assert(u.subrange(0, 19) =~= "https://github.com/"@);
    lemma_trimmed_unchanged(u);
    assert(u.subrange(19, u.len() as int) =~= body);
}

/// The body of a file URL has the raw shape, with its parts.
proof fn lemma_file_body_shape(
    owner: Seq<char>,
    repo: Seq<char>,
    reference: Seq<char>,
    path: Seq<char>,
)
    requires
        is_segment(owner),
        is_segment(repo),
        path.len() > 0,
    ensures
        body_shape(owner + "/"@ + repo + "/raw/"@ + reference + "/"@ + path) == (UrlShape::Raw {
            owner,
            repo,
            rest: reference + "/"@ + path,
        }),
{
    reveal_strlit("/");
    reveal_strlit("/raw/");
    reveal_strlit("raw/");
    let body = owner + "/"@ + repo + "/raw/"@ + reference + "/"@ + path;
    let lo = owner.len() as int;
    let lr = repo.len() as int;
    let k = lo + lr + 2;
    lemma_slash_after_at(body, 0, lo);
    lemma_slash_after_at(body, lo + 1, lo + 1 + lr);
    assert(body.subrange(0, lo) =~= owner);
    assert(body.subrange(lo + 1, lo + 1 + lr) =~= repo);
    assert(body.subrange(k, k + 4) =~= "raw/"@);
    assert(body.subrange(k + 4, body.len() as int) =~= reference + "/"@ + path);
}

/// The body of a release URL has the release shape, with its parts.
proof fn lemma_release_body_shape(
    owner: Seq<char>,
    repo: Seq<char>,
    tag: Seq<char>,
    name: Seq<char>,
)
    requires
        is_segment(owner),
        is_segment(repo),
        is_segment(tag),
        name.len() > 0,
    ensures
        body_shape(owner + "/"@ + repo + "/releases/download/"@ + tag + "/"@ + name) == (
        UrlShape::Release { owner, repo, tag, name }),
{
    reveal_strlit("/");
    reveal_strlit("raw/");
    reveal_strlit("blob/");
    reveal_strlit("/releases/download/");
    reveal_strlit("releases/download/");
    let body = owner + "/"@ + repo + "/releases/download/"@ + tag + "/"@ + name;
    let lo = owner.len() as int;
    let lr = repo.len() as int;
    let lt = tag.len() as int;
    let k = lo + lr + 2;
    lemma_slash_after_at(body, 0, lo);
    lemma_slash_after_at(body, lo + 1, lo + 1 + lr);
    assert(body.subrange(0, lo) =~= owner);
    assert(body.subrange(lo + 1, lo + 1 + lr) =~= repo);
    if has_at(body, k, "raw/"@) {
        assert(body.subrange(k, k + 4)[1] == body[k + 1]);
    }
    if has_at(body, k, "blob/"@) {
        assert(body.subrange(k, k + 5)[0] == body[k]);
    }
    assert(body.subrange(k, k + 18) =~= "releases/download/"@);
    lemma_slash_after_at(body, k + 18, k + 18 + lt);
    assert(body.subrange(k + 18, k + 18 + lt) =~= tag);
    assert(body.subrange(k + 19 + lt, body.len() as int) =~= name);
}

/// Any valid resource rendered with no proxy gives its URL on the source host, and
/// reading that URL back gives the same resource.
pub proof fn lemma_source_url_round_trip(r: ResourceView)
    requires
        is_valid(r),
    ensures
        render(r, Proxy::Github) == Some(source_url(r)),
        parse_url(source_url(r)) == Some(r),
{
    match r {
        ResourceView::File { owner, repo, reference, path } => {
            let body = owner + "/"@ + repo + "/raw/"@ + reference + "/"@ + path;
            assert(source_url(r) =~= "https://github.com/"@ + body);
            lemma_source_host_body(body);
            lemma_file_body_shape(owner, repo, reference, path);
            lemma_split_joined(reference, path);
        },
        ResourceView::Release { owner, repo, tag, name } => {
            let body = owner + "/"@ + repo + "/releases/download/"@ + tag + "/"@ + name;
            assert(source_url(r) =~= "https://github.com/"@ + body);
            lemma_source_host_body(body);
            lemma_release_body_shape(owner, repo, tag, name);
        },
    }
}

/// A split reference and path, joined with `/`, give back what was split.
proof fn lemma_split_rejoins(rest: Seq<char>)
    ensures
        match reference_and_path(rest) {
            Some((reference, path)) => rest == reference + "/"@ + path,
            None => true,
        },
{
    reveal_strlit("/");
    let n = rest.len() as int;
    let a = slash_after(rest, 0);
    lemma_slash_after_bounds(rest, 0);
    if a < n {
        let b = slash_after(rest, a + 1);
        lemma_slash_after_bounds(rest, a + 1);
        let c = slash_after(rest, b + 1);
        if b < n {
            lemma_slash_after_bounds(rest, b + 1);
        }
        let e = if rest.subrange(0, a) == "refs"@ && c < n {
            c
        } else {
            a
        };
        if reference_and_path(rest) is Some {
            assert(rest =~= rest.subrange(0, e) + "/"@ + rest.subrange(e + 1, n));
        }
    }
}

/// The parts of a raw or release shape, put back together, give the body they
/// were read from.
proof fn lemma_body_rejoins(body: Seq<char>)
    ensures
        match body_shape(body) {
            UrlShape::Raw { owner, repo, rest } => body == owner + "/"@ + repo + "/raw/"@ + rest,
            UrlShape::Release { owner, repo, tag, name } => body == owner + "/"@ + repo
                + "/releases/download/"@ + tag + "/"@ + name,
            _ => true,
        },
{
    reveal_strlit("/");
    reveal_strlit("/raw/");
    reveal_strlit("raw/");
    reveal_strlit("/releases/download/");
    reveal_strlit("releases/download/");
    let n = body.len() as int;
    let a = slash_after(body, 0);
    lemma_slash_after_bounds(body, 0);
    if a < n {
        lemma_slash_after_bounds(body, a + 1);
    }
    let c = slash_after(body, a + 1);
    let k = c + 1;
    match body_shape(body) {
        UrlShape::Raw { owner, repo, rest } => {
            assert(body.subrange(k, k + 4) == "raw/"@);
            assert(body.subrange(a, a + 1) =~= "/"@);
            assert(body.subrange(c, k + 4) =~= "/"@ + "raw/"@);
            assert("/"@ + "raw/"@ =~= "/raw/"@);
            assert(body =~= body.subrange(0, a) + body.subrange(a, a + 1) + body.subrange(a + 1, c)
                + body.subrange(c, k + 4) + body.subrange(k + 4, n));
        },
        UrlShape::Release { owner, repo, tag, name } => {
            let s = k + 18;
            let d = slash_after(body, s);
            lemma_slash_after_bounds(body, s);
            assert(body.subrange(k, k + 18) == "releases/download/"@);
            assert(body.subrange(a, a + 1) =~= "/"@);
            assert(body.subrange(c, k + 18) =~= "/"@ + "releases/download/"@);
            assert("/"@ + "releases/download/"@ =~= "/releases/download/"@);
            assert(body.subrange(d, d + 1) =~= "/"@);
            assert(body =~= body.subrange(0, a) + body.subrange(a, a + 1) + body.subrange(a + 1, c)
                + body.subrange(c, s) + body.subrange(s, d) + body.subrange(d, d + 1)
                + body.subrange(d + 1, n));
        },
        _ => {},
    }
}

/// Joining a host, a body and the two parts of a split rest in one go or in steps
/// gives the same sequence.
proof fn lemma_join_steps(
    host: Seq<char>,
    owner: Seq<char>,
    repo: Seq<char>,
    sep: Seq<char>,
    first: Seq<char>,
    second: Seq<char>,
)
    ensures
        host + (owner + "/"@ + repo + sep + (first + "/"@ + second)) == host + owner + "/"@
            + repo + sep + first + "/"@ + second,
{
    assert(host + (owner + "/"@ + repo + sep + (first + "/"@ + second)) =~= host + owner + "/"@
        + repo + sep + first + "/"@ + second);
}

/// Reading a URL and rendering the resource with no proxy gives the URL back, for
/// URLs written as rendering writes them: the `https` scheme, the `raw` or
/// `releases/download` shape (a `blob` URL comes back as `raw`), and no white space
/// around them.
pub proof fn lemma_parse_then_render(u: Seq<char>)
    requires
        parse_url(u) is Some,
        trimmed(u) == u,
        has_at(u, 0, "https://github.com/"@),
        !(url_shape(u) is Blob),
    ensures
        render(parse_url(u)->0, Proxy::Github) == Some(u),
{
    reveal_strlit("https://github.com/");
    let host = "https://github.com/"@;
    let n = u.len() as int;
    let body = u.subrange(19, n);
    assert(source_body(u) == Some(body));
    assert(url_shape(u) == body_shape(body));
    assert(u =~= host + body);
    lemma_body_rejoins(body);
    match body_shape(body) {
        UrlShape::Raw { owner, repo, rest } => {
            lemma_split_rejoins(rest);
            let (reference, path) = reference_and_path(rest)->0;
            assert(parse_url(u) == Some(ResourceView::File { owner, repo, reference, path }));
            lemma_join_steps(host, owner, repo, "/raw/"@, reference, path);
        },
        UrlShape::Release { owner, repo, tag, name } => {
            assert(parse_url(u) == Some(ResourceView::Release { owner, repo, tag, name }));
            assert(owner + "/"@ + repo + "/releases/download/"@ + tag + "/"@ + name == owner + "/"@
                + repo + "/releases/download/"@ + (tag + "/"@ + name)) by {
                assert(owner + "/"@ + repo + "/releases/download/"@ + tag + "/"@ + name =~= owner
                    + "/"@ + repo + "/releases/download/"@ + (tag + "/"@ + name));
            }
            lemma_join_steps(host, owner, repo, "/releases/download/"@, tag, name);
        },
        _ => {},
    }
}

} // verus!
