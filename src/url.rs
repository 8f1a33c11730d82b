//! URL rewriting: the upstream URL is the remote base followed by the
//! inbound path and query, which defaults to `/`.
use vstd::prelude::*;
use vstd::string::StringExecFns;

verus! {

/// The view of an optional text.
pub open spec fn opt_view(o: Option<&str>) -> Option<Seq<char>> {
    match o {
        Some(s) => Some(s@),
        None => None,
    }
}

/// The path and query that is appended: the given one, or `/` when absent.
pub open spec fn resolved_path(path_and_query: Option<Seq<char>>) -> Seq<char> {
    match path_and_query {
        Some(p) => p,
        None => seq!['/'],
    }
}

/// The upstream URL for a remote base and an inbound path and query.
pub open spec fn upstream_url(base: Seq<char>, path_and_query: Option<Seq<char>>) -> Seq<char> {
    base + resolved_path(path_and_query)
}

/// Builds the upstream URL: `remote_base` followed by `path_and_query`, or by `/`.
pub fn rewrite_url(remote_base: &str, path_and_query: Option<&str>) -> (r: String)
    ensures
        r@ == upstream_url(remote_base@, opt_view(path_and_query)),
{
    let tail = match path_and_query {
        Some(p) => p,
        None => "/",
    };
    proof {
        reveal_strlit("/");
        assert("/"@ =~= seq!['/']);
    }
    String::from_str(remote_base).concat(tail)
}

/// For a fixed remote base, two inbound paths that give the same upstream URL
/// are the same path: rewriting never merges distinct requests.
pub proof fn lemma_rewrite_injective(
    base: Seq<char>,
    p: Option<Seq<char>>,
    q: Option<Seq<char>>,
)
    requires
        upstream_url(base, p) == upstream_url(base, q),
    ensures
        resolved_path(p) == resolved_path(q),
{
    let u = upstream_url(base, p);
    assert(resolved_path(p) =~= u.subrange(base.len() as int, u.len() as int));
    assert(resolved_path(q) =~= u.subrange(base.len() as int, u.len() as int));
}

/// Rewriting the root path gives the base followed by `/`.
pub proof fn lemma_rewrite_root(base: Seq<char>)
    ensures
        upstream_url(base, Some(seq!['/'])) == base + seq!['/'],
        upstream_url(base, None) == base + seq!['/'],
{
}

} // verus!
