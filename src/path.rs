//! Resource paths of an ordered store and of its entries.

use vstd::prelude::*;
use crate::decimal::{decimal, push_decimal};

verus! {

/// The numeric identifier of a universe, rendered in decimal in paths.
#[derive(Clone, Copy, Debug, PartialEq, Eq, Structural)]
pub struct UniverseId(pub u64);

/// Everything of a store's root path that precedes the universe identifier.
pub open spec fn api_root() -> Seq<char> {
    "https://apis.roblox.com/ordered-data-stores/v1/universes/"@
}

/// The part between the universe identifier and the scope segment.
pub open spec fn stores_segment() -> Seq<char> {
    "/orderedDataStores/"@
}

/// The word that precedes the scope.
pub open spec fn scopes_word() -> Seq<char> {
    "scopes/"@
}

/// The scope used where none is given.
pub open spec fn default_scope() -> Seq<char> {
    "global"@
}

/// The scope that a path names: the given one, else the default.
pub open spec fn scope_or_default(scope: Option<Seq<char>>) -> Seq<char> {
    match scope {
        Some(s) => s,
        None => default_scope(),
    }
}

/// The absolute path of the store root of `universe` in `scope`, followed by `endpoint`.
pub open spec fn url_of(endpoint: Seq<char>, universe: u64, scope: Option<Seq<char>>) -> Seq<char> {
    api_root() + decimal(universe as nat) + stores_segment() + scopes_word()
        + scope_or_default(scope) + endpoint
}

/// The view of an optional string slice.
pub open spec fn opt_str_view(o: Option<&str>) -> Option<Seq<char>> {
    match o {
        Some(s) => Some(s@),
        None => None,
    }
}

/// The view of an optional string.
pub open spec fn opt_string_view(o: Option<String>) -> Option<Seq<char>> {
    match o {
        Some(s) => Some(s@),
        None => None,
    }
}

/// The endpoint of one entry.
pub open spec fn entry_endpoint(id: Seq<char>) -> Seq<char> {
    "/entries/"@ + id
}

/// The endpoint that increments one entry.
pub open spec fn increment_endpoint(id: Seq<char>) -> Seq<char> {
    "/entries/"@ + id + ":increment"@
}

/// The endpoint of the entry collection.
pub open spec fn entries_endpoint() -> Seq<char> {
    "/entries"@
}

/// Builds the absolute path of the store root, in `scope` or in the default
/// scope, followed by `endpoint` (empty, or an entry's sub-path).
pub fn build_url(endpoint: &str, universe_id: UniverseId, scope: Option<&str>) -> (r: String)
    ensures
        r@ == url_of(endpoint@, universe_id.0, opt_str_view(scope)),
{
    let mut url = String::from_str("https://apis.roblox.com/ordered-data-stores/v1/universes/");
    push_decimal(&mut url, universe_id.0);
    url.append("/orderedDataStores/");
    url.append("scopes/");
    match scope {
        Some(s) => url.append(s),
        None => url.append("global"),
    }
    url.append(endpoint);
    assert(url@ =~= url_of(endpoint@, universe_id.0, opt_str_view(scope)));
    url
}

/// The optional scope of a parameter record, borrowed as a slice.
pub fn scope_str(scope: &Option<String>) -> (r: Option<&str>)
    ensures
        opt_str_view(r) == opt_string_view(*scope),
{
    match scope {
        Some(s) => Some(s.as_str()),
        None => None,
    }
}

/// The endpoint of the entry `id`.
pub fn entry_path(id: &str) -> (r: String)
    ensures
        r@ == entry_endpoint(id@),
{
    let mut p = String::from_str("/entries/");
    p.append(id);
    p
}

/// The endpoint that increments the entry `id`.
pub fn increment_path(id: &str) -> (r: String)
    ensures
        r@ == increment_endpoint(id@),
{
    let mut p = String::from_str("/entries/");
    p.append(id);
    p.append(":increment");
    p
}

/// `t` occurs in `s` as a contiguous run.
pub open spec fn contains_run(s: Seq<char>, t: Seq<char>) -> bool {
    exists|i: int| 0 <= i && i + t.len() <= s.len() && #[trigger] s.subrange(i, i + t.len()) == t
}

/// Every built path names its scope in a `scopes/{scope}` segment: the given
/// scope where there is one, `scopes/global` where there is none.
pub proof fn lemma_url_names_scope(endpoint: Seq<char>, universe: u64, scope: Option<Seq<char>>)
    ensures
        contains_run(url_of(endpoint, universe, scope), scopes_word() + scope_or_default(scope)),
        scope is None ==> contains_run(url_of(endpoint, universe, scope), "scopes/global"@),
{
    let head = api_root() + decimal(universe as nat) + stores_segment();
    let t = scopes_word() + scope_or_default(scope);
    let u = url_of(endpoint, universe, scope);
    assert(u =~= head + t + endpoint);
    let i = head.len() as int;
    assert(u.subrange(i, i + t.len()) =~= t);
    if scope is None {
        reveal_strlit("scopes/global");
        reveal_strlit("scopes/");
        reveal_strlit("global");
        assert(t =~= "scopes/global"@);
    }
}

} // verus!
