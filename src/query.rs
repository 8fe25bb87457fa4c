//! Query pairs of the store operations: present parameters only, each once.

use vstd::prelude::*;
use crate::decimal::{decimal, to_decimal};
use crate::params::{
    OrderedCreateEntryParams, OrderedListEntriesParams, OrderedUpdateEntryParams, PageSize,
};
use crate::path::opt_string_view;

verus! {

/// An ordered sequence of query (name, value) pairs.
pub type QueryString = Vec<(String, String)>;

/// The view of query pairs: each name and value as characters.
pub open spec fn pairs_view(q: Seq<(String, String)>) -> Seq<(Seq<char>, Seq<char>)> {
    q.map_values(|p: (String, String)| (p.0@, p.1@))
}

/// The pair `(name, value)` when a value is present, else nothing.
pub open spec fn optional_pair(name: Seq<char>, value: Option<Seq<char>>) -> Seq<(Seq<char>, Seq<char>)> {
    match value {
        Some(v) => seq![(name, v)],
        None => Seq::empty(),
    }
}

/// The canonical text of a boolean.
pub open spec fn bool_text(b: bool) -> Seq<char> {
    if b {
        "true"@
    } else {
        "false"@
    }
}

/// The decimal text of an optional page size.
pub open spec fn page_size_text(p: Option<PageSize>) -> Option<Seq<char>> {
    match p {
        Some(n) => Some(decimal(n.0 as nat)),
        None => None,
    }
}

/// The text of an optional boolean.
pub open spec fn opt_bool_text(b: Option<bool>) -> Option<Seq<char>> {
    match b {
        Some(v) => Some(bool_text(v)),
        None => None,
    }
}

pub open spec fn max_page_size_name() -> Seq<char> {
    "max_page_size"@
}

pub open spec fn page_token_name() -> Seq<char> {
    "page_token"@
}

pub open spec fn order_by_name() -> Seq<char> {
    "order_by"@
}

pub open spec fn filter_name() -> Seq<char> {
    "filter"@
}

pub open spec fn id_name() -> Seq<char> {
    "id"@
}

pub open spec fn allow_missing_name() -> Seq<char> {
    "allow_missing"@
}

/// The query of a listing: page size, page token, order and filter, each when present.
pub open spec fn list_query_of(p: OrderedListEntriesParams) -> Seq<(Seq<char>, Seq<char>)> {
    optional_pair(max_page_size_name(), page_size_text(p.max_page_size))
        + optional_pair(page_token_name(), opt_string_view(p.page_token))
        + optional_pair(order_by_name(), opt_string_view(p.order_by))
        + optional_pair(filter_name(), opt_string_view(p.filter))
}

/// The query of a create request: the new entry's id.
pub open spec fn create_query_of(p: OrderedCreateEntryParams) -> Seq<(Seq<char>, Seq<char>)> {
    seq![(id_name(), p.id@)]
}

/// The query of an update request: `allow_missing` when present.
pub open spec fn update_query_of(p: OrderedUpdateEntryParams) -> Seq<(Seq<char>, Seq<char>)> {
    optional_pair(allow_missing_name(), opt_bool_text(p.allow_missing))
}

fn push_pair(q: &mut QueryString, name: &str, value: String)
    ensures
        pairs_view(final(q)@) == pairs_view(old(q)@).push((name@, value@)),
{
    let ghost before = q@;
    q.push((String::from_str(name), value));
    assert(pairs_view(q@) =~= pairs_view(before).push((name@, value@)));
}

fn push_optional(q: &mut QueryString, name: &str, value: &Option<String>)
    ensures
        pairs_view(final(q)@) == pairs_view(old(q)@) + optional_pair(name@, opt_string_view(*value)),
{
    match value {
        Some(v) => push_pair(q, name, v.clone()),
        None => {},
    }
    assert(pairs_view(q@) =~= pairs_view(old(q)@) + optional_pair(name@, opt_string_view(*value)));
}

/// The canonical text of a boolean.
pub fn bool_to_text(b: bool) -> (r: String)
    ensures
        r@ == bool_text(b),
{
    if b {
        String::from_str("true")
    } else {
        String::from_str("false")
    }
}

/// Encodes the present listing parameters as query pairs.
pub fn list_query(p: &OrderedListEntriesParams) -> (r: QueryString)
    ensures
        pairs_view(r@) == list_query_of(*p),
{
    let mut q: QueryString = Vec::new();
    assert(pairs_view(q@) =~= Seq::empty());
    match p.max_page_size {
        Some(n) => push_pair(&mut q, "max_page_size", to_decimal(n.0)),
        None => {},
    }
    assert(pairs_view(q@) =~= optional_pair(max_page_size_name(), page_size_text(p.max_page_size)));
    push_optional(&mut q, "page_token", &p.page_token);
    push_optional(&mut q, "order_by", &p.order_by);
    push_optional(&mut q, "filter", &p.filter);
    q
}

/// Encodes the id of a new entry as its query.
pub fn create_query(p: &OrderedCreateEntryParams) -> (r: QueryString)
    ensures
        pairs_view(r@) == create_query_of(*p),
{
    let mut q: QueryString = Vec::new();
    assert(pairs_view(q@) =~= Seq::empty());
    push_pair(&mut q, "id", p.id.clone());
    assert(pairs_view(q@) =~= create_query_of(*p));
    q
}

/// Encodes `allow_missing`, when present, as the query of an update.
pub fn update_query(p: &OrderedUpdateEntryParams) -> (r: QueryString)
    ensures
        pairs_view(r@) == update_query_of(*p),
{
    let mut q: QueryString = Vec::new();
    assert(pairs_view(q@) =~= Seq::empty());
    match p.allow_missing {
        Some(b) => push_pair(&mut q, "allow_missing", bool_to_text(b)),
        None => {},
    }
    assert(pairs_view(q@) =~= update_query_of(*p));
    q
}

/// No pair of `q` carries the name `name`.
pub open spec fn name_absent(q: Seq<(Seq<char>, Seq<char>)>, name: Seq<char>) -> bool {
    forall|i: int| 0 <= i < q.len() ==> (#[trigger] q[i]).0 != name
}

/// Exactly one pair of `q` carries the name `name`, and its value is `value`.
pub open spec fn name_once(q: Seq<(Seq<char>, Seq<char>)>, name: Seq<char>, value: Seq<char>) -> bool {
    exists|i: int|
        0 <= i < q.len() && #[trigger] q[i] == (name, value) && forall|j: int|
            0 <= j < q.len() && j != i ==> (#[trigger] q[j]).0 != name
}

/// An optional parameter is encoded in `q`: absent, it contributes no pair;
/// present, it contributes exactly one pair with its text.
pub open spec fn encoded(q: Seq<(Seq<char>, Seq<char>)>, name: Seq<char>, value: Option<Seq<char>>) -> bool {
    match value {
        Some(v) => name_once(q, name, v),
        None => name_absent(q, name),
    }
}

proof fn lemma_absent_concat(a: Seq<(Seq<char>, Seq<char>)>, b: Seq<(Seq<char>, Seq<char>)>, name: Seq<char>)
    requires
        name_absent(a, name),
        name_absent(b, name),
    ensures
        name_absent(a + b, name),
{
    assert forall|i: int| 0 <= i < (a + b).len() implies (#[trigger] (a + b)[i]).0 != name by {
        if i < a.len() {
            assert((a + b)[i] == a[i]);
        } else {
            assert((a + b)[i] == b[i - a.len()]);
        }
    }
}

proof fn lemma_encoded_between(
    a: Seq<(Seq<char>, Seq<char>)>,
    name: Seq<char>,
    value: Option<Seq<char>>,
    b: Seq<(Seq<char>, Seq<char>)>,
)
    requires
        name_absent(a, name),
        name_absent(b, name),
    ensures
        encoded(a + optional_pair(name, value) + b, name, value),
{
    let q = a + optional_pair(name, value) + b;
    match value {
        Some(v) => {
            let i = a.len() as int;
            assert(q[i] == (name, v));
            assert forall|j: int| 0 <= j < q.len() && j != i implies (#[trigger] q[j]).0 != name by {
                if j < i {
                    assert(q[j] == a[j]);
                } else {
                    assert(q[j] == b[j - i - 1]);
                }
            }
        },
        None => {
            assert(q =~= a + b);
            lemma_absent_concat(a, b, name);
        },
    }
}

proof fn lemma_names_distinct()
    ensures
        max_page_size_name() != page_token_name(),
        max_page_size_name() != order_by_name(),
        max_page_size_name() != filter_name(),
        page_token_name() != order_by_name(),
        page_token_name() != filter_name(),
        order_by_name() != filter_name(),
{
    reveal_strlit("max_page_size");
    reveal_strlit("page_token");
    reveal_strlit("order_by");
    reveal_strlit("filter");
    assert(max_page_size_name().len() == 13);
    assert(page_token_name().len() == 10);
    assert(order_by_name().len() == 8);
    assert(filter_name().len() == 6);
}

/// Every listing parameter is encoded faithfully: an absent one never appears
/// in the query, a present one appears exactly once with its text (a page size
/// in decimal, strings verbatim), and no other name appears.
pub proof fn lemma_list_query_encodes_present_only(p: OrderedListEntriesParams)
    ensures
        encoded(list_query_of(p), max_page_size_name(), page_size_text(p.max_page_size)),
        encoded(list_query_of(p), page_token_name(), opt_string_view(p.page_token)),
        encoded(list_query_of(p), order_by_name(), opt_string_view(p.order_by)),
        encoded(list_query_of(p), filter_name(), opt_string_view(p.filter)),
        forall|i: int|
            0 <= i < list_query_of(p).len() ==> {
                let n = (#[trigger] list_query_of(p)[i]).0;
                n == max_page_size_name() || n == page_token_name() || n == order_by_name()
                    || n == filter_name()
            },
{
    lemma_names_distinct();
    let a = optional_pair(max_page_size_name(), page_size_text(p.max_page_size));
    let b = optional_pair(page_token_name(), opt_string_view(p.page_token));
    let c = optional_pair(order_by_name(), opt_string_view(p.order_by));
    let d = optional_pair(filter_name(), opt_string_view(p.filter));
    let q = list_query_of(p);
    let e: Seq<(Seq<char>, Seq<char>)> = Seq::empty();
    assert(q =~= e + a + (b + c + d));
    lemma_absent_concat(b, c, max_page_size_name());
    lemma_absent_concat(b + c, d, max_page_size_name());
    lemma_encoded_between(e, max_page_size_name(), page_size_text(p.max_page_size), b + c + d);
    assert(q =~= a + b + (c + d));
    lemma_absent_concat(c, d, page_token_name());
    lemma_encoded_between(a, page_token_name(), opt_string_view(p.page_token), c + d);
    assert(q =~= (a + b) + c + d);
    lemma_absent_concat(a, b, order_by_name());
    lemma_encoded_between(a + b, order_by_name(), opt_string_view(p.order_by), d);
    assert(q =~= (a + b + c) + d + e);
    lemma_absent_concat(a, b, filter_name());
    lemma_absent_concat(a + b, c, filter_name());
    lemma_encoded_between(a + b + c, filter_name(), opt_string_view(p.filter), e);
    assert forall|i: int| 0 <= i < q.len() implies {
        let n = (#[trigger] q[i]).0;
        n == max_page_size_name() || n == page_token_name() || n == order_by_name()
            || n == filter_name()
    } by {
        if i < a.len() {
            assert(q[i] == a[i]);
        } else if i < a.len() + b.len() {
            assert(q[i] == b[i - a.len()]);
        } else if i < a.len() + b.len() + c.len() {
            assert(q[i] == c[i - a.len() - b.len()]);
        } else {
            assert(q[i] == d[i - a.len() - b.len() - c.len()]);
        }
    }
}

/// The update query encodes `allow_missing` faithfully: absent, it does not
/// appear; present, it appears exactly once as `true` or `false`; nothing else
/// appears.
pub proof fn lemma_update_query_encodes_present_only(p: OrderedUpdateEntryParams)
    ensures
        encoded(update_query_of(p), allow_missing_name(), opt_bool_text(p.allow_missing)),
        update_query_of(p).len() <= 1,
{
    let e: Seq<(Seq<char>, Seq<char>)> = Seq::empty();
    let a = optional_pair(allow_missing_name(), opt_bool_text(p.allow_missing));
    assert(update_query_of(p) =~= e + a + e);
    lemma_encoded_between(e, allow_missing_name(), opt_bool_text(p.allow_missing), e);
}

} // verus!
