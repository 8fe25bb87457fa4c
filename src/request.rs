//! The requests of the six store operations: method, path, credential, query and body.

use vstd::prelude::*;
use crate::body::{amount_body, amount_member, int_object_text, value_body, value_member};
use crate::params::{
    OrderedCreateEntryParams, OrderedEntryParams, OrderedIncrementEntryParams,
    OrderedListEntriesParams, OrderedUpdateEntryParams,
};
use crate::path::{
    build_url, entries_endpoint, entry_endpoint, entry_path, increment_endpoint, increment_path,
    opt_string_view, scope_str, url_of,
};
use crate::query::{
    create_query, create_query_of, lemma_list_query_encodes_present_only, list_query, list_query_of,
    name_once, page_token_name, pairs_view, update_query, update_query_of, QueryString,
};

verus! {

/// The HTTP method of a request.
#[derive(Clone, Copy, Debug, PartialEq, Eq, Structural)]
pub enum Method {
    Get,
    Post,
    Patch,
    Delete,
}

/// One request, ready to be sent: the credential goes in the `x-api-key`
/// header, the query pairs after the path, and the body, if any, as JSON.
#[derive(Clone, Debug)]
pub struct Request {
    pub method: Method,
    pub url: String,
    pub api_key: String,
    pub query: QueryString,
    pub body: Option<String>,
}

/// A request as plain values.
pub struct RequestView {
    pub method: Method,
    pub url: Seq<char>,
    pub api_key: Seq<char>,
    pub query: Seq<(Seq<char>, Seq<char>)>,
    pub body: Option<Seq<char>>,
}

impl View for Request {
    type V = RequestView;

    open spec fn view(&self) -> RequestView {
        RequestView {
            method: self.method,
            url: self.url@,
            api_key: self.api_key@,
            query: pairs_view(self.query@),
            body: opt_string_view(self.body),
        }
    }
}

/// The request that lists a page of entries.
pub open spec fn list_request_of(p: OrderedListEntriesParams) -> RequestView {
    RequestView {
        method: Method::Get,
        url: url_of(entries_endpoint(), p.universe_id.0, opt_string_view(p.scope)),
        api_key: p.api_key@,
        query: list_query_of(p),
        body: None,
    }
}

/// The request that creates an entry.
pub open spec fn create_request_of(p: OrderedCreateEntryParams) -> RequestView {
    RequestView {
        method: Method::Post,
        url: url_of(entries_endpoint(), p.universe_id.0, opt_string_view(p.scope)),
        api_key: p.api_key@,
        query: create_query_of(p),
        body: Some(int_object_text(value_member(), p.value as int)),
    }
}

/// The request that reads an entry.
pub open spec fn get_request_of(p: OrderedEntryParams) -> RequestView {
    RequestView {
        method: Method::Get,
        url: url_of(entry_endpoint(p.id@), p.universe_id.0, opt_string_view(p.scope)),
        api_key: p.api_key@,
        query: Seq::empty(),
        body: None,
    }
}

/// The request that deletes an entry.
pub open spec fn delete_request_of(p: OrderedEntryParams) -> RequestView {
    RequestView {
        method: Method::Delete,
        url: url_of(entry_endpoint(p.id@), p.universe_id.0, opt_string_view(p.scope)),
        api_key: p.api_key@,
        query: Seq::empty(),
        body: None,
    }
}

/// The request that sets an entry's value.
pub open spec fn update_request_of(p: OrderedUpdateEntryParams) -> RequestView {
    RequestView {
        method: Method::Patch,
        url: url_of(entry_endpoint(p.id@), p.universe_id.0, opt_string_view(p.scope)),
        api_key: p.api_key@,
        query: update_query_of(p),
        body: Some(int_object_text(value_member(), p.value as int)),
    }
}

/// The request that adds a delta to an entry's value on the service side.
pub open spec fn increment_request_of(p: OrderedIncrementEntryParams) -> RequestView {
    RequestView {
        method: Method::Patch,
        url: url_of(increment_endpoint(p.id@), p.universe_id.0, opt_string_view(p.scope)),
        api_key: p.api_key@,
        query: Seq::empty(),
        body: Some(int_object_text(amount_member(), p.increment as int)),
    }
}

fn empty_query() -> (r: QueryString)
    ensures
        pairs_view(r@) == Seq::<(Seq<char>, Seq<char>)>::empty(),
{
    let q: QueryString = Vec::new();
    assert(pairs_view(q@) =~= Seq::empty());
    q
}

/// Builds the request that lists a page of entries.
pub fn list_entries_request(params: &OrderedListEntriesParams) -> (r: Request)
    ensures
        r@ == list_request_of(*params),
{
    Request {
        method: Method::Get,
        url: build_url("/entries", params.universe_id, scope_str(&params.scope)),
        api_key: params.api_key.clone(),
        query: list_query(params),
        body: None,
    }
}

/// Builds the request that creates an entry.
pub fn create_entry_request(params: &OrderedCreateEntryParams) -> (r: Request)
    ensures
        r@ == create_request_of(*params),
{
    let body = value_body(params.value);
    Request {
        method: Method::Post,
        url: build_url("/entries", params.universe_id, scope_str(&params.scope)),
        api_key: params.api_key.clone(),
        query: create_query(params),
        body: Some(body),
    }
}

/// Builds the request that reads an entry.
pub fn get_entry_request(params: &OrderedEntryParams) -> (r: Request)
    ensures
        r@ == get_request_of(*params),
{
    let endpoint = entry_path(params.id.as_str());
    Request {
        method: Method::Get,
        url: build_url(endpoint.as_str(), params.universe_id, scope_str(&params.scope)),
        api_key: params.api_key.clone(),
        query: empty_query(),
        body: None,
    }
}

/// Builds the request that deletes an entry.
pub fn delete_entry_request(params: &OrderedEntryParams) -> (r: Request)
    ensures
        r@ == delete_request_of(*params),
{
    let endpoint = entry_path(params.id.as_str());
    Request {
        method: Method::Delete,
        url: build_url(endpoint.as_str(), params.universe_id, scope_str(&params.scope)),
        api_key: params.api_key.clone(),
        query: empty_query(),
        body: None,
    }
}

/// Builds the request that sets an entry's value.
pub fn update_entry_request(params: &OrderedUpdateEntryParams) -> (r: Request)
    ensures
        r@ == update_request_of(*params),
{
    let body = value_body(params.value);
    let endpoint = entry_path(params.id.as_str());
    Request {
        method: Method::Patch,
        url: build_url(endpoint.as_str(), params.universe_id, scope_str(&params.scope)),
        api_key: params.api_key.clone(),
        query: update_query(params),
        body: Some(body),
    }
}

/// Builds the request that increments an entry by `increment` on the service
/// side.
pub fn increment_entry_request(params: &OrderedIncrementEntryParams) -> (r: Request)
    ensures
        r@ == increment_request_of(*params),
{
    let body = amount_body(params.increment);
    let endpoint = increment_path(params.id.as_str());
    Request {
        method: Method::Patch,
        url: build_url(endpoint.as_str(), params.universe_id, scope_str(&params.scope)),
        api_key: params.api_key.clone(),
        query: empty_query(),
        body: Some(body),
    }
}

/// A page token handed to a listing is sent back verbatim: the listing request
/// carries it exactly once, under `page_token`, unchanged.
pub proof fn lemma_page_token_sent_verbatim(p: OrderedListEntriesParams, token: String)
    requires
        p.page_token == Some(token),
    ensures
        name_once(list_request_of(p).query, page_token_name(), token@),
{
    lemma_list_query_encodes_present_only(p);
}

} // verus!
