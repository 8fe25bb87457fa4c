//! JSON bodies of the write requests: `{"value":n}` and `{"amount":n}`.

use vstd::prelude::*;
use crate::decimal::signed_decimal;

verus! {

#[verifier::external_type_specification]
#[verifier::external_body]
pub struct ExJsonError(serde_json::Error);

/// A member name that JSON writes as it is, with no escape.
pub open spec fn plain_name(name: Seq<char>) -> bool {
    forall|i: int| 0 <= i < name.len() ==> {
        let c = #[trigger] name[i];
        ' ' <= c && c != '"' && c != '\\'
    }
}

/// The compact JSON text of an object with the one integer member `name: n`.
pub open spec fn int_object_text(name: Seq<char>, n: int) -> Seq<char> {
    seq!['{', '"'] + name + seq!['"', ':'] + signed_decimal(n) + seq!['}']
}

pub open spec fn value_member() -> Seq<char> {
    "value"@
}

pub open spec fn amount_member() -> Seq<char> {
    "amount"@
}

/// Relies on serde_json::to_string: a map of one string key and one i64 is
/// written compactly as `{"key":n}`, the key unescaped where it needs no escape.
/// The output goes to a `Vec`, whose writer never fails, and neither a string
/// key nor an i64 has a failing path, so the result is always `Ok`.
#[verifier::external_body]
fn int_object_json(name: &str, n: i64) -> (r: Result<String, serde_json::Error>)
    requires
        plain_name(name@),
    ensures
        r is Ok,
        r is Ok ==> r->Ok_0@ == int_object_text(name@, n as int),
{
    serde_json::to_string(&std::collections::BTreeMap::from([(name, n)]))
}

fn int_object(name: &str, n: i64) -> (r: String)
    requires
        plain_name(name@),
    ensures
        r@ == int_object_text(name@, n as int),
{
    match int_object_json(name, n) {
        Ok(s) => s,
        Err(_) => {
            proof {
                assert(false);
            }
            String::new()
        },
    }
}

/// The body of a create or update request: `{"value":n}`.
pub fn value_body(n: i64) -> (r: String)
    ensures
        r@ == int_object_text(value_member(), n as int),
{
    proof {
        reveal_strlit("value");
    }
    int_object("value", n)
}

/// The body of an increment request: `{"amount":n}`.
pub fn amount_body(n: i64) -> (r: String)
    ensures
        r@ == int_object_text(amount_member(), n as int),
{
    proof {
        reveal_strlit("amount");
    }
    int_object("amount", n)
}

} // verus!
