//! The payload of a credential: a JSON object whose members are looked up
//! by name. Only the member values that credentials use are told apart.

use vstd::prelude::*;
use crate::text::same_text;

verus! {

/// The value of one member of a payload.
#[derive(Debug, Clone, PartialEq, Eq)]
pub enum ClaimValue {
    /// JSON `null`.
    Null,
    /// JSON `true` or `false`.
    Flag(bool),
    /// A JSON number, with its value where it is a whole number from 0 to
    /// 2^64 - 1.
    Number(Option<u64>),
    /// A JSON string.
    Text(String),
    /// An array or an object.
    Other,
}

/// The mathematical value of a `ClaimValue`.
pub enum ClaimModel {
    Null,
    Flag(bool),
    Number(Option<u64>),
    Text(Seq<char>),
    Other,
}

impl DeepView for ClaimValue {
    type V = ClaimModel;

    open spec fn deep_view(&self) -> ClaimModel {
        match self {
            ClaimValue::Null => ClaimModel::Null,
            ClaimValue::Flag(b) => ClaimModel::Flag(*b),
            ClaimValue::Number(n) => ClaimModel::Number(*n),
            ClaimValue::Text(s) => ClaimModel::Text(s@),
            ClaimValue::Other => ClaimModel::Other,
        }
    }
}

/// The members of a payload as mathematical values, in the order held.
pub type Payload = Seq<(Seq<char>, ClaimModel)>;

/// The value of the first member named `key`.
pub open spec fn claim(es: Payload, key: Seq<char>) -> Option<ClaimModel>
    decreases es.len(),
{
    if es.len() == 0 {
        None
    } else if es[0].0 == key {
        Some(es[0].1)
    } else {
        claim(es.skip(1), key)
    }
}

/// No two members of the payload share a name.
pub open spec fn distinct_names(es: Payload) -> bool {
    forall|i: int, j: int| 0 <= i < j < es.len() ==> (#[trigger] es[i]).0 != (#[trigger] es[j]).0
}

/// The member `key` as a string; `None` where it is missing or no string.
pub open spec fn text_claim(es: Payload, key: Seq<char>) -> Option<Seq<char>> {
    match claim(es, key) {
        Some(ClaimModel::Text(t)) => Some(t),
        _ => None,
    }
}

/// The member `key` as a whole number; `None` where it is missing or is
/// something else.
pub open spec fn number_claim(es: Payload, key: Seq<char>) -> Option<u64> {
    match claim(es, key) {
        Some(ClaimModel::Number(Some(n))) => Some(n),
        _ => None,
    }
}

/// The member `key` as a truth value; `None` where it is missing or is
/// something else.
pub open spec fn flag_claim(es: Payload, key: Seq<char>) -> Option<bool> {
    match claim(es, key) {
        Some(ClaimModel::Flag(b)) => Some(b),
        _ => None,
    }
}

/// The member `key` as a string that may be left out: `Some(None)` where it
/// is missing or `null`, `None` where it is present and no string.
pub open spec fn optional_text_claim(es: Payload, key: Seq<char>) -> Option<Option<Seq<char>>> {
    match claim(es, key) {
        None => Some(None),
        Some(ClaimModel::Null) => Some(None),
        Some(ClaimModel::Text(t)) => Some(Some(t)),
        _ => None,
    }
}

/// Where member `i` is the first with its name, a lookup of that name
/// finds it.
pub proof fn lemma_claim_found(es: Payload, i: int)
    requires
        0 <= i < es.len(),
        forall|j: int| 0 <= j < i ==> (#[trigger] es[j]).0 != es[i].0,
    ensures
        claim(es, es[i].0) == Some(es[i].1),
    decreases i,
{
    if i > 0 {
        let rest = es.skip(1);
        assert(es[0].0 != es[i].0);
        assert(rest[i - 1] == es[i]);
        assert forall|j: int| 0 <= j < i - 1 implies (#[trigger] rest[j]).0 != rest[i - 1].0 by {
            assert(rest[j] == es[j + 1]);
        }
        lemma_claim_found(rest, i - 1);
    }
}

/// In a payload without repeated names, a lookup of a member's name finds
/// that member.
pub proof fn lemma_claim_at(es: Payload, i: int)
    requires
        distinct_names(es),
        0 <= i < es.len(),
    ensures
        claim(es, es[i].0) == Some(es[i].1),
{
    lemma_claim_found(es, i);
}

/// Where no member has the name, a lookup finds nothing.
pub proof fn lemma_claim_missing(es: Payload, key: Seq<char>)
    requires
        forall|j: int| 0 <= j < es.len() ==> (#[trigger] es[j]).0 != key,
    ensures
        claim(es, key) is None,
    decreases es.len(),
{
    if es.len() > 0 {
        let rest = es.skip(1);
        assert(es[0].0 != key);
        assert forall|j: int| 0 <= j < rest.len() implies (#[trigger] rest[j]).0 != key by {
            assert(rest[j] == es[j + 1]);
        }
        lemma_claim_missing(rest, key);
    }
}

/// Looks up the first member named `key`.
pub fn find_claim<'a>(es: &'a Vec<(String, ClaimValue)>, key: &str) -> (r: Option<&'a ClaimValue>)
    ensures
        r.deep_view() == claim(es.deep_view(), key@),
{
    let ghost model = es.deep_view();
    let mut i: usize = 0;
    while i < es.len()
        invariant
            i <= es.len(),
            model == es.deep_view(),
            forall|j: int| 0 <= j < i ==> (#[trigger] model[j]).0 != key@,
        decreases es.len() - i,
    {
        if same_text(es[i].0.as_str(), key) {
            proof {
                assert(model[i as int].0 == key@);
                lemma_claim_found(model, i as int);
            }
            return Some(&es[i].1);
        }
        i += 1;
    }
    proof {
        lemma_claim_missing(model, key@);
    }
    None
}

/// Reads a member that must be a string.
pub fn read_text(es: &Vec<(String, ClaimValue)>, key: &str) -> (r: Option<String>)
    ensures
        r.deep_view() == text_claim(es.deep_view(), key@),
{
    match find_claim(es, key) {
        Some(ClaimValue::Text(t)) => Some(t.clone()),
        _ => None,
    }
}

/// Reads a member that must be a whole number.
pub fn read_number(es: &Vec<(String, ClaimValue)>, key: &str) -> (r: Option<u64>)
    ensures
        r == number_claim(es.deep_view(), key@),
{
    match find_claim(es, key) {
        Some(ClaimValue::Number(Some(n))) => Some(*n),
        _ => None,
    }
}

/// Reads a member that must be a truth value.
pub fn read_flag(es: &Vec<(String, ClaimValue)>, key: &str) -> (r: Option<bool>)
    ensures
        r == flag_claim(es.deep_view(), key@),
{
    match find_claim(es, key) {
        Some(ClaimValue::Flag(b)) => Some(*b),
        _ => None,
    }
}

/// Reads a member that may be missing or `null`, and is a string otherwise.
pub fn read_optional_text(es: &Vec<(String, ClaimValue)>, key: &str) -> (r: Option<Option<String>>)
    ensures
        r.deep_view() == optional_text_claim(es.deep_view(), key@),
{
    match find_claim(es, key) {
        None => Some(None),
        Some(ClaimValue::Null) => Some(None),
        Some(ClaimValue::Text(t)) => Some(Some(t.clone())),
        _ => None,
    }
}

} // verus!
