//! Saved cookies, as they are given back to Chrome.
use vstd::prelude::*;

use crate::json::{
    get, items, lemma_object_view, lookup, remove, without_member, Json, JsonView, Number,
};

verus! {

/// The double that is -1, as its bits.
pub const MINUS_ONE: u64 = 0xBFF0_0000_0000_0000;

/// A number that is -1, which stands for a cookie that never expires.
pub open spec fn is_minus_one(v: Option<JsonView>) -> bool {
    ||| v == Some(JsonView::Number(Number::Negative(-1i64)))
    ||| v == Some(JsonView::Number(Number::Float(MINUS_ONE)))
}

/// The members of a cookie that Chrome takes back: it tells of a cookie whether
/// it is a session's and how large it is, but does not take either, and it wants
/// no expiry where there is none.
pub open spec fn settable(ms: Seq<(Seq<char>, JsonView)>) -> Seq<(Seq<char>, JsonView)> {
    let rest = without_member(without_member(ms, "session"@), "size"@);
    if is_minus_one(lookup(rest, "expires"@)) {
        without_member(rest, "expires"@)
    } else {
        rest
    }
}

/// A cookie as Chrome takes it back; what is no object stays as it is.
pub open spec fn cleaned(cookie: JsonView) -> JsonView {
    match cookie {
        JsonView::Object(ms) => JsonView::Object(settable(ms)),
        other => other,
    }
}

/// A cookie as Chrome takes it back.
pub fn clean_cookie(cookie: &Json) -> (r: Json)
    ensures
        r@ == cleaned(cookie@),
{
    let copy = cookie.copy();
    match copy {
        Json::Object(fields) => {
            proof {
                lemma_object_view(fields);
            }
            let mut obj = fields;
            remove(&mut obj, "session");
            remove(&mut obj, "size");
            let never = match get(&obj, "expires") {
                Some(Json::Number(Number::Negative(n))) => *n == -1,
                Some(Json::Number(Number::Float(bits))) => *bits == MINUS_ONE,
                _ => false,
            };
            if never {
                remove(&mut obj, "expires");
            }
            proof {
                lemma_object_view(obj);
            }
            Json::Object(obj)
        },
        other => other,
    }
}

/// The saved cookies as Chrome takes them back, in order.
pub fn cookies_to_set(cookies: &Vec<Json>) -> (r: Vec<Json>)
    ensures
        items(r@) == items(cookies@).map_values(|c: JsonView| cleaned(c)),
{
    let mut out: Vec<Json> = Vec::new();
    let mut i: usize = 0;
    while i < cookies.len()
        invariant
            i <= cookies@.len(),
            out@.len() == i,
            forall|j: int| 0 <= j < i ==> (#[trigger] out@[j])@ == cleaned(cookies@[j]@),
        decreases cookies@.len() - i,
    {
        out.push(clean_cookie(&cookies[i]));
        i += 1;
    }
    assert(items(out@) =~= items(cookies@).map_values(|c: JsonView| cleaned(c)));
    out
}

/// A member that was taken out is gone.
proof fn lemma_without_is_gone(ms: Seq<(Seq<char>, JsonView)>, key: Seq<char>, other: Seq<char>)
    ensures
        lookup(without_member(ms, key), key) is None,
        other != key ==> lookup(without_member(ms, key), other) == lookup(ms, other),
        lookup(ms, other) is None ==> lookup(without_member(ms, key), other) is None,
    decreases ms.len(),
{
    if ms.len() > 0 {
        lemma_without_is_gone(ms.skip(1), key, other);
        if ms[0].0 != key {
            let r = without_member(ms, key);
            assert(r.skip(1) =~= without_member(ms.skip(1), key));
            assert(r[0] == ms[0]);
        }
    }
}

/// A cookie that is given back has neither mark of its origin nor the expiry
/// that stands for none; every other member it keeps.
pub proof fn law_cookie_can_be_set(ms: Seq<(Seq<char>, JsonView)>, key: Seq<char>)
    ensures
        lookup(settable(ms), "session"@) is None,
        lookup(settable(ms), "size"@) is None,
        !is_minus_one(lookup(settable(ms), "expires"@)),
        key != "session"@ && key != "size"@ && key != "expires"@ ==> lookup(settable(ms), key)
            == lookup(ms, key),
        !is_minus_one(lookup(ms, "expires"@)) ==> lookup(settable(ms), "expires"@) == lookup(
            ms,
            "expires"@,
        ),
{
    reveal_strlit("session");
    reveal_strlit("size");
    reveal_strlit("expires");
    assert("session"@[0] != "expires"@[0]);
    assert("session"@.len() != "size"@.len());
    assert("expires"@.len() != "size"@.len());
    let a = without_member(ms, "session"@);
    let b = without_member(a, "size"@);
    lemma_without_is_gone(ms, "session"@, "session"@);
    lemma_without_is_gone(ms, "session"@, key);
    lemma_without_is_gone(ms, "session"@, "expires"@);
    lemma_without_is_gone(a, "size"@, "session"@);
    lemma_without_is_gone(a, "size"@, key);
    lemma_without_is_gone(a, "size"@, "expires"@);
    lemma_without_is_gone(b, "expires"@, "session"@);
    lemma_without_is_gone(b, "expires"@, "size"@);
    lemma_without_is_gone(b, "expires"@, key);
}

/// Cleaning a cookie twice is cleaning it once.
pub proof fn law_cleaning_is_idempotent(ms: Seq<(Seq<char>, JsonView)>)
    ensures
        settable(settable(ms)) == settable(ms),
{
    let s = settable(ms);
    law_cookie_can_be_set(ms, "session"@);
    lemma_without_nothing(s, "session"@);
    lemma_without_nothing(s, "size"@);
}

/// Taking out a member that is not there changes nothing.
proof fn lemma_without_nothing(ms: Seq<(Seq<char>, JsonView)>, key: Seq<char>)
    requires
        lookup(ms, key) is None,
    ensures
        without_member(ms, key) == ms,
    decreases ms.len(),
{
    if ms.len() > 0 {
        lemma_without_nothing(ms.skip(1), key);
        assert(seq![ms[0]] + ms.skip(1) =~= ms);
    } else {
        assert(without_member(ms, key) =~= ms);
    }
}

/// An expiry stands for none exactly where its value is -1, whichever way that is
/// written.
pub proof fn law_only_minus_one_is_no_expiry(n: u64, m: i64, bits: u64, v: JsonView)
    ensures
        !is_minus_one(None),
        !is_minus_one(Some(JsonView::Number(Number::Unsigned(n)))),
        is_minus_one(Some(JsonView::Number(Number::Negative(m)))) <==> m == -1,
        is_minus_one(Some(JsonView::Number(Number::Float(bits)))) <==> bits
            == 0xBFF0_0000_0000_0000,
        !(v is Number) ==> !is_minus_one(Some(v)),
        !(v is Object) ==> cleaned(v) == v,
{
}

}
