//! JSON values as the tools receive and return them.
use vstd::prelude::*;

use crate::outside::{json_escape, json_escaped, json_quoted};
use crate::text::same_text;

verus! {

/// A JSON number, as its text is written: a whole number that is not negative,
/// a negative whole number, or a number with a fraction or an exponent, which
/// is held as the bit pattern of its IEEE 754 double.
#[derive(Debug, Clone, Copy, PartialEq, Eq, Structural)]
pub enum Number {
    Unsigned(u64),
    Negative(i64),
    Float(u64),
}

/// A JSON value.
#[derive(Debug, PartialEq, Eq)]
pub enum Json {
    Null,
    Bool(bool),
    Number(Number),
    Str(String),
    Array(Vec<Json>),
    Object(Vec<(String, Json)>),
}

/// The members of a JSON object, in order.
pub type JsonObject = Vec<(String, Json)>;

/// What a [`Json`] value says.
#[verifier::ext_equal]
pub enum JsonView {
    Null,
    Bool(bool),
    Number(Number),
    Str(Seq<char>),
    Array(Seq<JsonView>),
    Object(Seq<(Seq<char>, JsonView)>),
}

/// What `j` says.
pub open spec fn json_view(j: Json) -> JsonView
    decreases j,
{
    match j {
        Json::Null => JsonView::Null,
        Json::Bool(b) => JsonView::Bool(b),
        Json::Number(n) => JsonView::Number(n),
        Json::Str(s) => JsonView::Str(s@),
        Json::Array(v) => JsonView::Array(
            Seq::new(
                v@.len(),
                |i: int|
                    if 0 <= i < v@.len() {
                        json_view(v@[i])
                    } else {
                        JsonView::Null
                    },
            ),
        ),
        Json::Object(v) => JsonView::Object(
            Seq::new(
                v@.len(),
                |i: int|
                    if 0 <= i < v@.len() {
                        (v@[i].0@, json_view(v@[i].1))
                    } else {
                        (seq![], JsonView::Null)
                    },
            ),
        ),
    }
}

impl View for Json {
    type V = JsonView;

    open spec fn view(&self) -> JsonView {
        json_view(*self)
    }
}

/// What the values of a list say.
pub open spec fn items(v: Seq<Json>) -> Seq<JsonView> {
    v.map_values(|j: Json| j@)
}

/// What the members of an object say.
pub open spec fn members(v: Seq<(String, Json)>) -> Seq<(Seq<char>, JsonView)> {
    v.map_values(|m: (String, Json)| (m.0@, m.1@))
}

/// The value of the first member named `key`.
pub open spec fn lookup(ms: Seq<(Seq<char>, JsonView)>, key: Seq<char>) -> Option<JsonView>
    decreases ms.len(),
{
    if ms.len() == 0 {
        None
    } else if ms[0].0 == key {
        Some(ms[0].1)
    } else {
        lookup(ms.skip(1), key)
    }
}

/// The members that are not named `key`.
pub open spec fn without_member(ms: Seq<(Seq<char>, JsonView)>, key: Seq<char>) -> Seq<
    (Seq<char>, JsonView),
>
    decreases ms.len(),
{
    if ms.len() == 0 {
        seq![]
    } else if ms[0].0 == key {
        without_member(ms.skip(1), key)
    } else {
        seq![ms[0]] + without_member(ms.skip(1), key)
    }
}

/// The text of a string value.
pub open spec fn str_of(v: Option<JsonView>) -> Option<Seq<char>> {
    match v {
        Some(JsonView::Str(s)) => Some(s),
        _ => None,
    }
}

/// The truth value of a boolean.
pub open spec fn bool_of(v: Option<JsonView>) -> Option<bool> {
    match v {
        Some(JsonView::Bool(b)) => Some(b),
        _ => None,
    }
}

/// The number of a number value.
pub open spec fn number_of(v: Option<JsonView>) -> Option<Number> {
    match v {
        Some(JsonView::Number(n)) => Some(n),
        _ => None,
    }
}

/// The value of a whole number that is not negative.
pub open spec fn u64_of(v: Option<JsonView>) -> Option<u64> {
    match v {
        Some(JsonView::Number(Number::Unsigned(n))) => Some(n),
        _ => None,
    }
}

/// The value of a whole number in the range of `i64`.
pub open spec fn i64_of(v: Option<JsonView>) -> Option<i64> {
    match v {
        Some(JsonView::Number(Number::Unsigned(n))) => if n <= i64::MAX {
            Some(n as i64)
        } else {
            None
        },
        Some(JsonView::Number(Number::Negative(n))) => Some(n),
        _ => None,
    }
}

/// What an array says is what its items say.
pub proof fn lemma_array_view(v: Vec<Json>)
    ensures
        Json::Array(v)@ == JsonView::Array(items(v@)),
{
    assert(Json::Array(v)@->Array_0 =~= items(v@));
}

/// What an object says is what its members say.
pub proof fn lemma_object_view(v: Vec<(String, Json)>)
    ensures
        Json::Object(v)@ == JsonView::Object(members(v@)),
{
    assert(Json::Object(v)@->Object_0 =~= members(v@));
}

/// The member of an object whose first value is found at `i`.
proof fn lemma_lookup_at(ms: Seq<(Seq<char>, JsonView)>, key: Seq<char>, i: int)
    requires
        0 <= i <= ms.len(),
        forall|j: int| 0 <= j < i ==> ms[j].0 != key,
        i < ms.len() ==> ms[i].0 == key,
    ensures
        lookup(ms, key) == (if i < ms.len() {
            Some(ms[i].1)
        } else {
            None
        }),
    decreases ms.len(),
{
    if i > 0 {
        assert(ms[0].0 != key);
        let t = ms.skip(1);
        assert forall|j: int| 0 <= j < i - 1 implies t[j].0 != key by {
            assert(t[j] == ms[j + 1]);
        }
        lemma_lookup_at(t, key, i - 1);
    }
}

impl Json {
    /// A copy of the value.
    pub fn copy(&self) -> (r: Json)
        ensures
            r@ == self@,
        decreases self,
    {
        match self {
            Json::Null => Json::Null,
            Json::Bool(b) => Json::Bool(*b),
            Json::Number(n) => Json::Number(*n),
            Json::Str(s) => Json::Str(s.clone()),
            Json::Array(v) => {
                let mut out: Vec<Json> = Vec::new();
                let mut i: usize = 0;
                while i < v.len()
                    invariant
                        i <= v@.len(),
                        out@.len() == i,
                        *self == Json::Array(*v),
                        forall|j: int| 0 <= j < i ==> (#[trigger] out@[j])@ == v@[j]@,
                    decreases v@.len() - i,
                {
                    assert(decreases_to!(v@ => v@[i as int]));
                    assert(decreases_to!(*v => v@));
                    assert(decreases_to!(*self => self->Array_0));
                    out.push(v[i].copy());
                    i += 1;
                }
                proof {
                    lemma_array_view(out);
                    lemma_array_view(*v);
                    assert(items(out@) =~= items(v@));
                }
                Json::Array(out)
            },
            Json::Object(v) => {
                let mut out: Vec<(String, Json)> = Vec::new();
                let mut i: usize = 0;
                while i < v.len()
                    invariant
                        i <= v@.len(),
                        out@.len() == i,
                        *self == Json::Object(*v),
                        forall|j: int|
                            0 <= j < i ==> (#[trigger] out@[j]).0@ == v@[j].0@ && out@[j].1@
                                == v@[j].1@,
                    decreases v@.len() - i,
                {
                    assert(decreases_to!(v@[i as int] => v@[i as int].1));
                    assert(decreases_to!(v@ => v@[i as int]));
                    assert(decreases_to!(*v => v@));
                    assert(decreases_to!(*self => self->Object_0));
                    out.push((v[i].0.clone(), v[i].1.copy()));
                    i += 1;
                }
                proof {
                    lemma_object_view(out);
                    lemma_object_view(*v);
                    assert(members(out@) =~= members(v@));
                }
                Json::Object(out)
            },
        }
    }
}

/// An array of the given values.
pub fn array(v: Vec<Json>) -> (r: Json)
    ensures
        r@ == JsonView::Array(items(v@)),
{
    proof {
        lemma_array_view(v);
    }
    Json::Array(v)
}

/// An object of the given members.
pub fn object(v: Vec<(String, Json)>) -> (r: Json)
    ensures
        r@ == JsonView::Object(members(v@)),
{
    proof {
        lemma_object_view(v);
    }
    Json::Object(v)
}

/// A string value.
pub fn text(s: &str) -> (r: Json)
    ensures
        r@ == JsonView::Str(s@),
{
    Json::Str(s.to_string())
}

/// A whole number that is not negative.
pub fn whole(n: u64) -> (r: Json)
    ensures
        r@ == JsonView::Number(Number::Unsigned(n)),
{
    Json::Number(Number::Unsigned(n))
}

/// A whole number, of either sign, as a JSON number.
pub open spec fn whole_number(n: i64) -> Number {
    if n >= 0 {
        Number::Unsigned(n as u64)
    } else {
        Number::Negative(n)
    }
}

/// A JSON number of either sign.
pub fn integer(n: i64) -> (r: Json)
    ensures
        r@ == JsonView::Number(whole_number(n)),
{
    if n >= 0 {
        Json::Number(Number::Unsigned(n as u64))
    } else {
        Json::Number(Number::Negative(n))
    }
}

/// A member of an object.
pub fn member(key: &str, value: Json) -> (r: (String, Json))
    ensures
        r.0@ == key@,
        r.1 == value,
{
    (key.to_string(), value)
}

/// The value of the first member named `key`.
pub fn get<'a>(obj: &'a Vec<(String, Json)>, key: &str) -> (r: Option<&'a Json>)
    ensures
        match r {
            Some(j) => lookup(members(obj@), key@) == Some(j@),
            None => lookup(members(obj@), key@) is None,
        },
{
    let mut i: usize = 0;
    while i < obj.len()
        invariant
            i <= obj@.len(),
            forall|j: int| 0 <= j < i ==> obj@[j].0@ != key@,
        decreases obj@.len() - i,
    {
        if same_text(obj[i].0.as_str(), key) {
            proof {
                lemma_lookup_at(members(obj@), key@, i as int);
            }
            return Some(&obj[i].1);
        }
        i += 1;
    }
    proof {
        lemma_lookup_at(members(obj@), key@, i as int);
    }
    None
}

/// Removes every member named `key`.
pub fn remove(obj: &mut Vec<(String, Json)>, key: &str)
    ensures
        members(final(obj)@) == without_member(members(old(obj)@), key@),
{
    let ghost all = members(obj@);
    let mut i: usize = 0;
    assert(all.skip(0) =~= all);
    assert(all.take(0) + without_member(all, key@) =~= without_member(all, key@));
    while i < obj.len()
        invariant
            i <= obj@.len(),
            members(obj@).take(i as int) + without_member(members(obj@).skip(i as int), key@)
                == without_member(all, key@),
        decreases obj@.len() - i,
    {
        let ghost ms = members(obj@);
        let ghost rest = ms.skip(i as int);
        if same_text(obj[i].0.as_str(), key) {
            obj.remove(i);
            proof {
                assert(members(obj@).take(i as int) =~= ms.take(i as int));
                assert(members(obj@).skip(i as int) =~= rest.skip(1));
            }
        } else {
            proof {
                assert(ms.skip(i + 1) =~= rest.skip(1));
                assert(ms.take(i + 1) + without_member(rest.skip(1), key@) =~= ms.take(i as int)
                    + without_member(rest, key@));
            }
            i += 1;
        }
    }
    proof {
        let ms = members(obj@);
        assert(ms.skip(i as int) =~= seq![]);
        assert(ms.take(i as int) + without_member(ms.skip(i as int), key@) =~= ms);
    }
}

// ---- strings in JSON ------------------------------------------------------

/// Where a JSON string that goes on with `t` ends: at the first quotation mark
/// that no backslash stands before.
pub open spec fn string_end(t: Seq<char>) -> nat
    decreases t.len(),
{
    if t.len() == 0 || t[0] == '"' {
        0
    } else if t[0] == '\\' && t.len() >= 2 {
        2 + string_end(t.skip(2))
    } else {
        1 + string_end(t.skip(1))
    }
}

/// One character does not end a string.
proof fn lemma_escape_goes_on(c: char, tail: Seq<char>)
    ensures
        string_end(json_escape(c) + tail) == json_escape(c).len() + string_end(tail),
{
    let t = json_escape(c) + tail;
    reveal_with_fuel(string_end, 6);
    if t[0] == '\\' {
        if json_escape(c).len() == 2 {
            assert(t.skip(2) =~= tail);
        } else {
            let n = (c as int) / 16;
            let m = (c as int) % 16;
            let a = t.skip(2);
            assert(a[0] == '0');
            let b = a.skip(1);
            assert(b[0] == '0');
            let d = b.skip(1);
            assert(d[0] == crate::text::hex_digit(n));
            let e = d.skip(1);
            assert(e[0] == crate::text::hex_digit(m));
            assert(e.skip(1) =~= tail);
        }
    } else {
        assert(t.skip(1) =~= tail);
    }
}

/// A text does not end a string.
proof fn lemma_escaped_goes_on(s: Seq<char>, tail: Seq<char>)
    ensures
        string_end(json_escaped(s) + tail) == json_escaped(s).len() + string_end(tail),
    decreases s.len(),
{
    if s.len() == 0 {
        assert(json_escaped(s) + tail =~= tail);
    } else {
        let front = json_escaped(s.drop_last());
        let last = json_escape(s.last());
        assert(json_escaped(s) + tail =~= front + (last + tail));
        lemma_escaped_goes_on(s.drop_last(), last + tail);
        lemma_escape_goes_on(s.last(), tail);
    }
}

/// A text that is put into JSON or a script as a string cannot break out of it:
/// whatever the text and whatever follows, the string ends at its own last
/// quotation mark.
pub proof fn law_string_ends_where_it_should(s: Seq<char>, rest: Seq<char>)
    ensures
        json_quoted(s)[0] == '"',
        string_end((json_quoted(s) + rest).skip(1)) == json_quoted(s).len() - 2,
        json_quoted(s).last() == '"',
{
    let tail = seq!['"'] + rest;
    assert((json_quoted(s) + rest).skip(1) =~= json_escaped(s) + tail);
    lemma_escaped_goes_on(s, tail);
    assert(tail[0] == '"');
}

/// No character is written with a control character.
proof fn lemma_escape_has_no_control_character(c: char, i: int)
    requires
        0 <= i < json_escape(c).len(),
    ensures
        (json_escape(c)[i] as int) >= 0x20,
{
}

/// Nor does it hold a control character, such as the end of a line.
pub proof fn law_string_has_no_control_character(s: Seq<char>, i: int)
    requires
        0 <= i < json_quoted(s).len(),
    ensures
        (json_quoted(s)[i] as int) >= 0x20,
    decreases s.len(),
{
    if 0 < i < json_quoted(s).len() - 1 {
        let front = json_escaped(s.drop_last());
        let last = json_escape(s.last());
        assert(json_escaped(s) == front + last);
        if i - 1 < front.len() {
            law_string_has_no_control_character(s.drop_last(), i);
        } else {
            assert(json_quoted(s)[i] == last[i - 1 - front.len()]);
            lemma_escape_has_no_control_character(s.last(), i - 1 - front.len());
        }
    }
}

// ---- objects --------------------------------------------------------------

/// A member is found by its name, the first of them if there are several, and
/// nothing is found under a name that no member has.
pub proof fn law_member_is_found(
    front: Seq<(Seq<char>, JsonView)>,
    key: Seq<char>,
    value: JsonView,
    rest: Seq<(Seq<char>, JsonView)>,
)
    requires
        forall|i: int| 0 <= i < front.len() ==> (#[trigger] front[i]).0 != key,
    ensures
        lookup(front + seq![(key, value)] + rest, key) == Some(value),
        lookup(front, key) is None,
{
    let all = front + seq![(key, value)] + rest;
    assert forall|j: int| 0 <= j < front.len() implies all[j].0 != key by {
        assert(all[j] == front[j]);
    }
    lemma_lookup_at(all, key, front.len() as int);
    lemma_lookup_at(front, key, front.len() as int);
}

/// Taking a member away leaves all others as they are, and in their order: under
/// its name nothing is found any more, under any other what was found before.
pub proof fn law_member_is_gone(
    ms: Seq<(Seq<char>, JsonView)>,
    key: Seq<char>,
    other: Seq<char>,
)
    requires
        other != key,
    ensures
        lookup(without_member(ms, key), key) is None,
        lookup(without_member(ms, key), other) == lookup(ms, other),
        forall|i: int| 0 <= i < ms.len() && (#[trigger] ms[i]).0 != key ==> without_member(
            ms,
            key,
        ).contains(ms[i]),
    decreases ms.len(),
{
    if ms.len() > 0 {
        let t = ms.skip(1);
        law_member_is_gone(t, key, other);
        let less = without_member(ms, key);
        if ms[0].0 != key {
            assert(less.skip(1) =~= without_member(t, key));
            assert(less[0] == ms[0]);
        }
        assert forall|i: int| 0 <= i < ms.len() && (#[trigger] ms[i]).0
            != key implies less.contains(ms[i]) by {
            if i > 0 {
                assert(t[i - 1] == ms[i]);
                let k = choose|k: int|
                    0 <= k < without_member(t, key).len() && without_member(t, key)[k] == ms[i];
                if ms[0].0 != key {
                    assert(less[k + 1] == ms[i]);
                }
            } else {
                assert(less[0] == ms[0]);
            }
        }
    }
}

/// A whole number reads back as itself, whatever its sign.
pub proof fn law_whole_number_reads_back(n: i64)
    ensures
        i64_of(Some(JsonView::Number(whole_number(n)))) == Some(n),
        n >= 0 ==> u64_of(Some(JsonView::Number(whole_number(n)))) == Some(n as u64),
        n < 0 ==> u64_of(Some(JsonView::Number(whole_number(n)))) is None,
{
}

}
