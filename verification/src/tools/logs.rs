//! What the tools answer of a session's log: its visits, its console messages
//! and its network requests.
use vstd::prelude::*;
use vstd::string::StringExecFns;

use crate::json::{array, items, Json, JsonView};
use crate::text::{
    cat2, cat4, cat5, chars_of, decimal, decimal_text, join, joined, lemma_texts_push, opt_text,
    string_range, texts,
};
use crate::tools::reply::{
    body_of, lines_or, obj1, object1, ok_text_struct, struct_reply, Reply, ReplyView,
};

verus! {

// ---- visits ---------------------------------------------------------------

/// One visit to a page; the value is the one that the log gives.
pub struct Visit {
    pub seq: u64,
    pub target_id: String,
    pub opened_at: String,
    pub url: String,
    pub value: Json,
}

/// What a [`Visit`] says.
#[verifier::ext_equal]
pub struct VisitView {
    pub seq: u64,
    pub target_id: Seq<char>,
    pub opened_at: Seq<char>,
    pub url: Seq<char>,
    pub value: JsonView,
}

impl View for Visit {
    type V = VisitView;

    open spec fn view(&self) -> VisitView {
        VisitView {
            seq: self.seq,
            target_id: self.target_id@,
            opened_at: self.opened_at@,
            url: self.url@,
            value: self.value@,
        }
    }
}

/// What the visits of a list say.
pub open spec fn visits(v: Seq<Visit>) -> Seq<VisitView> {
    v.map_values(|x: Visit| x@)
}

/// How many bytes a character has in UTF-8.
pub open spec fn char_bytes(c: char) -> nat {
    if (c as int) < 0x80 {
        1
    } else if (c as int) < 0x800 {
        2
    } else if (c as int) < 0x10000 {
        3
    } else {
        4
    }
}

/// How many bytes a text has in UTF-8.
pub open spec fn text_bytes(s: Seq<char>) -> nat
    decreases s.len(),
{
    if s.len() == 0 {
        0
    } else {
        text_bytes(s.drop_last()) + char_bytes(s.last())
    }
}

/// `k` characters of the text are its first eight bytes.
pub open spec fn eight_bytes(s: Seq<char>, k: int) -> bool {
    &&& 0 <= k <= s.len()
    &&& text_bytes(s.take(k)) == 8
}

/// An id that is no longer than eight bytes, or whose first eight bytes are
/// whole characters. Every id that Chrome gives is of ASCII, and so is one.
pub open spec fn can_shorten(s: Seq<char>) -> bool {
    text_bytes(s) <= 8 || exists|k: int| eight_bytes(s, k)
}

/// The first eight bytes of an id.
pub open spec fn short_id(s: Seq<char>) -> Seq<char> {
    if text_bytes(s) <= 8 {
        s
    } else {
        s.take(choose|k: int| eight_bytes(s, k))
    }
}

/// More characters have more bytes.
proof fn lemma_bytes_grow(s: Seq<char>, i: int, j: int)
    requires
        0 <= i <= j <= s.len(),
    ensures
        text_bytes(s.take(j)) >= text_bytes(s.take(i)) + (j - i),
    decreases j - i,
{
    if i < j {
        lemma_bytes_grow(s, i, j - 1);
        assert(s.take(j).drop_last() =~= s.take(j - 1));
    }
}

/// The first eight bytes of an id; `None` if they end within a character.
pub fn short_target(id: &str) -> (r: Option<String>)
    ensures
        match r {
            Some(s) => can_shorten(id@) && s@ == short_id(id@),
            None => !can_shorten(id@),
        },
{
    let cs = chars_of(id);
    let mut n: usize = 0;
    let mut k: usize = 0;
    assert(id@.take(0) =~= seq![]);
    while k < cs.len() && n < 8
        invariant
            cs@ == id@,
            k <= cs@.len(),
            n == text_bytes(id@.take(k as int)),
            n <= 11,
            k > 0 ==> text_bytes(id@.take(k - 1)) < 8,
        decreases cs@.len() - k,
    {
        let c = cs[k];
        proof {
            assert(id@.take(k + 1).drop_last() =~= id@.take(k as int));
            assert(id@.take(k + 1).last() == cs@[k as int]);
        }
        if c <= '\u{7f}' {
            n += 1;
        } else if c <= '\u{7ff}' {
            n += 2;
        } else if c <= '\u{ffff}' {
            n += 3;
        } else {
            n += 4;
        }
        k += 1;
    }
    assert(id@.take(id@.len() as int) =~= id@);
    if k == cs.len() && n <= 8 {
        return Some(id.to_string());
    }
    proof {
        lemma_bytes_grow(id@, k as int, id@.len() as int);
    }
    if n == 8 {
        let r = string_range(&cs, 0, k);
        proof {
            assert(eight_bytes(id@, k as int));
            let m = choose|m: int| eight_bytes(id@, m);
            if m < k {
                lemma_bytes_grow(id@, m, k as int);
            } else if m > k {
                lemma_bytes_grow(id@, k as int, m);
            }
            assert(r@ =~= id@.take(k as int));
        }
        return Some(r);
    }
    proof {
        if exists|m: int| eight_bytes(id@, m) {
            let m = choose|m: int| eight_bytes(id@, m);
            if m >= k {
                lemma_bytes_grow(id@, k as int, m);
            } else {
                lemma_bytes_grow(id@, m, k - 1);
            }
        }
    }
    None
}

/// The line of a visit.
pub open spec fn visit_line(v: VisitView) -> Seq<char> {
    "seq="@ + decimal(v.seq as nat) + "  target="@ + short_id(v.target_id) + "  "@ + v.opened_at
        + "  "@ + v.url
}

/// The answer that lists the visits.
pub open spec fn visit_list_reply(list: Seq<VisitView>) -> ReplyView {
    struct_reply(
        lines_or(list.map_values(|v: VisitView| visit_line(v)), "(no visits recorded)"@),
        object1("visits"@, JsonView::Array(list.map_values(|v: VisitView| v.value))),
    )
}

/// The ids of all visits can be shortened.
pub open spec fn can_list(list: Seq<VisitView>) -> bool {
    forall|i: int| 0 <= i < list.len() ==> can_shorten((#[trigger] list[i]).target_id)
}

/// Whether the ids of all visits can be shortened.
pub fn can_list_visits(list: &Vec<Visit>) -> (r: bool)
    ensures
        r == can_list(visits(list@)),
{
    let mut i: usize = 0;
    while i < list.len()
        invariant
            i <= list@.len(),
            forall|j: int| 0 <= j < i ==> can_shorten((#[trigger] visits(list@)[j]).target_id),
        decreases list@.len() - i,
    {
        assert(visits(list@)[i as int] == list@[i as int]@);
        if short_target(list[i].target_id.as_str()).is_none() {
            return false;
        }
        i += 1;
    }
    true
}

/// The answer that lists the visits, the oldest first.
pub fn listed_visits(list: &Vec<Visit>) -> (r: Reply)
    requires
        can_list(visits(list@)),
    ensures
        r@ == visit_list_reply(visits(list@)),
{
    let mut lines: Vec<String> = Vec::new();
    let mut values: Vec<Json> = Vec::new();
    let mut i: usize = 0;
    while i < list.len()
        invariant
            i <= list@.len(),
            lines@.len() == i,
            values@.len() == i,
            can_list(visits(list@)),
            forall|j: int| 0 <= j < i ==> (#[trigger] lines@[j])@ == visit_line(list@[j]@),
            forall|j: int| 0 <= j < i ==> (#[trigger] values@[j])@ == list@[j]@.value,
        decreases list@.len() - i,
    {
        assert(visits(list@)[i as int] == list@[i as int]@);
        let short = match short_target(list[i].target_id.as_str()) {
            Some(s) => s,
            None => "".to_string(),
        };
        let mut line = cat4(
            "seq=",
            decimal_text(list[i].seq).as_str(),
            "  target=",
            short.as_str(),
        );
        line.append("  ");
        line.append(list[i].opened_at.as_str());
        line.append("  ");
        line.append(list[i].url.as_str());
        lines.push(line);
        values.push(list[i].value.copy());
        i += 1;
    }
    proof {
        assert(texts(lines@) =~= visits(list@).map_values(|v: VisitView| visit_line(v)));
        assert(items(values@) =~= visits(list@).map_values(|v: VisitView| v.value));
    }
    let body = body_of(&lines, "(no visits recorded)");
    ok_text_struct(body, obj1("visits", array(values)))
}

// ---- console and network --------------------------------------------------

/// A console message, over the types of texts and values. The value is the one
/// that the log gives, if it can be given as one.
pub struct ConsoleEntry<S, J> {
    /// What kind of message it is.
    pub ty: S,
    pub text: S,
    pub value: Option<J>,
}

/// A network request, over the types of texts and values.
pub struct NetworkEntry<S, J> {
    pub method: S,
    pub url: S,
    /// The status of the response, once there is one.
    pub status: Option<u64>,
    /// Why the request failed, if it did.
    pub failure: Option<S>,
    /// What was sent with the request.
    pub post_data: Option<S>,
    pub value: Option<J>,
}

/// An entry of a session's log, over the types of texts and values.
pub enum Entry<S, J> {
    Console(ConsoleEntry<S, J>),
    Network(NetworkEntry<S, J>),
    /// Anything else.
    Other,
}

/// An entry as the log gives it.
pub type LogEntry = Entry<String, Json>;

/// What an entry says.
pub type EntryView = Entry<Seq<char>, JsonView>;

/// What an optional value says.
pub open spec fn value_view(v: Option<Json>) -> Option<JsonView> {
    match v {
        Some(j) => Some(j@),
        None => None,
    }
}

/// What an entry says.
pub open spec fn entry_view(e: LogEntry) -> EntryView {
    match e {
        Entry::Console(c) => Entry::Console(
            ConsoleEntry { ty: c.ty@, text: c.text@, value: value_view(c.value) },
        ),
        Entry::Network(n) => Entry::Network(
            NetworkEntry {
                method: n.method@,
                url: n.url@,
                status: n.status,
                failure: opt_text(n.failure),
                post_data: opt_text(n.post_data),
                value: value_view(n.value),
            },
        ),
        Entry::Other => Entry::Other,
    }
}

/// What the entries of a log say.
pub open spec fn entries(v: Seq<LogEntry>) -> Seq<EntryView> {
    v.map_values(|e: LogEntry| entry_view(e))
}

/// The line of a console message; none for another entry.
pub open spec fn console_line(e: EntryView) -> Option<Seq<char>> {
    match e {
        Entry::Console(c) => Some("["@ + c.ty + "] "@ + c.text),
        _ => None,
    }
}

/// The value of a console message; none for another entry.
pub open spec fn console_value(e: EntryView) -> Option<JsonView> {
    match e {
        Entry::Console(c) => c.value,
        _ => None,
    }
}

/// What is shown as the status of a request: a failure comes before a response.
pub open spec fn status_text(n: NetworkEntry<Seq<char>, JsonView>) -> Seq<char> {
    match n.failure {
        Some(f) => "FAIL:"@ + f,
        None => match n.status {
            Some(s) => decimal(s as nat),
            None => "pending"@,
        },
    }
}

/// What is shown of what was sent: a thousand characters at most.
pub open spec fn sent_text(post_data: Option<Seq<char>>) -> Seq<char> {
    match post_data {
        Some(b) => if b.len() > 1000 {
            "  body="@ + b.take(1000) + "…"@
        } else {
            "  body="@ + b
        },
        None => ""@,
    }
}

/// The line of a network request; none for another entry.
pub open spec fn network_line(e: EntryView) -> Option<Seq<char>> {
    match e {
        Entry::Network(n) => Some(
            n.method + " "@ + n.url + " ["@ + status_text(n) + "]"@ + sent_text(n.post_data),
        ),
        _ => None,
    }
}

/// The value of a network request; none for another entry.
pub open spec fn network_value(e: EntryView) -> Option<JsonView> {
    match e {
        Entry::Network(n) => n.value,
        _ => None,
    }
}

/// What is there of a list, in order.
pub open spec fn present<A>(s: Seq<Option<A>>) -> Seq<A>
    decreases s.len(),
{
    if s.len() == 0 {
        seq![]
    } else {
        match s.last() {
            Some(x) => present(s.drop_last()).push(x),
            None => present(s.drop_last()),
        }
    }
}

/// What is there of a list that grew by one.
proof fn lemma_present_push<A>(s: Seq<Option<A>>, x: Option<A>)
    ensures
        present(s.push(x)) == (match x {
            Some(x) => present(s).push(x),
            None => present(s),
        }),
{
    assert(s.push(x).drop_last() =~= s);
}

/// The lines of the console messages among the entries.
pub open spec fn console_lines(es: Seq<EntryView>) -> Seq<Seq<char>> {
    present(es.map_values(|e: EntryView| console_line(e)))
}

/// The values of the console messages among the entries.
pub open spec fn console_values(es: Seq<EntryView>) -> Seq<JsonView> {
    present(es.map_values(|e: EntryView| console_value(e)))
}

/// The lines of the network requests among the entries.
pub open spec fn network_lines(es: Seq<EntryView>) -> Seq<Seq<char>> {
    present(es.map_values(|e: EntryView| network_line(e)))
}

/// The values of the network requests among the entries.
pub open spec fn network_values(es: Seq<EntryView>) -> Seq<JsonView> {
    present(es.map_values(|e: EntryView| network_value(e)))
}

/// The answer that lists console messages.
pub open spec fn console_reply(es: Seq<EntryView>) -> ReplyView {
    struct_reply(
        if es.len() == 0 {
            "(no console messages)"@
        } else {
            joined(console_lines(es), "\n"@)
        },
        object1("messages"@, JsonView::Array(console_values(es))),
    )
}

/// The answer that lists network requests.
pub open spec fn network_reply(es: Seq<EntryView>) -> ReplyView {
    struct_reply(
        if es.len() == 0 {
            "(no network requests)"@
        } else {
            joined(network_lines(es), "\n"@)
        },
        object1("requests"@, JsonView::Array(network_values(es))),
    )
}

/// Adding an entry adds what it maps to.
proof fn lemma_grow<A>(es: Seq<EntryView>, i: int, f: spec_fn(EntryView) -> Option<A>)
    requires
        0 <= i < es.len(),
    ensures
        present(es.take(i + 1).map_values(f)) == (match f(es[i]) {
            Some(x) => present(es.take(i).map_values(f)).push(x),
            None => present(es.take(i).map_values(f)),
        }),
{
    assert(es.take(i + 1).map_values(f) =~= es.take(i).map_values(f).push(f(es[i])));
    lemma_present_push(es.take(i).map_values(f), f(es[i]));
}

/// Items that grew by one.
proof fn lemma_items_push(v: Seq<Json>, j: Json)
    ensures
        items(v.push(j)) == items(v).push(j@),
{
    assert(items(v.push(j)) =~= items(v).push(j@));
}

/// The answer that lists console messages.
pub fn listed_console_messages(log: &Vec<LogEntry>) -> (r: Reply)
    ensures
        r@ == console_reply(entries(log@)),
{
    let ghost es = entries(log@);
    let ghost line_of = |e: EntryView| console_line(e);
    let ghost value_of = |e: EntryView| console_value(e);
    let mut lines: Vec<String> = Vec::new();
    let mut values: Vec<Json> = Vec::new();
    let mut i: usize = 0;
    proof {
        assert(texts(lines@) =~= present(es.take(0).map_values(line_of)));
        assert(items(values@) =~= present(es.take(0).map_values(value_of)));
    }
    while i < log.len()
        invariant
            i <= log@.len(),
            es == entries(log@),
            line_of == (|e: EntryView| console_line(e)),
            value_of == (|e: EntryView| console_value(e)),
            texts(lines@) == present(es.take(i as int).map_values(line_of)),
            items(values@) == present(es.take(i as int).map_values(value_of)),
        decreases log@.len() - i,
    {
        proof {
            assert(es[i as int] == entry_view(log@[i as int]));
            lemma_grow(es, i as int, line_of);
            lemma_grow(es, i as int, value_of);
        }
        match &log[i] {
            Entry::Console(c) => {
                let line = cat4("[", c.ty.as_str(), "] ", c.text.as_str());
                proof {
                    lemma_texts_push(lines@, line);
                }
                lines.push(line);
                match &c.value {
                    Some(j) => {
                        let j = j.copy();
                        proof {
                            lemma_items_push(values@, j);
                        }
                        values.push(j);
                    },
                    None => {},
                }
            },
            _ => {},
        }
        i += 1;
    }
    assert(es.take(i as int) =~= es);
    let body = if log.len() == 0 {
        "(no console messages)".to_string()
    } else {
        join(&lines, "\n")
    };
    ok_text_struct(body, obj1("messages", array(values)))
}

/// What is shown as the status of a request.
fn status_of(n: &NetworkEntry<String, Json>) -> (r: String)
    ensures
        r@ == status_text(entry_view(Entry::Network(*n))->Network_0),
{
    match &n.failure {
        Some(f) => cat2("FAIL:", f.as_str()),
        None => match n.status {
            Some(s) => decimal_text(s),
            None => "pending".to_string(),
        },
    }
}

/// What is shown of what was sent.
fn sent_of(post_data: &Option<String>) -> (r: String)
    ensures
        r@ == sent_text(opt_text(*post_data)),
{
    match post_data {
        Some(b) => {
            let cs = chars_of(b.as_str());
            if cs.len() > 1000 {
                let front = string_range(&cs, 0, 1000);
                assert(front@ =~= b@.take(1000));
                let mut out = cat2("  body=", front.as_str());
                out.append("…");
                out
            } else {
                cat2("  body=", b.as_str())
            }
        },
        None => "".to_string(),
    }
}

/// The answer that lists network requests.
pub fn listed_network_requests(log: &Vec<LogEntry>) -> (r: Reply)
    ensures
        r@ == network_reply(entries(log@)),
{
    let ghost es = entries(log@);
    let ghost line_of = |e: EntryView| network_line(e);
    let ghost value_of = |e: EntryView| network_value(e);
    let mut lines: Vec<String> = Vec::new();
    let mut values: Vec<Json> = Vec::new();
    let mut i: usize = 0;
    proof {
        assert(texts(lines@) =~= present(es.take(0).map_values(line_of)));
        assert(items(values@) =~= present(es.take(0).map_values(value_of)));
    }
    while i < log.len()
        invariant
            i <= log@.len(),
            es == entries(log@),
            line_of == (|e: EntryView| network_line(e)),
            value_of == (|e: EntryView| network_value(e)),
            texts(lines@) == present(es.take(i as int).map_values(line_of)),
            items(values@) == present(es.take(i as int).map_values(value_of)),
        decreases log@.len() - i,
    {
        proof {
            assert(es[i as int] == entry_view(log@[i as int]));
            lemma_grow(es, i as int, line_of);
            lemma_grow(es, i as int, value_of);
        }
        match &log[i] {
            Entry::Network(n) => {
                let mut line = cat5(
                    n.method.as_str(),
                    " ",
                    n.url.as_str(),
                    " [",
                    status_of(n).as_str(),
                );
                line.append("]");
                line.append(sent_of(&n.post_data).as_str());
                proof {
                    lemma_texts_push(lines@, line);
                }
                lines.push(line);
                match &n.value {
                    Some(j) => {
                        let j = j.copy();
                        proof {
                            lemma_items_push(values@, j);
                        }
                        values.push(j);
                    },
                    None => {},
                }
            },
            _ => {},
        }
        i += 1;
    }
    assert(es.take(i as int) =~= es);
    let body = if log.len() == 0 {
        "(no network requests)".to_string()
    } else {
        join(&lines, "\n")
    };
    ok_text_struct(body, obj1("requests", array(values)))
}

/// An id of ASCII is shown by its first eight characters, or whole if it has no
/// more.
pub proof fn law_short_id_of_ascii(s: Seq<char>)
    requires
        forall|i: int| 0 <= i < s.len() ==> (#[trigger] s[i] as int) < 0x80,
    ensures
        can_shorten(s),
        s.len() <= 8 ==> short_id(s) == s,
        s.len() > 8 ==> short_id(s) == s.take(8),
{
    lemma_ascii_bytes(s);
    if s.len() > 8 {
        lemma_ascii_bytes(s.take(8));
        assert(eight_bytes(s, 8));
        let k = choose|k: int| eight_bytes(s, k);
        lemma_ascii_bytes(s.take(k));
        assert(k == 8);
    }
}

/// Text of ASCII has as many bytes as characters.
proof fn lemma_ascii_bytes(s: Seq<char>)
    requires
        forall|i: int| 0 <= i < s.len() ==> (#[trigger] s[i] as int) < 0x80,
    ensures
        text_bytes(s) == s.len(),
    decreases s.len(),
{
    if s.len() > 0 {
        let t = s.drop_last();
        assert forall|i: int| 0 <= i < t.len() implies (#[trigger] t[i] as int) < 0x80 by {
            assert(t[i] == s[i]);
        }
        lemma_ascii_bytes(t);
        assert(s[s.len() - 1] == s.last());
    }
}

/// What was sent is shown whole up to a thousand characters, and from there on cut
/// with a mark that it was; a request is shown as failed before anything else, by
/// its status where it has one, and as pending otherwise.
pub proof fn law_request_is_described(
    n: NetworkEntry<Seq<char>, JsonView>,
    b: Seq<char>,
    why: Seq<char>,
)
    ensures
        sent_text(None) == ""@,
        b.len() <= 1000 ==> sent_text(Some(b)) == "  body="@ + b,
        b.len() > 1000 ==> sent_text(Some(b)) == "  body="@ + b.take(1000) + "…"@,
        n.failure == Some(why) ==> status_text(n) == "FAIL:"@ + why,
        n.failure is None && n.status is None ==> status_text(n) == "pending"@,
        n.failure is None && n.status is Some ==> status_text(n) == decimal(n.status->0 as nat),
{
}

}
