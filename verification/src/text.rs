//! Operations on text, stated over the sequence of a string's characters.
//!
//! Every function here is proved against a short mathematical description of
//! its result, so that the modules above can state their own contracts in the
//! same vocabulary: prefixes, suffixes, pieces, lines, words and joins.
use vstd::prelude::*;
use vstd::string::StringExecFns;

pub mod laws;

verus! {

// ---- vocabulary -----------------------------------------------------------

/// The texts of a list of strings.
pub open spec fn texts(v: Seq<String>) -> Seq<Seq<char>> {
    v.map_values(|s: String| s@)
}

/// The text of an optional string.
pub open spec fn opt_text(o: Option<String>) -> Option<Seq<char>> {
    match o {
        Some(s) => Some(s@),
        None => None,
    }
}

/// The text of an optional borrowed string.
pub open spec fn opt_str_text(o: Option<&str>) -> Option<Seq<char>> {
    match o {
        Some(s) => Some(s@),
        None => None,
    }
}

/// `p` stands in `s` at position `i`.
pub open spec fn occurs_at(s: Seq<char>, p: Seq<char>, i: int) -> bool {
    &&& 0 <= i
    &&& i + p.len() <= s.len()
    &&& s.subrange(i, i + p.len()) == p
}

/// `p` stands somewhere in `s`.
pub open spec fn has_text(s: Seq<char>, p: Seq<char>) -> bool {
    exists|i: int| occurs_at(s, p, i)
}

/// The position of the first `c` in `s`, or the length of `s` if there is none.
pub open spec fn first_index(s: Seq<char>, c: char) -> nat
    decreases s.len(),
{
    if s.len() == 0 || s[0] == c {
        0
    } else {
        1 + first_index(s.skip(1), c)
    }
}

/// The pieces of `s` between the separators `c`; there is always at least one.
pub open spec fn pieces(s: Seq<char>, c: char) -> Seq<Seq<char>>
    decreases s.len(),
{
    let i = first_index(s, c) as int;
    if i >= s.len() {
        seq![s]
    } else {
        seq![s.take(i)] + pieces(s.skip(i + 1), c)
    }
}

/// `s` without one carriage return at its end.
pub open spec fn without_cr(s: Seq<char>) -> Seq<char> {
    if s.len() > 0 && s.last() == '\r' {
        s.drop_last()
    } else {
        s
    }
}

/// The lines of `s`: each ends at a line feed, with or without a carriage
/// return before it, or at the end of a text that does not end in one.
pub open spec fn line_seq(s: Seq<char>) -> Seq<Seq<char>>
    decreases s.len(),
{
    let i = first_index(s, '\n') as int;
    if s.len() == 0 {
        seq![]
    } else if i >= s.len() {
        seq![s]
    } else {
        seq![without_cr(s.take(i))] + line_seq(s.skip(i + 1))
    }
}

/// The code points with the Unicode property `White_Space`.
pub open spec fn is_white(c: char) -> bool {
    ||| '\u{9}' <= c <= '\u{d}'
    ||| c == '\u{20}'
    ||| c == '\u{85}'
    ||| c == '\u{a0}'
    ||| c == '\u{1680}'
    ||| '\u{2000}' <= c <= '\u{200a}'
    ||| c == '\u{2028}'
    ||| c == '\u{2029}'
    ||| c == '\u{202f}'
    ||| c == '\u{205f}'
    ||| c == '\u{3000}'
}

/// How many characters at the start of `s` are white space.
pub open spec fn white_prefix(s: Seq<char>) -> nat
    decreases s.len(),
{
    if s.len() > 0 && is_white(s[0]) {
        1 + white_prefix(s.skip(1))
    } else {
        0
    }
}

/// How many characters at the end of `s` are white space.
pub open spec fn white_suffix(s: Seq<char>) -> nat
    decreases s.len(),
{
    if s.len() > 0 && is_white(s.last()) {
        1 + white_suffix(s.drop_last())
    } else {
        0
    }
}

/// How many characters at the start of `s` are not white space.
pub open spec fn word_prefix(s: Seq<char>) -> nat
    decreases s.len(),
{
    if s.len() > 0 && !is_white(s[0]) {
        1 + word_prefix(s.skip(1))
    } else {
        0
    }
}

/// `s` without the white space at both ends.
pub open spec fn trimmed(s: Seq<char>) -> Seq<char> {
    let t = s.skip(white_prefix(s) as int);
    t.take(t.len() - white_suffix(t))
}

/// The words of `s`: its longest runs without white space, in order.
pub open spec fn word_seq(s: Seq<char>) -> Seq<Seq<char>>
    decreases s.len(),
{
    let t = s.skip(white_prefix(s) as int);
    let n = word_prefix(t) as int;
    if white_prefix(s) >= s.len() || !(0 < n <= t.len()) {
        seq![]
    } else {
        seq![t.take(n)] + word_seq(t.skip(n))
    }
}

/// `s` without the run of `c` at its start.
pub open spec fn without_leading(s: Seq<char>, c: char) -> Seq<char>
    decreases s.len(),
{
    if s.len() > 0 && s[0] == c {
        without_leading(s.skip(1), c)
    } else {
        s
    }
}

/// `s` without the run of `c` at its end.
pub open spec fn without_trailing(s: Seq<char>, c: char) -> Seq<char>
    decreases s.len(),
{
    if s.len() > 0 && s.last() == c {
        without_trailing(s.drop_last(), c)
    } else {
        s
    }
}

/// The parts, one after the other, with `sep` between two of them.
pub open spec fn joined(parts: Seq<Seq<char>>, sep: Seq<char>) -> Seq<char>
    decreases parts.len(),
{
    if parts.len() == 0 {
        seq![]
    } else if parts.len() == 1 {
        parts[0]
    } else {
        joined(parts.drop_last(), sep) + sep + parts.last()
    }
}

/// The character of a digit below ten.
pub open spec fn digit(d: nat) -> char {
    ('0' as u32 + d) as char
}

/// `n` in decimal, without leading zeros.
pub open spec fn decimal(n: nat) -> Seq<char>
    decreases n,
{
    if n < 10 {
        seq![digit(n)]
    } else {
        decimal(n / 10).push(digit(n % 10))
    }
}

/// The character of a lower-case hexadecimal digit below sixteen.
pub open spec fn hex_digit(d: int) -> char {
    if d < 10 {
        ('0' as u32 + d) as char
    } else {
        ('a' as u32 + (d - 10)) as char
    }
}

/// The bytes in hexadecimal, two lower-case digits for each.
pub open spec fn hex(bytes: Seq<u8>) -> Seq<char> {
    Seq::new(
        2 * bytes.len(),
        |i: int| {
            let b = bytes[i / 2] as int;
            hex_digit(if i % 2 == 0 { b / 16 } else { b % 16 })
        },
    )
}

/// `c` in lower case if it is an ASCII capital.
pub open spec fn ascii_lower_char(c: char) -> char {
    if 'A' <= c <= 'Z' {
        (c as u32 + 32) as char
    } else {
        c
    }
}

/// `s` with its ASCII capitals in lower case.
pub open spec fn ascii_lower(s: Seq<char>) -> Seq<char> {
    s.map_values(|c: char| ascii_lower_char(c))
}

/// `a` stands before `b` in the order of code points, the order in which
/// strings compare.
pub open spec fn text_before(a: Seq<char>, b: Seq<char>) -> bool
    decreases a.len(),
{
    if b.len() == 0 {
        false
    } else if a.len() == 0 {
        true
    } else if a[0] != b[0] {
        a[0] < b[0]
    } else {
        text_before(a.skip(1), b.skip(1))
    }
}


// ---- facts about the vocabulary -------------------------------------------

/// What `first_index` is, without the recursion.
pub proof fn lemma_first_index(s: Seq<char>, c: char)
    ensures
        first_index(s, c) <= s.len(),
        forall|j: int| 0 <= j < first_index(s, c) ==> s[j] != c,
        first_index(s, c) < s.len() ==> s[first_index(s, c) as int] == c,
    decreases s.len(),
{
    if s.len() == 0 || s[0] == c {
    } else {
        lemma_first_index(s.skip(1), c);
        let n = first_index(s.skip(1), c);
        assert forall|j: int| 0 <= j < 1 + n implies s[j] != c by {
            if j > 0 {
                assert(s.skip(1)[j - 1] == s[j]);
            }
        }
    }
}

/// The position that `first_index` names is the only one of its kind.
pub proof fn lemma_first_index_is(s: Seq<char>, c: char, i: int)
    requires
        0 <= i <= s.len(),
        forall|j: int| 0 <= j < i ==> s[j] != c,
        i < s.len() ==> s[i] == c,
    ensures
        first_index(s, c) == i,
{
    lemma_first_index(s, c);
    let n = first_index(s, c) as int;
    if n < i {
        assert(s[n] != c);
    } else if i < n {
        assert(s[i] != c);
    }
}

/// What `white_prefix` is, without the recursion.
pub proof fn lemma_white_prefix(s: Seq<char>)
    ensures
        white_prefix(s) <= s.len(),
        forall|j: int| 0 <= j < white_prefix(s) ==> is_white(s[j]),
        white_prefix(s) < s.len() ==> !is_white(s[white_prefix(s) as int]),
    decreases s.len(),
{
    if s.len() > 0 && is_white(s[0]) {
        lemma_white_prefix(s.skip(1));
        let n = white_prefix(s.skip(1));
        assert forall|j: int| 0 <= j < 1 + n implies is_white(s[j]) by {
            if j > 0 {
                assert(s.skip(1)[j - 1] == s[j]);
            }
        }
    }
}

/// What `white_suffix` is, without the recursion.
pub proof fn lemma_white_suffix(s: Seq<char>)
    ensures
        white_suffix(s) <= s.len(),
        forall|j: int| s.len() - white_suffix(s) <= j < s.len() ==> is_white(s[j]),
        white_suffix(s) < s.len() ==> !is_white(s[s.len() - white_suffix(s) - 1]),
    decreases s.len(),
{
    if s.len() > 0 && is_white(s.last()) {
        lemma_white_suffix(s.drop_last());
        assert forall|j: int| s.len() - white_suffix(s) <= j < s.len() implies is_white(s[j]) by {
            if j < s.len() - 1 {
                assert(s.drop_last()[j] == s[j]);
            }
        }
    }
}

/// What `word_prefix` is, without the recursion.
pub proof fn lemma_word_prefix(s: Seq<char>)
    ensures
        word_prefix(s) <= s.len(),
        forall|j: int| 0 <= j < word_prefix(s) ==> !is_white(s[j]),
        word_prefix(s) < s.len() ==> is_white(s[word_prefix(s) as int]),
    decreases s.len(),
{
    if s.len() > 0 && !is_white(s[0]) {
        lemma_word_prefix(s.skip(1));
        let n = word_prefix(s.skip(1));
        assert forall|j: int| 0 <= j < 1 + n implies !is_white(s[j]) by {
            if j > 0 {
                assert(s.skip(1)[j - 1] == s[j]);
            }
        }
    }
}

/// No text stands before itself.
pub proof fn lemma_before_irreflexive(a: Seq<char>)
    ensures
        !text_before(a, a),
    decreases a.len(),
{
    if a.len() > 0 {
        lemma_before_irreflexive(a.skip(1));
    }
}

/// Of two different texts one stands before the other.
pub proof fn lemma_before_total(a: Seq<char>, b: Seq<char>)
    requires
        a != b,
    ensures
        text_before(a, b) || text_before(b, a),
    decreases a.len(),
{
    if a.len() > 0 && b.len() > 0 && a[0] == b[0] {
        if a.skip(1) == b.skip(1) {
            assert(a =~= seq![a[0]] + a.skip(1));
            assert(b =~= seq![b[0]] + b.skip(1));
        }
        lemma_before_total(a.skip(1), b.skip(1));
    } else if a.len() == 0 && b.len() == 0 {
        assert(a =~= b);
    }
}

/// What stands before a text stands before every text after it.
pub proof fn lemma_before_transitive(a: Seq<char>, b: Seq<char>, c: Seq<char>)
    requires
        text_before(a, b),
        text_before(b, c),
    ensures
        text_before(a, c),
    decreases a.len(),
{
    if a.len() > 0 && a[0] == b[0] && b[0] == c[0] {
        lemma_before_transitive(a.skip(1), b.skip(1), c.skip(1));
    }
}

/// Taking the texts of a list commutes with adding to the list.
pub proof fn lemma_texts_push(v: Seq<String>, s: String)
    ensures
        texts(v.push(s)) == texts(v).push(s@),
{
    assert(texts(v.push(s)) =~= texts(v).push(s@));
}

/// A joined list grows by the separator and the new part.
pub proof fn lemma_joined_push(parts: Seq<Seq<char>>, sep: Seq<char>, part: Seq<char>)
    ensures
        parts.len() == 0 ==> joined(parts.push(part), sep) == part,
        parts.len() > 0 ==> joined(parts.push(part), sep) == joined(parts, sep) + sep + part,
{
    assert(parts.push(part).drop_last() =~= parts);
}

// ---- characters and strings -----------------------------------------------

/// The characters of `s`, in order.
pub fn chars_of(s: &str) -> (r: Vec<char>)
    ensures
        r@ == s@,
{
    let mut r: Vec<char> = Vec::new();
    for c in it: s.chars()
        invariant
            it.seq() == s@,
            r@ == it.seq().take(it.index()),
    {
        r.push(c);
        proof {
            assert(it.seq().take(it.index() + 1) =~= it.seq().take(it.index()).push(c));
        }
    }
    assert(s@.take(s@.len() as int) =~= s@);
    r
}

/// The string of the characters `from..to` of `cs`.
pub fn string_range(cs: &Vec<char>, from: usize, to: usize) -> (r: String)
    requires
        from <= to <= cs@.len(),
    ensures
        r@ == cs@.subrange(from as int, to as int),
{
    let mut r = String::new();
    let mut i: usize = from;
    while i < to
        invariant
            from <= i <= to <= cs@.len(),
            r@ == cs@.subrange(from as int, i as int),
        decreases to - i,
    {
        r.push(cs[i]);
        proof {
            assert(cs@.subrange(from as int, i + 1) =~= cs@.subrange(from as int, i as int).push(
                cs@[i as int],
            ));
        }
        i += 1;
    }
    r
}

/// Whether the text `p` stands in `s` at position `i`.
pub fn stands_at(s: &Vec<char>, p: &Vec<char>, i: usize) -> (r: bool)
    ensures
        r == occurs_at(s@, p@, i as int),
{
    if i > s.len() || p.len() > s.len() - i {
        return false;
    }
    let mut j: usize = 0;
    while j < p.len()
        invariant
            i + p@.len() <= s.len(),
            j <= p@.len(),
            forall|k: int| 0 <= k < j ==> s@[i + k] == p@[k],
        decreases p@.len() - j,
    {
        if s[i + j] != p[j] {
            proof {
                let t = s@.subrange(i as int, i + p@.len());
                assert(t[j as int] == s@[i + j]);
            }
            return false;
        }
        j += 1;
    }
    assert(s@.subrange(i as int, i + p@.len()) =~= p@);
    true
}

/// Whether two strings hold the same text.
pub fn same_text(a: &str, b: &str) -> (r: bool)
    ensures
        r == (a@ == b@),
{
    let x = chars_of(a);
    let y = chars_of(b);
    if x.len() != y.len() {
        return false;
    }
    let r = stands_at(&x, &y, 0);
    assert(x@.subrange(0, y@.len() as int) =~= x@);
    r
}

/// Whether two optional strings are both absent or hold the same text.
pub fn same_opt_text(a: Option<&str>, b: Option<&str>) -> (r: bool)
    ensures
        r == (opt_str_text(a) == opt_str_text(b)),
{
    match (a, b) {
        (Some(x), Some(y)) => same_text(x, y),
        (None, None) => true,
        _ => false,
    }
}

/// The borrowed text of an optional string.
pub fn borrowed(o: &Option<String>) -> (r: Option<&str>)
    ensures
        opt_str_text(r) == opt_text(*o),
{
    match o {
        Some(s) => Some(s.as_str()),
        None => None,
    }
}

/// A copy of an optional string.
pub fn copy_opt(o: &Option<String>) -> (r: Option<String>)
    ensures
        opt_text(r) == opt_text(*o),
{
    match o {
        Some(s) => Some(s.clone()),
        None => None,
    }
}

/// Whether `s` starts with `p`.
pub fn starts_with(s: &str, p: &str) -> (r: bool)
    ensures
        r == p@.is_prefix_of(s@),
{
    let r = stands_at(&chars_of(s), &chars_of(p), 0);
    r
}

/// Whether `s` ends in `p`.
pub fn ends_with(s: &str, p: &str) -> (r: bool)
    ensures
        r == p@.is_suffix_of(s@),
{
    let x = chars_of(s);
    let y = chars_of(p);
    if y.len() > x.len() {
        return false;
    }
    let r = stands_at(&x, &y, x.len() - y.len());
    r
}

/// Whether `p` stands somewhere in `s`.
pub fn contains_text(s: &str, p: &str) -> (r: bool)
    ensures
        r == has_text(s@, p@),
{
    let x = chars_of(s);
    let y = chars_of(p);
    if y.len() > x.len() {
        return false;
    }
    let last: usize = x.len() - y.len();
    let mut i: usize = 0;
    while i < last
        invariant
            x@ == s@,
            y@ == p@,
            last == x@.len() - y@.len(),
            i <= last,
            forall|k: int| 0 <= k < i ==> !occurs_at(s@, p@, k),
        decreases last - i,
    {
        if stands_at(&x, &y, i) {
            return true;
        }
        i += 1;
    }
    stands_at(&x, &y, last)
}

/// What follows `p` in `s`, if `s` starts with `p`.
pub fn strip_prefix(s: &str, p: &str) -> (r: Option<String>)
    ensures
        opt_text(r) == (if p@.is_prefix_of(s@) {
            Some(s@.skip(p@.len() as int))
        } else {
            None
        }),
{
    let x = chars_of(s);
    let y = chars_of(p);
    if stands_at(&x, &y, 0) {
        Some(string_range(&x, y.len(), x.len()))
    } else {
        None
    }
}

/// What precedes `p` in `s`, if `s` ends in `p`.
pub fn strip_suffix(s: &str, p: &str) -> (r: Option<String>)
    ensures
        opt_text(r) == (if p@.is_suffix_of(s@) {
            Some(s@.take(s@.len() - p@.len()))
        } else {
            None
        }),
{
    let x = chars_of(s);
    let y = chars_of(p);
    if y.len() <= x.len() && stands_at(&x, &y, x.len() - y.len()) {
        Some(string_range(&x, 0, x.len() - y.len()))
    } else {
        None
    }
}

// ---- pieces, lines, words -------------------------------------------------

/// The position of the first `c` at or after `from`, or the length of `cs`.
fn find_char(cs: &Vec<char>, from: usize, c: char) -> (r: usize)
    requires
        from <= cs@.len(),
    ensures
        from <= r <= cs@.len(),
        r == from + first_index(cs@.skip(from as int), c),
{
    let mut i: usize = from;
    while i < cs.len() && cs[i] != c
        invariant
            from <= i <= cs@.len(),
            forall|j: int| from <= j < i ==> cs@[j] != c,
        decreases cs@.len() - i,
    {
        i += 1;
    }
    proof {
        let t = cs@.skip(from as int);
        assert forall|j: int| 0 <= j < i - from implies t[j] != c by {
            assert(t[j] == cs@[from + j]);
        }
        lemma_first_index_is(t, c, i - from);
    }
    i
}

/// What follows the first `c` of `s`, if there is one.
pub open spec fn after_first(s: Seq<char>, c: char) -> Option<Seq<char>> {
    let i = first_index(s, c) as int;
    if i < s.len() {
        Some(s.skip(i + 1))
    } else {
        None
    }
}

/// What follows the first `c` of `s`, if there is one.
pub fn text_after(s: &str, c: char) -> (r: Option<String>)
    ensures
        opt_text(r) == after_first(s@, c),
{
    let cs = chars_of(s);
    let i = find_char(&cs, 0, c);
    assert(s@.skip(0) =~= s@);
    if i < cs.len() {
        let rest = string_range(&cs, i + 1, cs.len());
        assert(rest@ =~= s@.skip(i + 1));
        Some(rest)
    } else {
        None
    }
}

/// The pieces of `s` between the separators `c`.
pub fn split_on(s: &str, c: char) -> (r: Vec<String>)
    ensures
        texts(r@) == pieces(s@, c),
{
    let cs = chars_of(s);
    let mut out: Vec<String> = Vec::new();
    let mut from: usize = 0;
    assert(s@.skip(0) =~= s@);
    assert(texts(out@) + pieces(s@, c) =~= pieces(s@, c));
    loop
        invariant
            cs@ == s@,
            from <= cs@.len(),
            texts(out@) + pieces(s@.skip(from as int), c) == pieces(s@, c),
        decreases cs@.len() - from,
    {
        let i = find_char(&cs, from, c);
        let piece = string_range(&cs, from, i);
        let ghost rest = s@.skip(from as int);
        let ghost before = out@;
        assert(piece@ =~= rest.take(i - from));
        out.push(piece);
        proof {
            lemma_texts_push(before, piece);
        }
        if i >= cs.len() {
            assert(rest.take(i - from) =~= rest);
            assert(texts(out@) =~= texts(before) + seq![rest]);
            return out;
        }
        proof {
            assert(rest.skip(i - from + 1) =~= s@.skip(i + 1));
            assert(texts(out@) + pieces(s@.skip(i + 1), c) =~= texts(before) + pieces(rest, c));
        }
        from = i + 1;
    }
}

/// The lines of `s`.
pub fn lines_of(s: &str) -> (r: Vec<String>)
    ensures
        texts(r@) == line_seq(s@),
{
    let cs = chars_of(s);
    let mut out: Vec<String> = Vec::new();
    let mut from: usize = 0;
    assert(s@.skip(0) =~= s@);
    assert(texts(out@) + line_seq(s@) =~= line_seq(s@));
    while from < cs.len()
        invariant
            cs@ == s@,
            from <= cs@.len(),
            texts(out@) + line_seq(s@.skip(from as int)) == line_seq(s@),
        decreases cs@.len() - from,
    {
        let i = find_char(&cs, from, '\n');
        let ghost rest = s@.skip(from as int);
        let ghost before = out@;
        let mut end: usize = i;
        if i < cs.len() && i > from && cs[i - 1] == '\r' {
            end = i - 1;
        }
        let line = string_range(&cs, from, end);
        out.push(line);
        proof {
            lemma_texts_push(before, line);
            if i < cs@.len() {
                let t = rest.take(i - from);
                if i > from {
                    assert(t.last() == cs@[i - 1]);
                }
                assert(line@ =~= without_cr(t));
                assert(rest.skip(i - from + 1) =~= s@.skip(i + 1));
                assert(texts(out@) + line_seq(s@.skip(i + 1)) =~= texts(before) + line_seq(rest));
            } else {
                assert(line@ =~= rest);
                assert(line_seq(rest) =~= seq![rest]);
                assert(texts(out@) =~= line_seq(s@));
            }
        }
        if i >= cs.len() {
            return out;
        }
        from = i + 1;
    }
    assert(line_seq(s@.skip(from as int)) =~= seq![]);
    assert(texts(out@) =~= line_seq(s@));
    out
}

/// Whether `c` has the Unicode property `White_Space`.
pub fn is_white_char(c: char) -> (r: bool)
    ensures
        r == is_white(c),
{
    ('\u{9}' <= c && c <= '\u{d}') || c == '\u{20}' || c == '\u{85}' || c == '\u{a0}' || c
        == '\u{1680}' || ('\u{2000}' <= c && c <= '\u{200a}') || c == '\u{2028}' || c == '\u{2029}'
        || c == '\u{202f}' || c == '\u{205f}' || c == '\u{3000}'
}

/// The first position at or after `from` that holds no white space.
fn skip_white(cs: &Vec<char>, from: usize) -> (r: usize)
    requires
        from <= cs@.len(),
    ensures
        from <= r <= cs@.len(),
        r == from + white_prefix(cs@.skip(from as int)),
{
    let mut i: usize = from;
    while i < cs.len() && is_white_char(cs[i])
        invariant
            from <= i <= cs@.len(),
            forall|j: int| from <= j < i ==> is_white(cs@[j]),
        decreases cs@.len() - i,
    {
        i += 1;
    }
    proof {
        let t = cs@.skip(from as int);
        lemma_white_prefix(t);
        let n = white_prefix(t) as int;
        if n < i - from {
            assert(is_white(cs@[from + n]));
        } else if i - from < n {
            assert(is_white(t[i - from]));
        }
    }
    i
}

/// The first position at or after `from` that holds white space.
fn skip_word(cs: &Vec<char>, from: usize) -> (r: usize)
    requires
        from <= cs@.len(),
    ensures
        from <= r <= cs@.len(),
        r == from + word_prefix(cs@.skip(from as int)),
{
    let mut i: usize = from;
    while i < cs.len() && !is_white_char(cs[i])
        invariant
            from <= i <= cs@.len(),
            forall|j: int| from <= j < i ==> !is_white(cs@[j]),
        decreases cs@.len() - i,
    {
        i += 1;
    }
    proof {
        let t = cs@.skip(from as int);
        lemma_word_prefix(t);
        let n = word_prefix(t) as int;
        if n < i - from {
            assert(!is_white(cs@[from + n]));
        } else if i - from < n {
            assert(!is_white(t[i - from]));
        }
    }
    i
}

/// The words of `s`.
pub fn words_of(s: &str) -> (r: Vec<String>)
    ensures
        texts(r@) == word_seq(s@),
{
    let cs = chars_of(s);
    let mut out: Vec<String> = Vec::new();
    let mut from: usize = 0;
    assert(s@.skip(0) =~= s@);
    assert(texts(out@) + word_seq(s@) =~= word_seq(s@));
    loop
        invariant
            cs@ == s@,
            from <= cs@.len(),
            texts(out@) + word_seq(s@.skip(from as int)) == word_seq(s@),
        decreases cs@.len() - from,
    {
        let ghost rest = s@.skip(from as int);
        let start = skip_white(&cs, from);
        if start >= cs.len() {
            assert(word_seq(rest) =~= seq![]);
            assert(texts(out@) =~= word_seq(s@));
            return out;
        }
        let end = skip_word(&cs, start);
        let ghost t = rest.skip(white_prefix(rest) as int);
        proof {
            assert(t =~= s@.skip(start as int));
            lemma_white_prefix(rest);
            lemma_word_prefix(t);
        }
        let word = string_range(&cs, start, end);
        let ghost before = out@;
        out.push(word);
        proof {
            lemma_texts_push(before, word);
            assert(word@ =~= t.take(end - start));
            assert(t.skip(end - start) =~= s@.skip(end as int));
            assert(t[0] == rest[white_prefix(rest) as int]);
            assert(texts(out@) + word_seq(s@.skip(end as int)) =~= texts(before) + word_seq(rest));
        }
        from = end;
    }
}

/// `s` without the white space at both ends.
pub fn trim(s: &str) -> (r: String)
    ensures
        r@ == trimmed(s@),
{
    let cs = chars_of(s);
    let start = skip_white(&cs, 0);
    assert(s@.skip(0) =~= s@);
    let ghost t = s@.skip(start as int);
    let mut end: usize = cs.len();
    while end > start && is_white_char(cs[end - 1])
        invariant
            cs@ == s@,
            start <= end <= cs@.len(),
            forall|j: int| end <= j < cs@.len() ==> is_white(cs@[j]),
        decreases end - start,
    {
        end -= 1;
    }
    proof {
        lemma_white_suffix(t);
        let n = white_suffix(t) as int;
        if n < cs@.len() - end {
            assert(t[t.len() - n - 1] == cs@[cs@.len() - n - 1]);
        } else if cs@.len() - end < n {
            assert(t[end - start - 1] == cs@[end - 1]);
        }
    }
    let r = string_range(&cs, start, end);
    assert(r@ =~= trimmed(s@));
    r
}

/// `s` without the run of `c` at its start.
pub fn trim_leading(s: &str, c: char) -> (r: String)
    ensures
        r@ == without_leading(s@, c),
{
    let cs = chars_of(s);
    let mut i: usize = 0;
    assert(s@.skip(0) =~= s@);
    while i < cs.len() && cs[i] == c
        invariant
            cs@ == s@,
            i <= cs@.len(),
            without_leading(s@.skip(i as int), c) == without_leading(s@, c),
        decreases cs@.len() - i,
    {
        assert(s@.skip(i as int).skip(1) =~= s@.skip(i + 1));
        i += 1;
    }
    let r = string_range(&cs, i, cs.len());
    assert(r@ =~= s@.skip(i as int));
    r
}

/// `s` without the run of `c` at its end.
pub fn trim_trailing(s: &str, c: char) -> (r: String)
    ensures
        r@ == without_trailing(s@, c),
{
    let cs = chars_of(s);
    let mut i: usize = cs.len();
    assert(s@.take(s@.len() as int) =~= s@);
    while i > 0 && cs[i - 1] == c
        invariant
            cs@ == s@,
            i <= cs@.len(),
            without_trailing(s@.take(i as int), c) == without_trailing(s@, c),
        decreases i,
    {
        assert(s@.take(i as int).drop_last() =~= s@.take(i - 1));
        i -= 1;
    }
    let r = string_range(&cs, 0, i);
    assert(r@ =~= s@.take(i as int));
    r
}

/// Two texts, one after the other.
pub fn cat2(a: &str, b: &str) -> (r: String)
    ensures
        r@ == a@ + b@,
{
    let mut out = a.to_string();
    out.append(b);
    out
}

/// Three texts, one after the other.
pub fn cat3(a: &str, b: &str, c: &str) -> (r: String)
    ensures
        r@ == a@ + b@ + c@,
{
    let mut out = cat2(a, b);
    out.append(c);
    out
}

/// Four texts, one after the other.
pub fn cat4(a: &str, b: &str, c: &str, d: &str) -> (r: String)
    ensures
        r@ == a@ + b@ + c@ + d@,
{
    let mut out = cat3(a, b, c);
    out.append(d);
    out
}

/// Five texts, one after the other.
pub fn cat5(a: &str, b: &str, c: &str, d: &str, e: &str) -> (r: String)
    ensures
        r@ == a@ + b@ + c@ + d@ + e@,
{
    let mut out = cat4(a, b, c, d);
    out.append(e);
    out
}

/// The parts, one after the other, with `sep` between two of them.
pub fn join(parts: &Vec<String>, sep: &str) -> (r: String)
    ensures
        r@ == joined(texts(parts@), sep@),
{
    let mut out = String::new();
    let mut i: usize = 0;
    while i < parts.len()
        invariant
            i <= parts@.len(),
            out@ == joined(texts(parts@.take(i as int)), sep@),
        decreases parts@.len() - i,
    {
        proof {
            let before = parts@.take(i as int);
            assert(parts@.take(i + 1) =~= before.push(parts@[i as int]));
            lemma_texts_push(before, parts@[i as int]);
            lemma_joined_push(texts(before), sep@, parts@[i as int]@);
        }
        if i > 0 {
            out.append(sep);
        }
        out.append(parts[i].as_str());
        proof {
            if i == 0 {
                assert(out@ =~= parts@[0]@);
            }
        }
        i += 1;
    }
    assert(parts@.take(parts@.len() as int) =~= parts@);
    out
}

// ---- numbers and case -----------------------------------------------------

/// The decimal digit of a number below ten.
fn digit_char(d: u64) -> (r: char)
    requires
        d < 10,
    ensures
        r == digit(d as nat),
{
    match d {
        0 => '0',
        1 => '1',
        2 => '2',
        3 => '3',
        4 => '4',
        5 => '5',
        6 => '6',
        7 => '7',
        8 => '8',
        _ => '9',
    }
}

/// `n` in decimal.
pub fn decimal_text(n: u64) -> (r: String)
    ensures
        r@ == decimal(n as nat),
    decreases n,
{
    if n < 10 {
        let mut out = String::new();
        out.push(digit_char(n));
        assert(out@ =~= decimal(n as nat));
        out
    } else {
        let mut out = decimal_text(n / 10);
        out.push(digit_char(n % 10));
        out
    }
}

/// The hexadecimal digit of a number below sixteen.
fn hex_char(d: u8) -> (r: char)
    requires
        d < 16,
    ensures
        r == hex_digit(d as int),
{
    match d {
        0 => '0',
        1 => '1',
        2 => '2',
        3 => '3',
        4 => '4',
        5 => '5',
        6 => '6',
        7 => '7',
        8 => '8',
        9 => '9',
        10 => 'a',
        11 => 'b',
        12 => 'c',
        13 => 'd',
        14 => 'e',
        _ => 'f',
    }
}

/// The bytes in hexadecimal.
pub fn hex_text(bytes: &[u8]) -> (r: String)
    ensures
        r@ == hex(bytes@),
{
    let mut out = String::new();
    let mut i: usize = 0;
    while i < bytes.len()
        invariant
            i <= bytes@.len(),
            out@ =~= hex(bytes@.take(i as int)),
        decreases bytes@.len() - i,
    {
        let b = bytes[i];
        let ghost before = out@;
        out.push(hex_char(b / 16));
        out.push(hex_char(b % 16));
        proof {
            let t = bytes@.take(i + 1);
            assert forall|j: int| 0 <= j < out@.len() implies out@[j] == hex(t)[j] by {
                if j < before.len() {
                    assert(out@[j] == before[j]);
                    assert(t[j / 2] == bytes@.take(i as int)[j / 2]);
                } else {
                    assert(j / 2 == i);
                }
            }
        }
        i += 1;
    }
    assert(bytes@.take(bytes@.len() as int) =~= bytes@);
    out
}

/// `c` in lower case if it is an ASCII capital.
fn lower_char(c: char) -> (r: char)
    ensures
        r == ascii_lower_char(c),
{
    match c {
        'A' => 'a',
        'B' => 'b',
        'C' => 'c',
        'D' => 'd',
        'E' => 'e',
        'F' => 'f',
        'G' => 'g',
        'H' => 'h',
        'I' => 'i',
        'J' => 'j',
        'K' => 'k',
        'L' => 'l',
        'M' => 'm',
        'N' => 'n',
        'O' => 'o',
        'P' => 'p',
        'Q' => 'q',
        'R' => 'r',
        'S' => 's',
        'T' => 't',
        'U' => 'u',
        'V' => 'v',
        'W' => 'w',
        'X' => 'x',
        'Y' => 'y',
        'Z' => 'z',
        _ => c,
    }
}

/// `s` with its ASCII capitals in lower case.
pub fn to_ascii_lower(s: &str) -> (r: String)
    ensures
        r@ == ascii_lower(s@),
{
    let cs = chars_of(s);
    let mut out = String::new();
    let mut i: usize = 0;
    while i < cs.len()
        invariant
            cs@ == s@,
            i <= cs@.len(),
            out@ =~= ascii_lower(s@.take(i as int)),
        decreases cs@.len() - i,
    {
        out.push(lower_char(cs[i]));
        i += 1;
    }
    assert(s@.take(s@.len() as int) =~= s@);
    out
}

/// Whether `a` stands before `b` in the order of code points.
pub fn is_before(a: &str, b: &str) -> (r: bool)
    ensures
        r == text_before(a@, b@),
{
    let x = chars_of(a);
    let y = chars_of(b);
    let mut i: usize = 0;
    assert(a@.skip(0) =~= a@);
    assert(b@.skip(0) =~= b@);
    while i < x.len() && i < y.len()
        invariant
            x@ == a@,
            y@ == b@,
            i <= x@.len(),
            i <= y@.len(),
            text_before(a@.skip(i as int), b@.skip(i as int)) == text_before(a@, b@),
        decreases x@.len() - i,
    {
        if x[i] != y[i] {
            return x[i] < y[i];
        }
        assert(a@.skip(i as int).skip(1) =~= a@.skip(i + 1));
        assert(b@.skip(i as int).skip(1) =~= b@.skip(i + 1));
        i += 1;
    }
    i < y.len()
}

}
