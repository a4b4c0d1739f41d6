//! What holds of the operations on text: how a text is taken apart and put
//! together again, and how numbers and bytes read back.
use vstd::prelude::*;

use crate::text::{
    after_first, ascii_lower, decimal, digit, first_index, has_text, hex, hex_digit, is_white,
    joined, lemma_first_index, lemma_first_index_is, lemma_white_prefix, lemma_white_suffix,
    lemma_word_prefix, line_seq, occurs_at, pieces, text_before, trimmed, white_prefix,
    white_suffix, without_cr, without_leading, without_trailing, word_prefix, word_seq,
};

verus! {

// ---- joining and splitting ------------------------------------------------

/// Joining nothing gives nothing, joining one part gives that part, and where two
/// lists are joined as one, one separator stands between what the two give.
pub proof fn law_joined(a: Seq<Seq<char>>, b: Seq<Seq<char>>, part: Seq<char>, sep: Seq<char>)
    requires
        a.len() > 0,
        b.len() > 0,
    ensures
        joined(seq![], sep) == Seq::<char>::empty(),
        joined(seq![part], sep) == part,
        joined(a + b, sep) == joined(a, sep) + sep + joined(b, sep),
    decreases b.len(),
{
    let ab = a + b;
    if b.len() == 1 {
        assert(ab.drop_last() =~= a);
        assert(ab.last() == b[0]);
    } else {
        assert(ab.drop_last() =~= a + b.drop_last());
        law_joined(a, b.drop_last(), part, sep);
        assert(joined(ab, sep) =~= joined(a, sep) + sep + joined(b, sep));
    }
}

/// Between two separators stands one piece after the other: the pieces of two
/// texts with a separator between them are the pieces of the first, then those of
/// the second; and a text without the separator is one piece.
pub proof fn law_pieces(a: Seq<char>, b: Seq<char>, c: char)
    ensures
        pieces(a + seq![c] + b, c) == pieces(a, c) + pieces(b, c),
        !a.contains(c) ==> pieces(a, c) == seq![a],
    decreases a.len(),
{
    let s = a + seq![c] + b;
    let i = first_index(a, c) as int;
    lemma_first_index(a, c);
    assert forall|j: int| 0 <= j < i implies s[j] != c by {
        assert(s[j] == a[j]);
    }
    if i < a.len() {
        assert(a[i] == c);
        assert(a.contains(c));
        assert(s[i] == c);
        lemma_first_index_is(s, c, i);
        law_pieces(a.skip(i + 1), b, c);
        assert(s.take(i) =~= a.take(i));
        assert(s.skip(i + 1) =~= a.skip(i + 1) + seq![c] + b);
        assert(pieces(s, c) =~= pieces(a, c) + pieces(b, c));
    } else {
        assert(s[i] == c);
        lemma_first_index_is(s, c, i);
        assert(s.take(i) =~= a);
        assert(s.skip(i + 1) =~= b);
        assert(pieces(s, c) =~= pieces(a, c) + pieces(b, c));
    }
}

/// No piece holds the separator, and the pieces joined by it give the text back.
pub proof fn law_pieces_join_back(s: Seq<char>, c: char)
    ensures
        pieces(s, c).len() > 0,
        forall|k: int| 0 <= k < pieces(s, c).len() ==> !(#[trigger] pieces(s, c)[k]).contains(c),
        joined(pieces(s, c), seq![c]) == s,
    decreases s.len(),
{
    let i = first_index(s, c) as int;
    lemma_first_index(s, c);
    if i < s.len() {
        let rest = s.skip(i + 1);
        law_pieces_join_back(rest, c);
        let first = seq![s.take(i)];
        law_joined(first, pieces(rest, c), s, seq![c]);
        assert(joined(first, seq![c]) == s.take(i));
        assert(s.take(i) + seq![c] + rest =~= s);
        assert forall|k: int| 0 <= k < pieces(s, c).len() implies !(#[trigger] pieces(
            s,
            c,
        )[k]).contains(c) by {
            if k > 0 {
                assert(pieces(s, c)[k] == pieces(rest, c)[k - 1]);
            }
        }
    }
}

/// What follows the first `c` is what stands behind a text without it; where there
/// is none, nothing does.
pub proof fn law_after_first(a: Seq<char>, b: Seq<char>, c: char)
    requires
        !a.contains(c),
    ensures
        after_first(a + seq![c] + b, c) == Some(b),
        after_first(a, c) is None,
{
    let s = a + seq![c] + b;
    assert forall|j: int| 0 <= j < a.len() implies s[j] != c && a[j] != c by {
        assert(a.contains(a[j]));
        assert(s[j] == a[j]);
    }
    lemma_first_index_is(s, c, a.len() as int);
    lemma_first_index_is(a, c, a.len() as int);
    assert(s.skip(a.len() as int + 1) =~= b);
}

/// A text stands in another exactly where that is the text with something before
/// and something behind it.
pub proof fn law_has_text(a: Seq<char>, p: Seq<char>, b: Seq<char>, s: Seq<char>)
    ensures
        has_text(a + p + b, p),
        has_text(s, p) ==> exists|x: Seq<char>, y: Seq<char>| s == #[trigger] (x + p + y),
{
    let t = a + p + b;
    assert(t.subrange(a.len() as int, a.len() as int + p.len()) =~= p);
    assert(occurs_at(t, p, a.len() as int));
    if has_text(s, p) {
        let i = choose|i: int| occurs_at(s, p, i);
        let x = s.take(i);
        let y = s.skip(i + p.len());
        assert(s =~= x + s.subrange(i, i + p.len()) + y);
        assert(s == x + p + y);
    }
}

// ---- lines ----------------------------------------------------------------

/// A line ends at its line feed, and a carriage return before that is no part of
/// it; what follows is read in the same way. A text without a line feed is one
/// line, and the empty text has none.
pub proof fn law_lines(line: Seq<char>, rest: Seq<char>)
    requires
        !line.contains('\n'),
    ensures
        line_seq(line + seq!['\r', '\n'] + rest) == seq![line] + line_seq(rest),
        line.len() == 0 || line.last() != '\r' ==> line_seq(line + seq!['\n'] + rest) == seq![line]
            + line_seq(rest),
        line.len() > 0 ==> line_seq(line) == seq![line],
        line_seq(seq![]) == Seq::<Seq<char>>::empty(),
{
    assert forall|j: int| 0 <= j < line.len() implies line[j] != '\n' by {
        assert(line.contains(line[j]));
    }
    let s = line + seq!['\r', '\n'] + rest;
    let n = line.len() + 1;
    assert forall|j: int| 0 <= j < n implies s[j] != '\n' by {
        if j < line.len() {
            assert(s[j] == line[j]);
        }
    }
    lemma_first_index_is(s, '\n', n as int);
    assert(s.take(n as int) =~= line.push('\r'));
    assert(without_cr(s.take(n as int)) =~= line);
    assert(s.skip(n as int + 1) =~= rest);
    let t = line + seq!['\n'] + rest;
    assert forall|j: int| 0 <= j < line.len() implies t[j] != '\n' by {
        assert(t[j] == line[j]);
    }
    lemma_first_index_is(t, '\n', line.len() as int);
    assert(t.take(line.len() as int) =~= line);
    assert(t.skip(line.len() as int + 1) =~= rest);
    lemma_first_index_is(line, '\n', line.len() as int);
}

// ---- white space ----------------------------------------------------------

/// Among the ASCII characters white space is the blank and the five from the
/// tabulator to the carriage return.
pub proof fn law_ascii_white_space(c: char)
    requires
        (c as int) < 0x80,
    ensures
        is_white(c) <==> c == ' ' || c == '\t' || c == '\n' || c == '\r' || c as int == 11
            || c as int == 12,
{
}

/// Trimming takes white space off both ends, all of it, and nothing else.
pub proof fn law_trimmed(s: Seq<char>) -> (ends: (Seq<char>, Seq<char>))
    ensures
        s == ends.0 + trimmed(s) + ends.1,
        forall|i: int| 0 <= i < ends.0.len() ==> is_white(#[trigger] ends.0[i]),
        forall|i: int| 0 <= i < ends.1.len() ==> is_white(#[trigger] ends.1[i]),
        trimmed(s).len() > 0 ==> !is_white(trimmed(s)[0]) && !is_white(trimmed(s).last()),
{
    let n = white_prefix(s) as int;
    lemma_white_prefix(s);
    let t = s.skip(n);
    let m = white_suffix(t) as int;
    lemma_white_suffix(t);
    let ends = (s.take(n), t.skip(t.len() - m));
    assert(s =~= ends.0 + trimmed(s) + ends.1);
    assert forall|i: int| 0 <= i < ends.1.len() implies is_white(#[trigger] ends.1[i]) by {
        assert(ends.1[i] == t[t.len() - m + i]);
    }
    if trimmed(s).len() > 0 {
        assert(trimmed(s)[0] == s[n]);
    }
    ends
}

/// White space before a word is passed over; a word ends at the white space behind
/// it, or at the end; and what follows is read in the same way.
pub proof fn law_words(word: Seq<char>, c: char, rest: Seq<char>)
    requires
        word.len() > 0,
        forall|i: int| 0 <= i < word.len() ==> !is_white(#[trigger] word[i]),
        is_white(c),
    ensures
        word_seq(seq![]) == Seq::<Seq<char>>::empty(),
        word_seq(seq![c] + rest) == word_seq(rest),
        word_seq(word) == seq![word],
        word_seq(word + seq![c] + rest) == seq![word] + word_seq(rest),
{
    let b = seq![c] + rest;
    assert(b.skip(1) =~= rest);
    assert(white_prefix(b) == 1 + white_prefix(rest));
    lemma_white_prefix(rest);
    assert(b.skip(1 + white_prefix(rest) as int) =~= rest.skip(white_prefix(rest) as int));
    assert(word_seq(b) == word_seq(rest));
    assert(white_prefix(word) == 0);
    assert(word.skip(0) =~= word);
    lemma_word_is_all(word, word.len() as int);
    assert(word.take(word.len() as int) =~= word);
    assert(word_seq(word.skip(word.len() as int)) == Seq::<Seq<char>>::empty());
    assert(word_seq(word) =~= seq![word]);
    let s = word + seq![c] + rest;
    assert(s[0] == word[0]);
    assert(white_prefix(s) == 0);
    assert(s.skip(0) =~= s);
    assert forall|i: int| 0 <= i < word.len() implies !is_white(#[trigger] s[i]) by {
        assert(s[i] == word[i]);
    }
    lemma_word_is_all(s, word.len() as int);
    assert(s.take(word.len() as int) =~= word);
    assert(s.skip(word.len() as int) =~= b);
    assert(word_seq(s) == seq![word] + word_seq(b));
}

/// A word goes as far as there is no white space.
proof fn lemma_word_is_all(s: Seq<char>, n: int)
    requires
        0 <= n <= s.len(),
        forall|i: int| 0 <= i < n ==> !is_white(#[trigger] s[i]),
        n < s.len() ==> is_white(s[n]),
    ensures
        word_prefix(s) == n,
{
    lemma_word_prefix(s);
    let k = word_prefix(s) as int;
    if k < n {
        assert(!is_white(s[k]));
    } else if n < k {
        assert(!is_white(s[n]));
    }
}

/// Only the run of `c` at the start goes, and all of it.
pub proof fn law_without_leading(s: Seq<char>, c: char) -> (n: nat)
    ensures
        n <= s.len(),
        without_leading(s, c) == s.skip(n as int),
        forall|i: int| 0 <= i < n ==> #[trigger] s[i] == c,
        n < s.len() ==> s[n as int] != c,
    decreases s.len(),
{
    if s.len() > 0 && s[0] == c {
        let t = s.skip(1);
        let m = law_without_leading(t, c);
        assert(t.skip(m as int) =~= s.skip(m as int + 1));
        assert forall|i: int| 0 <= i < m + 1 implies #[trigger] s[i] == c by {
            if i > 0 {
                assert(t[i - 1] == s[i]);
            }
        }
        m + 1
    } else {
        assert(s.skip(0) =~= s);
        0
    }
}

/// Only the run of `c` at the end goes, and all of it.
pub proof fn law_without_trailing(s: Seq<char>, c: char) -> (n: nat)
    ensures
        n <= s.len(),
        without_trailing(s, c) == s.take(n as int),
        forall|i: int| n <= i < s.len() ==> #[trigger] s[i] == c,
        n > 0 ==> s[n - 1] != c,
    decreases s.len(),
{
    if s.len() > 0 && s.last() == c {
        let t = s.drop_last();
        let m = law_without_trailing(t, c);
        assert(t.take(m as int) =~= s.take(m as int));
        assert forall|i: int| m <= i < s.len() implies #[trigger] s[i] == c by {
            if i < t.len() {
                assert(t[i] == s[i]);
            }
        }
        m
    } else {
        assert(s.take(s.len() as int) =~= s);
        s.len()
    }
}

// ---- numbers and bytes ----------------------------------------------------

/// The number that decimal digits stand for.
pub open spec fn value_of(s: Seq<char>) -> int
    decreases s.len(),
{
    if s.len() == 0 {
        0
    } else {
        10 * value_of(s.drop_last()) + (s.last() as int - '0' as int)
    }
}

/// A number that is written in decimal reads back as itself. It is written in
/// digits alone, and without a zero in front.
pub proof fn law_decimal_reads_back(n: nat)
    ensures
        value_of(decimal(n)) == n,
        decimal(n).len() > 0,
        forall|i: int| 0 <= i < decimal(n).len() ==> '0' <= #[trigger] decimal(n)[i] <= '9',
        decimal(n).len() > 1 ==> decimal(n)[0] != '0',
    decreases n,
{
    reveal_with_fuel(value_of, 2);
    if n < 10 {
        assert(decimal(n).drop_last() =~= seq![]);
        assert(decimal(n)[0] == digit(n));
    } else {
        law_decimal_reads_back(n / 10);
        let front = decimal(n / 10);
        assert(decimal(n).drop_last() =~= front);
        assert(decimal(n).last() == digit(n % 10));
        assert forall|i: int| 0 <= i < decimal(n).len() implies '0' <= #[trigger] decimal(n)[i]
            <= '9' by {
            if i < front.len() {
                assert(decimal(n)[i] == front[i]);
            }
        }
        assert(decimal(n)[0] == front[0]);
        if front.len() == 1 {
            assert(front.drop_last() =~= seq![]);
            assert(value_of(front) == front[0] as int - '0' as int);
        }
    }
}

/// The number that a lower-case hexadecimal digit stands for.
pub open spec fn hex_value(c: char) -> int {
    if '0' <= c <= '9' {
        c as int - '0' as int
    } else {
        c as int - 'a' as int + 10
    }
}

/// Every byte is written in two lower-case hexadecimal digits, in order, and reads
/// back as itself.
pub proof fn law_hex_reads_back(bytes: Seq<u8>, k: int)
    requires
        0 <= k < bytes.len(),
    ensures
        hex(bytes).len() == 2 * bytes.len(),
        16 * hex_value(hex(bytes)[2 * k]) + hex_value(hex(bytes)[2 * k + 1]) == bytes[k],
        forall|i: int| #![trigger hex(bytes)[i]]
            0 <= i < hex(bytes).len() ==> '0' <= hex(bytes)[i] <= '9' || 'a' <= hex(bytes)[i]
                <= 'f',
{
    assert((2 * k) / 2 == k && (2 * k) % 2 == 0);
    assert((2 * k + 1) / 2 == k && (2 * k + 1) % 2 == 1);
    assert(hex(bytes)[2 * k] == hex_digit(bytes[k] as int / 16));
    assert(hex(bytes)[2 * k + 1] == hex_digit(bytes[k] as int % 16));
    assert forall|i: int| #![trigger hex(bytes)[i]] 0 <= i < hex(bytes).len() implies '0' <= hex(
        bytes,
    )[i] <= '9' || 'a' <= hex(bytes)[i] <= 'f' by {
        let b = bytes[i / 2] as int;
        assert(hex(bytes)[i] == hex_digit(if i % 2 == 0 { b / 16 } else { b % 16 }));
    }
}

/// Lower case leaves everything but the ASCII capitals alone, and turns each of
/// those into the small letter at its place in the alphabet.
pub proof fn law_ascii_lower(s: Seq<char>, i: int)
    requires
        0 <= i < s.len(),
    ensures
        ascii_lower(s).len() == s.len(),
        'A' <= s[i] <= 'Z' ==> ascii_lower(s)[i] as int - 'a' as int == s[i] as int - 'A' as int,
        !('A' <= s[i] <= 'Z') ==> ascii_lower(s)[i] == s[i],
{
}

// ---- order ----------------------------------------------------------------

/// A text stands before another exactly where the two agree up to some place, and
/// there the first ends or has the lower code point.
pub proof fn law_text_before(a: Seq<char>, b: Seq<char>, k: int)
    requires
        0 <= k <= a.len(),
        k <= b.len(),
        forall|i: int| 0 <= i < k ==> #[trigger] a[i] == b[i],
        k < a.len() && k < b.len() ==> a[k] != b[k],
    ensures
        text_before(a, b) <==> k < b.len() && (k == a.len() || (a[k] as int) < b[k] as int),
    decreases k,
{
    if k > 0 {
        assert(a[0] == b[0]);
        let x = a.skip(1);
        let y = b.skip(1);
        assert forall|i: int| 0 <= i < k - 1 implies #[trigger] x[i] == y[i] by {
            assert(a[i + 1] == b[i + 1]);
        }
        law_text_before(x, y, k - 1);
    }
}

}
