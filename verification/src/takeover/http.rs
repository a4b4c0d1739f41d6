//! The little HTTP that the takeover daemon speaks: one request, one response,
//! then the connection closes.
use vstd::prelude::*;
use vstd::string::StringExecFns;
use vstd::utf8::{decode_utf8, encode_utf8, valid_utf8};

use crate::outside::{from_utf8_lossy, lossy};
use crate::takeover::{is_lower_hex, is_token};
use crate::text::{
    ascii_lower, cat2, cat3, chars_of, decimal, decimal_text, ends_with, first_index, is_white,
    lemma_first_index_is, line_seq, lines_of, opt_text, pieces, split_on, starts_with,
    string_range, strip_prefix, texts, to_ascii_lower, trim, trimmed, white_prefix, white_suffix,
    without_cr, word_seq, words_of,
};

verus! {

// ---- reading a request ----------------------------------------------------

/// How many bytes of a request are read before it is refused.
pub const MAX_HEADER: usize = 16384;

/// The end of the headers, CR LF CR LF, stands in `b` at `i`.
pub open spec fn ends_at(b: Seq<u8>, i: int) -> bool {
    &&& 0 <= i
    &&& i + 4 <= b.len()
    &&& b[i] == 13
    &&& b[i + 1] == 10
    &&& b[i + 2] == 13
    &&& b[i + 3] == 10
}

/// The end of the headers stands somewhere in `b`.
pub open spec fn headers_end(b: Seq<u8>) -> bool {
    exists|i: int| ends_at(b, i)
}

/// How far the reading of a request has come.
#[derive(Debug, Clone, Copy, PartialEq, Eq, Structural)]
pub enum Reading {
    /// The end of the headers has not come yet.
    More,
    /// The headers are complete.
    Complete,
    /// The client stopped early, or sent too much without an end.
    Refused,
}

/// The bytes of a request, as they come in.
pub struct RequestBuffer {
    bytes: Vec<u8>,
    reading: Reading,
}

impl View for RequestBuffer {
    type V = Seq<u8>;

    closed spec fn view(&self) -> Seq<u8> {
        self.bytes@
    }
}

impl RequestBuffer {
    /// How far the reading has come.
    pub closed spec fn progress(&self) -> Reading {
        self.reading
    }

    /// More is read only while the headers are open and short enough; they are
    /// complete only where their end has come.
    pub open spec fn wf(&self) -> bool {
        &&& self.progress() == Reading::More ==> !headers_end(self@) && self@.len() < MAX_HEADER
        &&& self.progress() == Reading::Complete ==> headers_end(self@)
        &&& self.progress() == Reading::Refused ==> !headers_end(self@)
    }

    /// A request of which nothing has come yet.
    pub fn new() -> (r: RequestBuffer)
        ensures
            r.wf(),
            r@ == Seq::<u8>::empty(),
            r.progress() == Reading::More,
    {
        RequestBuffer { bytes: Vec::new(), reading: Reading::More }
    }

    /// How far the reading has come.
    pub fn reading(&self) -> (r: Reading)
        ensures
            r == self.progress(),
    {
        self.reading
    }

    /// The bytes that have come so far.
    pub fn bytes(&self) -> (r: &[u8])
        ensures
            r@ == self@,
    {
        self.bytes.as_slice()
    }

    /// Takes what one read brought; nothing means that the client closed. Only
    /// the new bytes are searched for the end of the headers, and the three
    /// before them, in case it came in two parts.
    pub fn feed(&mut self, chunk: &[u8])
        requires
            old(self).wf(),
            old(self).progress() == Reading::More,
            old(self)@.len() + chunk@.len() <= usize::MAX,
        ensures
            final(self).wf(),
            final(self)@ == old(self)@ + chunk@,
            final(self).progress() == (if chunk@.len() == 0 {
                Reading::Refused
            } else if headers_end(final(self)@) {
                Reading::Complete
            } else if final(self)@.len() < MAX_HEADER {
                Reading::More
            } else {
                Reading::Refused
            }),
    {
        if chunk.len() == 0 {
            self.reading = Reading::Refused;
            assert(self@ =~= old(self)@ + chunk@);
            return;
        }
        let had: usize = self.bytes.len();
        let from: usize = if had < 3 {
            0
        } else {
            had - 3
        };
        let mut k: usize = 0;
        while k < chunk.len()
            invariant
                k <= chunk@.len(),
                self.bytes@ == old(self)@ + chunk@.take(k as int),
                self.reading == old(self).progress(),
            decreases chunk@.len() - k,
        {
            self.bytes.push(chunk[k]);
            assert(self.bytes@ =~= old(self)@ + chunk@.take(k + 1));
            k += 1;
        }
        assert(chunk@.take(chunk@.len() as int) =~= chunk@);
        let ghost all = self.bytes@;
        let found = ends_from(&self.bytes, from);
        proof {
            if headers_end(all) {
                let i = choose|i: int| ends_at(all, i);
                if i < from {
                    assert(ends_at(old(self)@, i));
                }
            }
        }
        if found {
            self.reading = Reading::Complete;
        } else if self.bytes.len() < MAX_HEADER {
            self.reading = Reading::More;
        } else {
            self.reading = Reading::Refused;
        }
    }
}

/// Whether the end of the headers stands in `b` at or after `from`.
fn ends_from(b: &Vec<u8>, from: usize) -> (r: bool)
    ensures
        r == exists|i: int| from <= i && ends_at(b@, i),
{
    let mut i: usize = from;
    while i < b.len() && b.len() - i >= 4
        invariant
            from <= i,
            forall|j: int| from <= j < i ==> !ends_at(b@, j),
        decreases b@.len() - i,
    {
        if b[i] == 13 && b[i + 1] == 10 && b[i + 2] == 13 && b[i + 3] == 10 {
            assert(ends_at(b@, i as int));
            return true;
        }
        i += 1;
    }
    false
}

// ---- the head of a request ------------------------------------------------

/// The first of the texts, or `other` where there is none.
pub open spec fn first_or(s: Seq<Seq<char>>, other: Seq<char>) -> Seq<char> {
    if s.len() > 0 {
        s[0]
    } else {
        other
    }
}

/// The request line: the first line, and nothing of the headers after it.
pub open spec fn request_line(head: Seq<char>) -> Seq<char> {
    first_or(line_seq(head), seq![])
}

/// The method of a request; empty where the request line has no word.
pub open spec fn method_of(head: Seq<char>) -> Seq<char> {
    first_or(word_seq(request_line(head)), seq![])
}

/// The path of a request; `/` where the request line has no second word.
pub open spec fn path_of(head: Seq<char>) -> Seq<char> {
    let words = word_seq(request_line(head));
    if words.len() > 1 {
        words[1]
    } else {
        "/"@
    }
}

/// A line is a cookie header, however its name is capitalised.
pub open spec fn is_cookie_line(line: Seq<char>) -> bool {
    "cookie:"@.is_prefix_of(ascii_lower(line))
}

/// The first cookie header among the lines.
pub open spec fn cookie_line(lines: Seq<Seq<char>>) -> Option<Seq<char>>
    decreases lines.len(),
{
    if lines.len() == 0 {
        None
    } else if is_cookie_line(lines[0]) {
        Some(lines[0])
    } else {
        cookie_line(lines.skip(1))
    }
}

/// What follows the first colon of a line.
pub open spec fn after_colon(line: Seq<char>) -> Seq<char> {
    line.skip(first_index(line, ':') as int + 1)
}

/// The value of the first pair, of a cookie header, that starts with `prefix`.
pub open spec fn pair_value(pairs: Seq<Seq<char>>, prefix: Seq<char>) -> Option<Seq<char>>
    decreases pairs.len(),
{
    if pairs.len() == 0 {
        None
    } else if prefix.is_prefix_of(trimmed(pairs[0])) {
        Some(trimmed(pairs[0]).skip(prefix.len() as int))
    } else {
        pair_value(pairs.skip(1), prefix)
    }
}

/// The value of the cookie `name` in a request: that of its first pair in the
/// first cookie header.
pub open spec fn cookie_value(head: Seq<char>, name: Seq<char>) -> Option<Seq<char>> {
    match cookie_line(line_seq(head)) {
        Some(line) => pair_value(pieces(after_colon(line), ';'), name + "="@),
        None => None,
    }
}

/// A line that is a cookie header has a colon.
proof fn lemma_cookie_line_has_colon(line: Seq<char>)
    requires
        is_cookie_line(line),
    ensures
        line.len() >= 7,
        line[6] == ':',
{
    reveal_strlit("cookie:");
    let low = ascii_lower(line);
    assert(low.subrange(0, 7)[6] == ':');
    assert(low[6] == ':');
}

/// The value of the cookie `name` in the head of a request.
pub fn extract_cookie(head: &str, name: &str) -> (r: Option<String>)
    ensures
        opt_text(r) == cookie_value(head@, name@),
{
    let lines = lines_of(head);
    let mut i: usize = 0;
    let ghost all = texts(lines@);
    assert(all.skip(0) =~= all);
    while i < lines.len()
        invariant
            i <= lines@.len(),
            all == texts(lines@),
            all == line_seq(head@),
            cookie_line(all.skip(i as int)) == cookie_line(all),
        decreases lines@.len() - i,
    {
        if starts_with(to_ascii_lower(lines[i].as_str()).as_str(), "cookie:") {
            let ghost line = lines@[i as int]@;
            proof {
                assert(all.skip(i as int)[0] == line);
                lemma_cookie_line_has_colon(line);
            }
            let cs = chars_of(lines[i].as_str());
            let mut colon: usize = 0;
            while cs[colon] != ':'
                invariant
                    cs@.len() >= 7,
                    cs@[6] == ':',
                    colon <= 6,
                    forall|j: int| 0 <= j < colon ==> cs@[j] != ':',
                decreases 6 - colon,
            {
                colon += 1;
            }
            proof {
                lemma_first_index_is(line, ':', colon as int);
            }
            let value = string_range(&cs, colon + 1, cs.len());
            assert(value@ =~= after_colon(line));
            let prefix = cat2(name, "=");
            return find_pair(value.as_str(), prefix.as_str());
        }
        proof {
            assert(all.skip(i as int)[0] == lines@[i as int]@);
            assert(all.skip(i as int).skip(1) =~= all.skip(i + 1));
        }
        i += 1;
    }
    None
}

/// The value of the first pair, between the semicolons of `value`, that starts
/// with `prefix`.
fn find_pair(value: &str, prefix: &str) -> (r: Option<String>)
    ensures
        opt_text(r) == pair_value(pieces(value@, ';'), prefix@),
{
    let pairs = split_on(value, ';');
    let mut i: usize = 0;
    let ghost all = texts(pairs@);
    assert(all.skip(0) =~= all);
    while i < pairs.len()
        invariant
            i <= pairs@.len(),
            all == texts(pairs@),
            all == pieces(value@, ';'),
            pair_value(all.skip(i as int), prefix@) == pair_value(all, prefix@),
        decreases pairs@.len() - i,
    {
        let pair = trim(pairs[i].as_str());
        assert(all.skip(i as int)[0] == pairs@[i as int]@);
        match strip_prefix(pair.as_str(), prefix) {
            Some(v) => {
                return Some(v);
            },
            None => {},
        }
        assert(all.skip(i as int).skip(1) =~= all.skip(i + 1));
        i += 1;
    }
    None
}

/// What the daemon reads of a request.
pub struct Request {
    pub method: String,
    pub path: String,
    /// The cookie with which a browser shows that it is the claimant.
    pub claim: Option<String>,
}

/// Reads the head of a request. Only the first line is read for the method and
/// the path, so no header can be taken for them.
pub fn parse_head(head: &str) -> (r: Request)
    ensures
        r.method@ == method_of(head@),
        r.path@ == path_of(head@),
        opt_text(r.claim) == cookie_value(head@, "tk_claim"@),
{
    let lines = lines_of(head);
    let line = if lines.len() > 0 {
        lines[0].clone()
    } else {
        String::new()
    };
    proof {
        assert(line@ =~= request_line(head@)) by {
            if lines@.len() > 0 {
                assert(texts(lines@)[0] == lines@[0]@);
            }
        }
    }
    let words = words_of(line.as_str());
    proof {
        assert forall|i: int| 0 <= i < words@.len() implies texts(words@)[i] == words@[i]@ by {}
    }
    let method = if words.len() > 0 {
        assert(texts(words@)[0] == words@[0]@);
        words[0].clone()
    } else {
        String::new()
    };
    let path = if words.len() > 1 {
        assert(texts(words@)[1] == words@[1]@);
        words[1].clone()
    } else {
        "/".to_string()
    };
    let claim = extract_cookie(head, "tk_claim");
    assert(method@ =~= method_of(head@));
    Request { method, path, claim }
}

/// Reads the bytes of a complete head. What is no UTF-8 in them is read as
/// `String::from_utf8_lossy` does.
pub fn parse_request(bytes: &[u8]) -> (r: Request)
    ensures
        r.method@ == method_of(lossy(bytes@)),
        r.path@ == path_of(lossy(bytes@)),
        opt_text(r.claim) == cookie_value(lossy(bytes@), "tk_claim"@),
        valid_utf8(bytes@) ==> {
            &&& r.method@ == method_of(decode_utf8(bytes@))
            &&& r.path@ == path_of(decode_utf8(bytes@))
            &&& opt_text(r.claim) == cookie_value(decode_utf8(bytes@), "tk_claim"@)
        },
{
    let head = from_utf8_lossy(bytes);
    parse_head(head.as_str())
}

// ---- responses ------------------------------------------------------------

/// One response.
pub struct Resp {
    pub status: &'static str,
    pub ctype: &'static str,
    pub body: String,
    pub set_cookie: Option<String>,
}

/// What a [`Resp`] says.
#[verifier::ext_equal]
pub struct RespView {
    pub status: Seq<char>,
    pub ctype: Seq<char>,
    pub body: Seq<char>,
    pub set_cookie: Option<Seq<char>>,
}

impl View for Resp {
    type V = RespView;

    open spec fn view(&self) -> RespView {
        RespView {
            status: self.status@,
            ctype: self.ctype@,
            body: self.body@,
            set_cookie: opt_text(self.set_cookie),
        }
    }
}

/// A response without a cookie.
pub open spec fn resp(status: Seq<char>, ctype: Seq<char>, body: Seq<char>) -> RespView {
    RespView { status, ctype, body, set_cookie: None }
}

impl Resp {
    /// A response without a cookie.
    pub fn new(status: &'static str, ctype: &'static str, body: String) -> (r: Resp)
        ensures
            r@ == resp(status@, ctype@, body@),
    {
        Resp { status, ctype, body, set_cookie: None }
    }

    /// The response with a cookie to set.
    pub fn cookie(self, c: String) -> (r: Resp)
        ensures
            r@ == (RespView { set_cookie: Some(c@), ..self@ }),
    {
        Resp { status: self.status, ctype: self.ctype, body: self.body, set_cookie: Some(c) }
    }
}

/// A short plain-text response.
pub fn plain(status: &'static str, body: &str) -> (r: Resp)
    ensures
        r@ == resp(status@, "text/plain"@, body@),
{
    Resp::new(status, "text/plain", body.to_string())
}

/// The length of a text in bytes.
pub open spec fn byte_len(s: Seq<char>) -> nat {
    encode_utf8(s).len()
}

/// The status line and headers of a response, up to and with the empty line.
pub open spec fn response_head_of(r: RespView) -> Seq<char> {
    "HTTP/1.1 "@ + r.status + "\r\nContent-Type: "@ + r.ctype + "\r\nContent-Length: "@ + decimal(
        byte_len(r.body),
    ) + "\r\n"@ + (match r.set_cookie {
        Some(c) => "Set-Cookie: "@ + c + "\r\n"@,
        None => ""@,
    }) + "Connection: close\r\nCache-Control: no-store\r\n\r\n"@
}

/// The status line and headers of a response; the body follows them.
pub fn response_head(r: &Resp) -> (h: String)
    ensures
        h@ == response_head_of(r@),
{
    let len: usize = r.body.as_str().as_bytes().len();
    let cookie = match &r.set_cookie {
        Some(c) => cat3("Set-Cookie: ", c.as_str(), "\r\n"),
        None => "".to_string(),
    };
    let mut out = cat2("HTTP/1.1 ", r.status);
    out.append("\r\nContent-Type: ");
    out.append(r.ctype);
    out.append("\r\nContent-Length: ");
    out.append(decimal_text(len as u64).as_str());
    out.append("\r\n");
    out.append(cookie.as_str());
    out.append("Connection: close\r\nCache-Control: no-store\r\n\r\n");
    out
}

/// The content type of a file, by the end of its name.
pub open spec fn content_type_of(path: Seq<char>) -> Seq<char> {
    if ".html"@.is_suffix_of(path) {
        "text/html; charset=utf-8"@
    } else if ".js"@.is_suffix_of(path) || ".mjs"@.is_suffix_of(path) {
        "text/javascript; charset=utf-8"@
    } else if ".css"@.is_suffix_of(path) {
        "text/css; charset=utf-8"@
    } else if ".svg"@.is_suffix_of(path) {
        "image/svg+xml"@
    } else if ".json"@.is_suffix_of(path) {
        "application/json"@
    } else if ".ico"@.is_suffix_of(path) {
        "image/x-icon"@
    } else {
        "text/plain; charset=utf-8"@
    }
}

/// The content type of a file, by the end of its name.
pub fn content_type(path: &str) -> (r: &'static str)
    ensures
        r@ == content_type_of(path@),
{
    if ends_with(path, ".html") {
        "text/html; charset=utf-8"
    } else if ends_with(path, ".js") || ends_with(path, ".mjs") {
        "text/javascript; charset=utf-8"
    } else if ends_with(path, ".css") {
        "text/css; charset=utf-8"
    } else if ends_with(path, ".svg") {
        "image/svg+xml"
    } else if ends_with(path, ".json") {
        "application/json"
    } else if ends_with(path, ".ico") {
        "image/x-icon"
    } else {
        "text/plain; charset=utf-8"
    }
}

// ---- what holds of it -----------------------------------------------------

/// A line feed ends a line; what follows it is more lines.
proof fn lemma_line_feed(line: Seq<char>, rest: Seq<char>)
    requires
        !line.contains('\n'),
    ensures
        line_seq(line + seq!['\n'] + rest) == seq![without_cr(line)] + line_seq(rest),
{
    let s = line + seq!['\n'] + rest;
    assert forall|j: int| 0 <= j < line.len() implies s[j] != '\n' by {
        assert(line.contains(line[j]));
    }
    lemma_first_index_is(s, '\n', line.len() as int);
    assert(s.take(line.len() as int) =~= line);
    assert(s.skip(line.len() as int + 1) =~= rest);
}

/// The method and the path come from the first line alone, whatever headers
/// follow it.
pub proof fn law_only_the_first_line_counts(
    line: Seq<char>,
    headers: Seq<char>,
    others: Seq<char>,
)
    requires
        !line.contains('\n'),
    ensures
        method_of(line + seq!['\n'] + headers) == method_of(line + seq!['\n'] + others),
        path_of(line + seq!['\n'] + headers) == path_of(line + seq!['\n'] + others),
{
    lemma_line_feed(line, headers);
    lemma_line_feed(line, others);
}

/// A token has no white space and nothing that ends a pair or a line.
proof fn lemma_token_is_plain(secret: Seq<char>)
    requires
        is_token(secret),
    ensures
        forall|i: int|
            0 <= i < secret.len() ==> !is_white(#[trigger] secret[i]) && secret[i] != ';'
                && secret[i] != '\n' && secret[i] != '\r',
{
    assert forall|i: int| 0 <= i < secret.len() implies !is_white(#[trigger] secret[i])
        && secret[i] != ';' && secret[i] != '\n' && secret[i] != '\r' by {
        assert(is_lower_hex(secret[i]));
    }
}

/// The secret that a browser was given as its cookie is what is read from the
/// header in which the browser shows it, in a request whose other line is no
/// cookie header.
pub proof fn law_cookie_comes_back(line: Seq<char>, secret: Seq<char>)
    requires
        !line.contains('\n'),
        !is_cookie_line(without_cr(line)),
        is_token(secret),
    ensures
        cookie_value(
            line + seq!['\n'] + ("Cookie: tk_claim="@ + secret + seq!['\r']) + seq!['\n'] + "\r\n"@,
            "tk_claim"@,
        ) == Some(secret),
{
    reveal_strlit("Cookie: tk_claim=");
    reveal_strlit("cookie:");
    reveal_strlit("tk_claim");
    reveal_strlit("=");
    lemma_token_is_plain(secret);
    let shown = "Cookie: tk_claim="@ + secret;
    let header = shown + seq!['\r'];
    let tail = "\r\n"@;
    let head = line + seq!['\n'] + header + seq!['\n'] + tail;
    assert(head =~= line + seq!['\n'] + (header + seq!['\n'] + tail));
    lemma_line_feed(line, header + seq!['\n'] + tail);
    assert forall|j: int| 0 <= j < header.len() implies header[j] != '\n' by {
        if 17 <= j < 49 {
            assert(header[j] == secret[j - 17]);
        }
    }
    lemma_line_feed(header, tail);
    assert(without_cr(header) =~= shown);
    let lines = line_seq(head);
    assert(lines =~= seq![without_cr(line)] + (seq![shown] + line_seq(tail)));
    assert(lines[0] == without_cr(line));
    assert(lines.skip(1)[0] == shown);
    assert(ascii_lower(shown).take(7) =~= "cookie:"@);
    assert(ascii_lower(shown).subrange(0, 7) =~= "cookie:"@);
    reveal_with_fuel(cookie_line, 2);
    assert(cookie_line(lines) == Some(shown));
    lemma_first_index_is(shown, ':', 6);
    let value = after_colon(shown);
    let pair = "tk_claim"@ + "="@ + secret;
    assert(value =~= seq![' '] + pair);
    assert forall|j: int| 0 <= j < value.len() implies value[j] != ';' by {
        if j >= 10 {
            assert(value[j] == secret[j - 10]);
        }
    }
    lemma_first_index_is(value, ';', value.len() as int);
    assert(pieces(value, ';') =~= seq![value]);
    reveal_with_fuel(white_prefix, 3);
    assert(value.skip(1) =~= pair);
    assert(pair[0] == 't');
    assert(white_prefix(value) == 1);
    assert(pair.last() == secret[31]);
    assert(white_suffix(pair) == 0);
    assert(pair.take(pair.len() as int) =~= pair);
    assert(trimmed(value) =~= pair);
    let prefix = "tk_claim"@ + "="@;
    assert(pair.take(9) =~= prefix);
    assert(pair.subrange(0, 9) =~= prefix);
    assert(pair.skip(9) =~= secret);
}

}
