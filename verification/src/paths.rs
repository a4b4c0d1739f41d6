//! File paths, as texts with `/` between their components.
use vstd::prelude::*;
use vstd::string::StringExecFns;

use crate::text::laws::law_pieces;
use crate::text::{chars_of, first_index, has_text, occurs_at, pieces, split_on, texts};

verus! {

/// The path of `part` below `dir`. A part that starts at the root is a path of
/// its own.
pub open spec fn below(dir: Seq<char>, part: Seq<char>) -> Seq<char> {
    if part.len() > 0 && part[0] == '/' {
        part
    } else if dir.len() == 0 || dir.last() == '/' {
        dir + part
    } else {
        dir + seq!['/'] + part
    }
}

/// A text that names a file in a directory: not empty, without a separator, and
/// neither the directory itself nor its parent.
pub open spec fn is_file_name(s: Seq<char>) -> bool {
    &&& s.len() > 0
    &&& !s.contains('/')
    &&& s != seq!['.']
    &&& s != seq!['.', '.']
}

/// The path of `part` below `dir`.
pub fn join_path(dir: &str, part: &str) -> (r: String)
    ensures
        r@ == below(dir@, part@),
{
    let p = chars_of(part);
    if p.len() > 0 && p[0] == '/' {
        return part.to_string();
    }
    let d = chars_of(dir);
    let mut out = dir.to_string();
    if d.len() > 0 && d[d.len() - 1] != '/' {
        out.push('/');
        proof {
            assert(out@ =~= dir@ + seq!['/']);
        }
    }
    out.append(part);
    out
}

/// One of the components of `path` is the name of the parent directory.
pub open spec fn climbs(path: Seq<char>) -> bool {
    pieces(path, '/').contains(seq!['.', '.'])
}

/// Whether one of the components of `path` is the name of the parent directory.
pub fn has_parent_component(path: &str) -> (r: bool)
    ensures
        r == climbs(path@),
{
    let parts = split_on(path, '/');
    let mut i: usize = 0;
    while i < parts.len()
        invariant
            i <= parts@.len(),
            texts(parts@) == pieces(path@, '/'),
            forall|j: int| 0 <= j < i ==> parts@[j]@ != seq!['.', '.'],
        decreases parts@.len() - i,
    {
        let cs = chars_of(parts[i].as_str());
        if cs.len() == 2 && cs[0] == '.' && cs[1] == '.' {
            proof {
                assert(cs@ =~= seq!['.', '.']);
                assert(texts(parts@)[i as int] == seq!['.', '.']);
            }
            return true;
        }
        proof {
            if parts@[i as int]@ == seq!['.', '.'] {
                assert(cs@[0] == '.');
                assert(cs@[1] == '.');
            }
        }
        i += 1;
    }
    proof {
        assert forall|j: int| 0 <= j < texts(parts@).len() implies texts(parts@)[j] != seq![
            '.',
            '.',
        ] by {
            assert(texts(parts@)[j] == parts@[j]@);
        }
    }
    false
}

/// A part that does not start at the root follows the directory with one slash
/// between the two, which is the directory's own where it ends in one; one that
/// starts at the root stands alone.
pub proof fn law_path_below(dir: Seq<char>, part: Seq<char>)
    requires
        part.len() > 0,
        part[0] != '/',
    ensures
        dir.len() > 0 && dir.last() != '/' ==> below(dir, part) == dir + "/"@ + part,
        below(dir.push('/'), part) == dir + "/"@ + part,
        below(seq![], part) == part,
        below(dir, "/"@ + part) == "/"@ + part,
{
    reveal_strlit("/");
    assert("/"@ =~= seq!['/']);
    assert(dir.push('/') =~= dir + "/"@);
    assert(below(seq![], part) =~= part);
    assert(("/"@ + part)[0] == '/');
}

/// A path climbs wherever the name of the parent directory stands between two
/// slashes or at an end, and never without that name in it.
pub proof fn law_climbing_path(a: Seq<char>, b: Seq<char>, path: Seq<char>)
    ensures
        climbs(".."@),
        climbs("../"@ + b),
        climbs(a + "/.."@),
        climbs(a + "/../"@ + b),
        climbs(path) ==> has_text(path, ".."@),
{
    reveal_strlit("..");
    reveal_strlit("../");
    reveal_strlit("/..");
    reveal_strlit("/../");
    let up = seq!['.', '.'];
    assert(".."@ =~= up);
    assert(!up.contains('/'));
    law_pieces(up, b, '/');
    assert(pieces(up, '/')[0] == up);
    assert("../"@ + b =~= up + seq!['/'] + b);
    assert(pieces("../"@ + b, '/')[0] == up);
    law_pieces(a, up, '/');
    assert(a + "/.."@ =~= a + seq!['/'] + up);
    let n = pieces(a, '/').len() as int;
    assert(pieces(a + "/.."@, '/')[n] == up);
    let tail = up + seq!['/'] + b;
    law_pieces(a, tail, '/');
    assert(a + "/../"@ + b =~= a + seq!['/'] + tail);
    assert(pieces(a + "/../"@ + b, '/')[n] == up);
    if climbs(path) {
        let k = choose|k: int| 0 <= k < pieces(path, '/').len() && pieces(path, '/')[k] == up;
        let i = lemma_piece_stands_in(path, '/', k);
        assert(occurs_at(path, ".."@, i));
    }
}

/// Where a piece of a text stands in it.
proof fn lemma_piece_stands_in(s: Seq<char>, c: char, k: int) -> (i: int)
    requires
        0 <= k < pieces(s, c).len(),
    ensures
        occurs_at(s, pieces(s, c)[k], i),
    decreases s.len(),
{
    let n = first_index(s, c) as int;
    if n >= s.len() {
        assert(s.subrange(0, s.len() as int) =~= s);
        0
    } else if k == 0 {
        assert(s.subrange(0, n) =~= s.take(n));
        0
    } else {
        let t = s.skip(n + 1);
        let j = lemma_piece_stands_in(t, c, k - 1);
        let p = pieces(t, c)[k - 1];
        assert(s.subrange(n + 1 + j, n + 1 + j + p.len()) =~= t.subrange(j, j + p.len()));
        n + 1 + j
    }
}

}
