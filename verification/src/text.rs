//! Character-level text helpers shared by the command and configuration
//! parsers: white space, tokens, trimming, lines, splitting at a character,
//! and decimal integers.
use vstd::prelude::*;
use vstd::string::*;

verus! {

/// The characters with the Unicode `White_Space` property.
pub open spec fn is_white_space(c: char) -> bool {
    let n = c as u32;
    ||| 0x09 <= n <= 0x0d
    ||| n == 0x20
    ||| n == 0x85
    ||| n == 0xa0
    ||| n == 0x1680
    ||| 0x2000 <= n <= 0x200a
    ||| n == 0x2028
    ||| n == 0x2029
    ||| n == 0x202f
    ||| n == 0x205f
    ||| n == 0x3000
}

/// Whether `c` is a Unicode white-space character.
pub fn is_whitespace(c: char) -> (b: bool)
    ensures
        b == is_white_space(c),
{
    let n = c as u32;
    (0x09 <= n && n <= 0x0d) || n == 0x20 || n == 0x85 || n == 0xa0 || n == 0x1680 || (0x2000
        <= n && n <= 0x200a) || n == 0x2028 || n == 0x2029 || n == 0x202f || n == 0x205f || n
        == 0x3000
}

/// The character sequences of a sequence of string slices.
pub open spec fn views(v: Seq<&str>) -> Seq<Seq<char>> {
    v.map_values(|t: &str| t@)
}

/// The maximal runs of non-white-space characters of `s`, in order: the
/// tokens are built left to right, a white-space character ends the current
/// token, and any other character either extends the token that its left
/// neighbour belongs to or starts a new one.
pub open spec fn ws_tokens(s: Seq<char>) -> Seq<Seq<char>>
    decreases s.len(),
{
    if s.len() == 0 {
        seq![]
    } else {
        let prev = ws_tokens(s.drop_last());
        let c = s.last();
        if is_white_space(c) {
            prev
        } else if s.len() >= 2 && !is_white_space(s[s.len() - 2]) {
            prev.update(prev.len() - 1, prev.last().push(c))
        } else {
            prev.push(seq![c])
        }
    }
}

/// Splits `s` into its white-space separated tokens.
pub fn split_whitespace(s: &str) -> (tokens: Vec<&str>)
    ensures
        views(tokens@) == ws_tokens(s@),
{
    let n = s.unicode_len();
    let mut tokens: Vec<&str> = Vec::new();
    let mut start: usize = 0;
    let mut in_token = false;
    let mut i: usize = 0;
    while i < n
        invariant
            n == s@.len(),
            i <= n,
            in_token ==> {
                &&& start < i
                &&& (start == 0 || is_white_space(s@[start - 1]))
                &&& forall|k: int| start <= k < i ==> !is_white_space(#[trigger] s@[k])
                &&& views(tokens@).push(s@.subrange(start as int, i as int)) == ws_tokens(
                    s@.take(i as int),
                )
            },
            !in_token ==> {
                &&& views(tokens@) == ws_tokens(s@.take(i as int))
                &&& (i == 0 || is_white_space(s@[i - 1]))
            },
        decreases n - i,
    {
        let c = s.get_char(i);
        let ghost pre = s@.take(i as int);
        let ghost post = s@.take(i + 1);
        assert(post.drop_last() =~= pre);
        assert(post.last() == c);
        if is_whitespace(c) {
            if in_token {
                let ghost before = tokens@;
                let t = s.substring_char(start, i);
                tokens.push(t);
                in_token = false;
                assert(views(tokens@) =~= views(before).push(t@));
            }
        } else if !in_token {
            start = i;
            in_token = true;
            assert(s@.subrange(start as int, i + 1) =~= seq![c]);
        } else {
            assert(post[post.len() - 2] == s@[i - 1]);
            assert(s@.subrange(start as int, i + 1) =~= s@.subrange(start as int, i as int).push(
                c,
            ));
        }
        i += 1;
    }
    if in_token {
        let ghost before = tokens@;
        let t = s.substring_char(start, n);
        tokens.push(t);
        assert(views(tokens@) =~= views(before).push(t@));
    }
    assert(s@.take(n as int) =~= s@);
    tokens
}

/// `s` without its leading white space.
pub open spec fn trim_start_spec(s: Seq<char>) -> Seq<char>
    decreases s.len(),
{
    if s.len() > 0 && is_white_space(s[0]) {
        trim_start_spec(s.drop_first())
    } else {
        s
    }
}

/// `s` without its trailing white space.
pub open spec fn trim_end_spec(s: Seq<char>) -> Seq<char>
    decreases s.len(),
{
    if s.len() > 0 && is_white_space(s.last()) {
        trim_end_spec(s.drop_last())
    } else {
        s
    }
}

/// `s` without its leading and trailing white space.
pub open spec fn trim_spec(s: Seq<char>) -> Seq<char> {
    trim_end_spec(trim_start_spec(s))
}

/// Removes the leading and trailing white space of `s`.
pub fn trim(s: &str) -> (r: &str)
    ensures
        r@ == trim_spec(s@),
{
    let n = s.unicode_len();
    let mut lo: usize = 0;
    assert(s@.skip(0) =~= s@);
    while lo < n && is_whitespace(s.get_char(lo))
        invariant
            n == s@.len(),
            lo <= n,
            trim_start_spec(s@) == trim_start_spec(s@.skip(lo as int)),
        decreases n - lo,
    {
        assert(s@.skip(lo as int).drop_first() =~= s@.skip(lo + 1));
        lo += 1;
    }
    if lo == n {
        assert(s@.skip(lo as int) =~= Seq::<char>::empty());
    }
    let ghost front = s@.skip(lo as int);
    assert(trim_start_spec(s@) == front);
    let mut hi: usize = n;
    assert(s@.subrange(lo as int, hi as int) =~= front);
    while hi > lo && is_whitespace(s.get_char(hi - 1))
        invariant
            n == s@.len(),
            lo <= hi <= n,
            trim_end_spec(front) == trim_end_spec(s@.subrange(lo as int, hi as int)),
        decreases hi,
    {
        assert(s@.subrange(lo as int, hi as int).drop_last() =~= s@.subrange(
            lo as int,
            hi - 1,
        ));
        hi -= 1;
    }
    s.substring_char(lo, hi)
}

/// The pieces of `s` between its newline characters: one more piece than
/// `s` has newlines, the last one possibly empty.
pub open spec fn newline_pieces(s: Seq<char>) -> Seq<Seq<char>>
    decreases s.len(),
{
    if s.len() == 0 {
        seq![seq![]]
    } else {
        let p = newline_pieces(s.drop_last());
        if s.last() == '\n' {
            p.push(seq![])
        } else {
            p.update(p.len() - 1, p.last().push(s.last()))
        }
    }
}

/// `t` without one trailing carriage return, if it ends with one.
pub open spec fn strip_cr(t: Seq<char>) -> Seq<char> {
    if t.len() > 0 && t.last() == '\r' {
        t.drop_last()
    } else {
        t
    }
}

/// The lines of `s`: the pieces between newlines, without a final empty
/// piece, each piece that a newline ends losing one trailing carriage
/// return.
pub open spec fn lines_spec(s: Seq<char>) -> Seq<Seq<char>> {
    let p = newline_pieces(s);
    let k = if p.last().len() == 0 {
        p.len() - 1
    } else {
        p.len() as int
    };
    Seq::new(k as nat, |j: int| if j < p.len() - 1 { strip_cr(p[j]) } else { p[j] })
}

/// Splits `s` into its lines.
pub fn lines(s: &str) -> (out: Vec<&str>)
    ensures
        views(out@) == lines_spec(s@),
{
    let n = s.unicode_len();
    let mut out: Vec<&str> = Vec::new();
    let mut start: usize = 0;
    let mut i: usize = 0;
    while i < n
        invariant
            n == s@.len(),
            start <= i <= n,
            newline_pieces(s@.take(i as int)).len() == out@.len() + 1,
            forall|j: int|
                0 <= j < out@.len() ==> (#[trigger] out@[j])@ == strip_cr(
                    newline_pieces(s@.take(i as int))[j],
                ),
            newline_pieces(s@.take(i as int)).last() == s@.subrange(start as int, i as int),
        decreases n - i,
    {
        let c = s.get_char(i);
        let ghost pre = s@.take(i as int);
        let ghost post = s@.take(i + 1);
        assert(post.drop_last() =~= pre);
        assert(post.last() == c);
        if c == '\n' {
            let ghost piece = s@.subrange(start as int, i as int);
            let t = if i > start && s.get_char(i - 1) == '\r' {
                s.substring_char(start, i - 1)
            } else {
                s.substring_char(start, i)
            };
            assert(t@ == strip_cr(piece)) by {
                if i > start && s@[i - 1] == '\r' {
                    assert(piece.drop_last() =~= s@.subrange(start as int, i - 1));
                }
            }
            out.push(t);
            start = i + 1;
            assert(s@.subrange(start as int, i + 1) =~= Seq::<char>::empty());
        } else {
            assert(s@.subrange(start as int, i + 1) =~= s@.subrange(start as int, i as int).push(
                c,
            ));
        }
        i += 1;
    }
    assert(s@.take(n as int) =~= s@);
    let ghost p = newline_pieces(s@);
    if start < n {
        let t = s.substring_char(start, n);
        out.push(t);
    }
    assert(views(out@) =~= lines_spec(s@));
    out
}

/// A text always has at least one piece.
pub proof fn lemma_pieces_nonempty(s: Seq<char>)
    ensures
        newline_pieces(s).len() >= 1,
    decreases s.len(),
{
    if s.len() > 0 {
        lemma_pieces_nonempty(s.drop_last());
    }
}

/// Two texts joined by a newline have the pieces of the first, then the
/// pieces of the second.
proof fn lemma_pieces_join(s: Seq<char>, t: Seq<char>)
    ensures
        newline_pieces(s.push('\n') + t) == newline_pieces(s) + newline_pieces(t),
    decreases t.len(),
{
    if t.len() == 0 {
        assert(s.push('\n') + t =~= s.push('\n'));
        assert(s.push('\n').drop_last() =~= s);
        assert(newline_pieces(s) + newline_pieces(t) =~= newline_pieces(s).push(seq![]));
    } else {
        let u = s.push('\n') + t;
        assert(u.drop_last() =~= s.push('\n') + t.drop_last());
        assert(u.last() == t.last());
        lemma_pieces_join(s, t.drop_last());
        lemma_pieces_nonempty(t.drop_last());
        let p = newline_pieces(s);
        let q = newline_pieces(t.drop_last());
        if t.last() == '\n' {
            assert((p + q).push(seq![]) =~= p + q.push(seq![]));
        } else {
            assert((p + q).update((p + q).len() - 1, (p + q).last().push(t.last())) =~= p
                + q.update(q.len() - 1, q.last().push(t.last())));
        }
    }
}

/// Each piece without one trailing carriage return.
pub open spec fn cr_stripped(p: Seq<Seq<char>>) -> Seq<Seq<char>> {
    p.map_values(|q: Seq<char>| strip_cr(q))
}

/// The lines of two texts joined by a newline: every piece of the first,
/// each a whole line, then the lines of the second.
pub proof fn lemma_lines_join(s: Seq<char>, t: Seq<char>)
    ensures
        lines_spec(s.push('\n') + t) == cr_stripped(newline_pieces(s)) + lines_spec(t),
{
    lemma_pieces_join(s, t);
    lemma_pieces_nonempty(s);
    lemma_pieces_nonempty(t);
    let p = newline_pieces(s);
    let q = newline_pieces(t);
    assert((p + q).last() == q.last());
    assert(lines_spec(s.push('\n') + t) =~= cr_stripped(p) + lines_spec(t));
}

/// Whether `k` is the position of the first `c` in `s`.
pub open spec fn is_first_index(s: Seq<char>, c: char, k: int) -> bool {
    &&& 0 <= k < s.len()
    &&& s[k] == c
    &&& forall|j: int| 0 <= j < k ==> s[j] != c
}

/// The position of the first `c` in `s`, if there is one.
pub open spec fn first_index_of(s: Seq<char>, c: char) -> Option<int> {
    if exists|k: int| is_first_index(s, c, k) {
        Some(choose|k: int| is_first_index(s, c, k))
    } else {
        None
    }
}

/// `s` split around its first `c`, if it has one.
pub open spec fn split_once_spec(s: Seq<char>, c: char) -> Option<(Seq<char>, Seq<char>)> {
    match first_index_of(s, c) {
        Some(k) => Some((s.take(k), s.skip(k + 1))),
        None => None,
    }
}

/// Splits `s` around the first occurrence of `c`.
pub fn split_once(s: &str, c: char) -> (r: Option<(&str, &str)>)
    ensures
        match r {
            Some((a, b)) => split_once_spec(s@, c) == Some((a@, b@)),
            None => split_once_spec(s@, c) is None,
        },
{
    let n = s.unicode_len();
    let mut i: usize = 0;
    while i < n
        invariant
            n == s@.len(),
            i <= n,
            forall|j: int| 0 <= j < i ==> s@[j] != c,
        decreases n - i,
    {
        if s.get_char(i) == c {
            assert(is_first_index(s@, c, i as int));
            let ghost k = choose|k: int| is_first_index(s@, c, k);
            assert(k == i) by {
                if k < i {
                    assert(s@[k] != c);
                } else if k > i {
                    assert(s@[i as int] != c);
                }
            }
            let a = s.substring_char(0, i);
            let b = s.substring_char(i + 1, n);
            assert(a@ =~= s@.take(i as int));
            assert(b@ =~= s@.skip(i + 1));
            return Some((a, b));
        }
        i += 1;
    }
    assert(!exists|k: int| is_first_index(s@, c, k));
    None
}

/// Whether `a` and `b` hold the same characters.
pub fn str_eq(a: &str, b: &str) -> (r: bool)
    ensures
        r == (a@ == b@),
{
    let n = a.unicode_len();
    if n != b.unicode_len() {
        return false;
    }
    let mut i: usize = 0;
    while i < n
        invariant
            n == a@.len() == b@.len(),
            i <= n,
            forall|j: int| 0 <= j < i ==> a@[j] == b@[j],
        decreases n - i,
    {
        if a.get_char(i) != b.get_char(i) {
            return false;
        }
        i += 1;
    }
    assert(a@ =~= b@);
    true
}

} // verus!
