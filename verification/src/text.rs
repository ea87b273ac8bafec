//! Text utilities for recognized text: splitting into lines, blank-line
//! detection, trimming, and the normalized form used when exporting a
//! result (lines trimmed, blank lines dropped).

use vstd::prelude::*;

verus! {

/// The whitespace characters that trimming and blank-line detection treat
/// as insignificant.
pub open spec fn spec_is_space(c: char) -> bool {
    c == ' ' || c == '\t' || c == '\r' || c == '\n'
}

pub fn is_space(c: char) -> (r: bool)
    ensures
        r == spec_is_space(c),
{
    c == ' ' || c == '\t' || c == '\r' || c == '\n'
}

/// A text is blank when every character in it is whitespace.
pub open spec fn spec_blank(s: Seq<char>) -> bool {
    forall|i: int| 0 <= i < s.len() ==> spec_is_space(#[trigger] s[i])
}

pub fn is_blank(s: &str) -> (r: bool)
    ensures
        r == spec_blank(s@),
{
    let len = s.unicode_len();
    for i in 0..len
        invariant
            len == s@.len(),
            forall|k: int| 0 <= k < i ==> spec_is_space(#[trigger] s@[k]),
    {
        if !is_space(s.get_char(i)) {
            return false;
        }
    }
    true
}

/// Splitting into lines: `cur` is the part of the current line read so
/// far, `s` what is still to be read.  A trailing newline does not open an
/// empty final line, matching the usual reading of line-oriented text.
pub open spec fn spec_lines_from(s: Seq<char>, cur: Seq<char>) -> Seq<Seq<char>>
    decreases s.len(),
{
    if s.len() == 0 {
        if cur.len() == 0 {
            seq![]
        } else {
            seq![cur]
        }
    } else if s[0] == '\n' {
        seq![cur] + spec_lines_from(s.skip(1), seq![])
    } else {
        spec_lines_from(s.skip(1), cur.push(s[0]))
    }
}

/// The lines of `s`.
pub open spec fn spec_lines(s: Seq<char>) -> Seq<Seq<char>> {
    spec_lines_from(s, seq![])
}

/// The views of a sequence of owned strings.
pub open spec fn views_of(ls: Seq<String>) -> Seq<Seq<char>> {
    ls.map_values(|l: String| l@)
}

/// Splits `s` at newline characters; a trailing newline yields no empty
/// final line.
pub fn split_lines(s: &str) -> (r: Vec<String>)
    ensures
        views_of(r@) == spec_lines(s@),
{
    let len = s.unicode_len();
    let mut lines: Vec<String> = Vec::new();
    let mut start: usize = 0;
    proof {
        assert(s@.skip(0) =~= s@);
        assert(s@.subrange(0, 0) =~= Seq::<char>::empty());
        assert(views_of(lines@) =~= Seq::<Seq<char>>::empty());
    }
    for i in 0..len
        invariant
            len == s@.len(),
            start <= i,
            views_of(lines@) + spec_lines_from(s@.skip(i as int), s@.subrange(
                start as int,
                i as int,
            )) =~= spec_lines(s@),
    {
        if s.get_char(i) == '\n' {
            let piece = s.substring_char(start, i);
            lines.push(piece.to_owned());
            proof {
                assert(views_of(lines@) =~= views_of(lines@.drop_last()) + seq![
                    s@.subrange(start as int, i as int),
                ]);
                assert(s@.skip(i as int)[0] == s@[i as int]);
                assert(s@.skip(i as int).skip(1) =~= s@.skip(i as int + 1));
                assert(s@.subrange(i as int + 1, i as int + 1) =~= Seq::<char>::empty());
            }
            start = i + 1;
        } else {
            proof {
                assert(s@.skip(i as int)[0] == s@[i as int]);
                assert(s@.skip(i as int).skip(1) =~= s@.skip(i as int + 1));
                assert(s@.subrange(start as int, i as int).push(s@[i as int]) =~= s@.subrange(
                    start as int,
                    i as int + 1,
                ));
            }
        }
    }
    if start < len {
        let piece = s.substring_char(start, len);
        lines.push(piece.to_owned());
        proof {
            assert(s@.skip(len as int) =~= Seq::<char>::empty());
            assert(views_of(lines@) =~= views_of(lines@.drop_last()) + seq![
                s@.subrange(start as int, len as int),
            ]);
        }
    } else {
        proof {
            assert(s@.skip(len as int) =~= Seq::<char>::empty());
            assert(s@.subrange(start as int, len as int).len() == 0);
        }
    }
    lines
}

/// Leading whitespace removed.
pub open spec fn spec_trim_front(s: Seq<char>) -> Seq<char>
    decreases s.len(),
{
    if s.len() > 0 && spec_is_space(s[0]) {
        spec_trim_front(s.skip(1))
    } else {
        s
    }
}

/// Trailing whitespace removed.
pub open spec fn spec_trim_back(s: Seq<char>) -> Seq<char>
    decreases s.len(),
{
    if s.len() > 0 && spec_is_space(s[s.len() - 1]) {
        spec_trim_back(s.drop_last())
    } else {
        s
    }
}

/// Leading and trailing whitespace removed.
pub open spec fn spec_trim(s: Seq<char>) -> Seq<char> {
    spec_trim_back(spec_trim_front(s))
}

proof fn lemma_trim_front_skip(s: Seq<char>, b: int)
    requires
        0 <= b <= s.len(),
        forall|k: int| 0 <= k < b ==> spec_is_space(#[trigger] s[k]),
        b == s.len() || !spec_is_space(s[b]),
    ensures
        spec_trim_front(s) == s.skip(b),
    decreases b,
{
    if b == 0 {
        assert(s.skip(0) =~= s);
    } else {
        lemma_trim_front_skip(s.skip(1), b - 1);
        assert(s.skip(1).skip(b - 1) =~= s.skip(b));
    }
}

proof fn lemma_trim_back_take(s: Seq<char>, e: int)
    requires
        0 <= e <= s.len(),
        forall|k: int| e <= k < s.len() ==> spec_is_space(#[trigger] s[k]),
        e == 0 || !spec_is_space(s[e - 1]),
    ensures
        spec_trim_back(s) == s.take(e),
    decreases s.len() - e,
{
    if e == s.len() {
        assert(s.take(e) =~= s);
    } else {
        assert(s.drop_last() =~= s.take(s.len() - 1));
        lemma_trim_back_take(s.drop_last(), e);
        assert(s.drop_last().take(e) =~= s.take(e));
    }
}

/// Trims whitespace from both ends of `s`.
pub fn trim_str(s: &str) -> (r: String)
    ensures
        r@ == spec_trim(s@),
{
    let len = s.unicode_len();
    let mut b: usize = 0;
    while b < len && is_space(s.get_char(b))
        invariant
            len == s@.len(),
            b <= len,
            forall|k: int| 0 <= k < b ==> spec_is_space(#[trigger] s@[k]),
        decreases len - b,
    {
        b = b + 1;
    }
    proof {
        lemma_trim_front_skip(s@, b as int);
    }
    if b == len {
        proof {
            assert(s@.skip(b as int).len() == 0);
        }
        return String::new();
    }
    let mut e: usize = len;
    while e > b && is_space(s.get_char(e - 1))
        invariant
            len == s@.len(),
            b <= e <= len,
            forall|k: int| e <= k < len ==> spec_is_space(#[trigger] s@[k]),
        decreases e,
    {
        e = e - 1;
    }
    proof {
        assert(!spec_is_space(s@[b as int]));
        assert(e > b);
        assert(!spec_is_space(s@[e - 1]));
        lemma_trim_back_take(s@.skip(b as int), e - b);
        assert(s@.skip(b as int).take(e - b) =~= s@.subrange(b as int, e as int));
    }
    let piece = s.substring_char(b, e);
    piece.to_owned()
}

/// The normalized form of a list of lines: each line trimmed, blank lines
/// dropped, and the remaining lines joined with single newlines.
pub open spec fn spec_join_normalized(ls: Seq<Seq<char>>) -> Seq<char>
    decreases ls.len(),
{
    if ls.len() == 0 {
        Seq::<char>::empty()
    } else {
        let pre = spec_join_normalized(ls.drop_last());
        let t = spec_trim(ls.last());
        if t.len() == 0 {
            pre
        } else if pre.len() == 0 {
            t
        } else {
            pre + seq!['\n'] + t
        }
    }
}

/// The normalized form of a whole text.
pub open spec fn spec_normalized(s: Seq<char>) -> Seq<char> {
    spec_join_normalized(spec_lines(s))
}

/// Normalizes recognized text for export: trims each line, drops blank
/// lines, and joins the rest with single newlines.
pub fn normalize_text(s: &str) -> (r: String)
    ensures
        r@ == spec_normalized(s@),
{
    let lines = split_lines(s);
    let mut out = String::new();
    let n = lines.len();
    for i in 0..n
        invariant
            n == lines@.len(),
            views_of(lines@) == spec_lines(s@),
            out@ == spec_join_normalized(views_of(lines@).take(i as int)),
    {
        let t = trim_str(lines[i].as_str());
        proof {
            assert(views_of(lines@)[i as int] == lines@[i as int]@);
            assert(views_of(lines@).take(i as int + 1).drop_last() =~= views_of(lines@).take(
                i as int,
            ));
            assert(views_of(lines@).take(i as int + 1).last() == views_of(lines@)[i as int]);
        }
        if !t.as_str().is_empty() {
            if !out.as_str().is_empty() {
                out.append("\n");
                proof {
                    reveal_strlit("\n");
                    assert("\n"@ =~= seq!['\n']);
                }
            }
            out.append(t.as_str());
        }
    }
    proof {
        assert(views_of(lines@).take(n as int) =~= views_of(lines@));
    }
    out
}

} // verus!
