//! Character-level text helpers: whitespace tokenization, line splitting,
//! substring search and control-character stripping.
use vstd::prelude::*;
use vstd::string::StringExecFns;

verus! {

/// Unicode `White_Space` characters, the set that `char::is_whitespace` uses.
pub open spec fn is_ws(c: char) -> bool {
    ('\u{9}' <= c && c <= '\u{d}') || c == ' ' || c == '\u{85}' || c == '\u{a0}' || c
        == '\u{1680}' || ('\u{2000}' <= c && c <= '\u{200a}') || c == '\u{2028}' || c
        == '\u{2029}' || c == '\u{202f}' || c == '\u{205f}' || c == '\u{3000}'
}

/// The maximal runs of non-whitespace characters of `s`, left to right.
pub open spec fn ws_tokens(s: Seq<char>) -> Seq<Seq<char>>
    decreases s.len(),
{
    if s.len() == 0 {
        seq![]
    } else {
        let t = ws_tokens(s.drop_last());
        let c = s.last();
        if is_ws(c) {
            t
        } else if s.len() >= 2 && !is_ws(s[s.len() - 2]) && t.len() > 0 {
            t.update(t.len() - 1, t.last().push(c))
        } else {
            t.push(seq![c])
        }
    }
}

/// Pieces of `s` between `'\n'` separators; there is always at least one.
pub open spec fn nl_pieces(s: Seq<char>) -> Seq<Seq<char>>
    decreases s.len(),
{
    if s.len() == 0 {
        seq![seq![]]
    } else {
        let p = nl_pieces(s.drop_last());
        if s.last() == '\n' {
            p.push(seq![])
        } else if p.len() > 0 {
            p.update(p.len() - 1, p.last().push(s.last()))
        } else {
            seq![seq![s.last()]]
        }
    }
}

/// A line that ended with `'\n'` loses one trailing `'\r'`.
pub open spec fn strip_cr(l: Seq<char>) -> Seq<char> {
    if l.len() > 0 && l.last() == '\r' {
        l.drop_last()
    } else {
        l
    }
}

/// The lines of `s` as `str::lines` yields them: split at `'\n'`, a `'\r'`
/// before the `'\n'` removed, and no empty line after a final `'\n'`.
pub open spec fn lines_of(s: Seq<char>) -> Seq<Seq<char>> {
    let p = nl_pieces(s);
    let init = p.drop_last().map_values(|l: Seq<char>| strip_cr(l));
    if p.last().len() == 0 {
        init
    } else {
        init.push(p.last())
    }
}

/// `p` occurs in `s` as a contiguous block.
pub open spec fn contains_seq(s: Seq<char>, p: Seq<char>) -> bool {
    exists|i: int| 0 <= i && i + p.len() <= s.len() && #[trigger] s.subrange(i, i + p.len()) == p
}

/// Characters kept by line cleaning: printable ASCII and ASCII whitespace.
pub open spec fn is_kept(c: char) -> bool {
    ('!' <= c && c <= '~') || c == ' ' || c == '\t' || c == '\n' || c == '\u{c}' || c == '\r'
}

/// `s` with every character that is neither printable ASCII nor ASCII whitespace removed.
pub open spec fn cleaned(s: Seq<char>) -> Seq<char>
    decreases s.len(),
{
    if s.len() == 0 {
        seq![]
    } else if is_kept(s.last()) {
        cleaned(s.drop_last()).push(s.last())
    } else {
        cleaned(s.drop_last())
    }
}

pub open spec fn views(v: Seq<String>) -> Seq<Seq<char>> {
    v.map_values(|x: String| x@)
}

fn is_ws_char(c: char) -> (r: bool)
    ensures
        r == is_ws(c),
{
    ('\u{9}' <= c && c <= '\u{d}') || c == ' ' || c == '\u{85}' || c == '\u{a0}' || c
        == '\u{1680}' || ('\u{2000}' <= c && c <= '\u{200a}') || c == '\u{2028}' || c
        == '\u{2029}' || c == '\u{202f}' || c == '\u{205f}' || c == '\u{3000}'
}

/// Splits `s` on whitespace, as `str::split_whitespace` does.
pub fn split_tokens(s: &str) -> (r: Vec<String>)
    ensures
        views(r@) == ws_tokens(s@),
{
    let n = s.unicode_len();
    let mut done: Vec<String> = Vec::new();
    let mut start: usize = 0;
    let mut in_tok = false;
    let mut i: usize = 0;
    while i < n
        invariant
            n == s@.len(),
            i <= n,
            start <= i,
            in_tok == (i > 0 && !is_ws(s@[i - 1])),
            in_tok ==> start < i && ws_tokens(s@.subrange(0, i as int)) == views(done@).push(
                s@.subrange(start as int, i as int),
            ),
            !in_tok ==> ws_tokens(s@.subrange(0, i as int)) == views(done@),
        decreases n - i,
    {
        let c = s.get_char(i);
        let ghost pre = s@.subrange(0, i as int);
        let ghost cur = s@.subrange(0, i + 1);
        assert(cur.drop_last() == pre);
        assert(cur.last() == c);
        if is_ws_char(c) {
            if in_tok {
                let t = s.substring_char(start, i).to_owned();
                let ghost before = done@;
                done.push(t);
                assert(views(done@) =~= views(before).push(t@));
            }
            in_tok = false;
        } else {
            if in_tok {
                proof {
                    assert(cur[cur.len() - 2] == s@[i - 1]);
                    assert(s@.subrange(start as int, i as int).push(c) =~= s@.subrange(
                        start as int,
                        i + 1,
                    ));
                }
            } else {
                start = i;
                assert(seq![c] =~= s@.subrange(i as int, i + 1));
                if i > 0 {
                    assert(cur[cur.len() - 2] == s@[i - 1]);
                }
            }
            in_tok = true;
        }
        i = i + 1;
    }
    assert(s@.subrange(0, n as int) =~= s@);
    if in_tok {
        let t = s.substring_char(start, n).to_owned();
        let ghost before = done@;
        done.push(t);
        assert(views(done@) =~= views(before).push(t@));
    }
    done
}

/// Splits `s` into lines, as `str::lines` does.
pub fn split_lines(s: &str) -> (r: Vec<String>)
    ensures
        views(r@) == lines_of(s@),
{
    let n = s.unicode_len();
    let mut done: Vec<String> = Vec::new();
    let ghost mut raw: Seq<Seq<char>> = seq![];
    let mut start: usize = 0;
    let mut i: usize = 0;
    proof {
        let e = s@.subrange(0, 0);
        assert(e =~= Seq::<char>::empty());
        assert(nl_pieces(e) == seq![e]);
        assert(raw.push(e) =~= seq![e]);
    }
    while i < n
        invariant
            n == s@.len(),
            start <= i <= n,
            nl_pieces(s@.subrange(0, i as int)) == raw.push(s@.subrange(start as int, i as int)),
            views(done@) == raw.map_values(|l: Seq<char>| strip_cr(l)),
        decreases n - i,
    {
        let c = s.get_char(i);
        let ghost cur = s@.subrange(0, i + 1);
        assert(cur.drop_last() == s@.subrange(0, i as int));
        assert(cur.last() == c);
        if c == '\n' {
            let ghost piece = s@.subrange(start as int, i as int);
            let mut end = i;
            if i > start && s.get_char(i - 1) == '\r' {
                end = i - 1;
                assert(piece.drop_last() =~= s@.subrange(start as int, end as int));
            }
            let t = s.substring_char(start, end).to_owned();
            assert(t@ == strip_cr(piece));
            let ghost before = done@;
            done.push(t);
            proof {
                assert(views(done@) =~= views(before).push(t@));
                assert(raw.push(piece).map_values(|l: Seq<char>| strip_cr(l)) =~= raw.map_values(
                    |l: Seq<char>| strip_cr(l),
                ).push(strip_cr(piece)));
                raw = raw.push(piece);
                assert(s@.subrange(i + 1, i + 1) =~= seq![]);
            }
            start = i + 1;
        } else {
            assert(s@.subrange(start as int, i as int).push(c) =~= s@.subrange(start as int, i + 1));
        }
        i = i + 1;
    }
    assert(s@.subrange(0, n as int) =~= s@);
    let ghost p = nl_pieces(s@);
    assert(p.drop_last() =~= raw);
    if start < n {
        let t = s.substring_char(start, n).to_owned();
        let ghost before = done@;
        done.push(t);
        assert(views(done@) =~= views(before).push(t@));
    }
    done
}

/// Whether `p` occurs in `s`.
pub fn contains_text(s: &str, p: &str) -> (r: bool)
    ensures
        r == contains_seq(s@, p@),
{
    let n = s.unicode_len();
    let m = p.unicode_len();
    if m > n {
        return false;
    }
    let mut i: usize = 0;
    while i <= n - m
        invariant
            n == s@.len(),
            m == p@.len(),
            m <= n,
            i <= n - m + 1,
            forall|k: int| 0 <= k < i ==> #[trigger] s@.subrange(k, k + m) != p@,
        decreases n - m + 1 - i,
    {
        let mut j: usize = 0;
        let mut same = true;
        while j < m && same
            invariant
                n == s@.len(),
                m == p@.len(),
                i + m <= n,
                j <= m,
                same == (forall|k: int| 0 <= k < j ==> s@[i + k] == p@[k]),
            decreases m - j,
        {
            if s.get_char(i + j) != p.get_char(j) {
                same = false;
            }
            j = j + 1;
        }
        if same {
            assert(s@.subrange(i as int, i + m) =~= p@);
            return true;
        }
        assert(s@.subrange(i as int, i + m) != p@) by {
            let k = choose|k: int| 0 <= k < j && s@[i + k] != p@[k];
            assert(s@.subrange(i as int, i + m)[k] != p@[k]);
        }
        i = i + 1;
    }
    assert forall|k: int| 0 <= k && k + p@.len() <= s@.len() implies #[trigger] s@.subrange(
        k,
        k + p@.len(),
    ) != p@ by {
        assert(k < i);
    }
    false
}

/// Removes every character that is neither printable ASCII nor ASCII whitespace
/// (escape sequences' introducers, block glyphs of progress bars).
pub fn clean_line(s: &str) -> (r: String)
    ensures
        r@ == cleaned(s@),
{
    let n = s.unicode_len();
    let mut out = String::new();
    let mut i: usize = 0;
    while i < n
        invariant
            n == s@.len(),
            i <= n,
            out@ == cleaned(s@.subrange(0, i as int)),
        decreases n - i,
    {
        let c = s.get_char(i);
        let ghost cur = s@.subrange(0, i + 1);
        assert(cur.drop_last() == s@.subrange(0, i as int));
        assert(cur.last() == c);
        if ('!' <= c && c <= '~') || c == ' ' || c == '\t' || c == '\n' || c == '\u{c}' || c
            == '\r' {
            let one = s.substring_char(i, i + 1);
            assert(one@ =~= seq![c]);
            out.append(one);
        }
        i = i + 1;
    }
    assert(s@.subrange(0, n as int) =~= s@);
    out
}

} // verus!
