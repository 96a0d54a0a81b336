//! Classification of one line of a model pull's error stream: a progress
//! record, an informational status, or an error.
use vstd::prelude::*;
use crate::text::{contains_seq, contains_text, split_tokens, views, ws_tokens};

verus! {

/// One snapshot of a pull's progress, taken from a single output line.
/// `percent` is the decimal text before the `%` sign, such as `42` or `42.5`.
pub struct DownloadProgress {
    pub percent: String,
    pub downloaded: String,
    pub total: String,
    pub speed: Option<String>,
    pub eta: Option<String>,
}

/// The mathematical value of a [`DownloadProgress`].
pub struct ProgressModel {
    pub percent: Seq<char>,
    pub downloaded: Seq<char>,
    pub total: Seq<char>,
    pub speed: Option<Seq<char>>,
    pub eta: Option<Seq<char>>,
}

pub open spec fn opt_view(o: Option<String>) -> Option<Seq<char>> {
    match o {
        Some(s) => Some(s@),
        None => None,
    }
}

impl View for DownloadProgress {
    type V = ProgressModel;

    open spec fn view(&self) -> ProgressModel {
        ProgressModel {
            percent: self.percent@,
            downloaded: self.downloaded@,
            total: self.total@,
            speed: opt_view(self.speed),
            eta: opt_view(self.eta),
        }
    }
}

/// What a line of the pull's error stream means.
pub enum LineClass {
    Informational,
    Progress(DownloadProgress),
    Error(String),
}

/// The mathematical value of a [`LineClass`].
pub enum LineKind {
    Informational,
    Progress(ProgressModel),
    Error(Seq<char>),
}

impl View for LineClass {
    type V = LineKind;

    open spec fn view(&self) -> LineKind {
        match self {
            LineClass::Informational => LineKind::Informational,
            LineClass::Progress(p) => LineKind::Progress(p@),
            LineClass::Error(e) => LineKind::Error(e@),
        }
    }
}

pub open spec fn is_digit(c: char) -> bool {
    '0' <= c && c <= '9'
}

/// Decimal text: digits with at most one `.`, and at least one digit.
pub open spec fn is_decimal(t: Seq<char>) -> bool {
    &&& forall|k: int| 0 <= k < t.len() ==> is_digit(#[trigger] t[k]) || t[k] == '.'
    &&& forall|a: int, b: int| 0 <= a < b < t.len() ==> !(#[trigger] t[a] == '.' && #[trigger] t[b] == '.')
    &&& exists|k: int| 0 <= k < t.len() && is_digit(#[trigger] t[k])
}

pub open spec fn has_dot(t: Seq<char>) -> bool {
    exists|k: int| 0 <= k < t.len() && t[k] == '.'
}

pub open spec fn digit_value(c: char) -> nat {
    ((c as u32) - ('0' as u32)) as nat
}

/// The value of the digits before the `.` (all digits when there is none).
pub open spec fn whole_value(t: Seq<char>) -> nat
    decreases t.len(),
{
    if t.len() == 0 {
        0
    } else if has_dot(t.drop_last()) || !is_digit(t.last()) {
        whole_value(t.drop_last())
    } else {
        whole_value(t.drop_last()) * 10 + digit_value(t.last())
    }
}

/// Some digit after the `.` is not zero.
pub open spec fn fraction_nonzero(t: Seq<char>) -> bool {
    exists|a: int, b: int| 0 <= a < b < t.len() && t[a] == '.' && t[b] != '0'
}

/// A percentage: decimal text whose value lies between 0 and 100.
pub open spec fn is_percentage(t: Seq<char>) -> bool {
    &&& is_decimal(t)
    &&& whole_value(t) < 100 || (whole_value(t) == 100 && !fraction_nonzero(t))
}

pub open spec fn ends_with_percent(t: Seq<char>) -> bool {
    t.len() > 0 && t.last() == '%'
}

/// Index of the first token at or after `i` that ends with `%`.
pub open spec fn first_percent(toks: Seq<Seq<char>>, i: int) -> Option<int>
    decreases toks.len() - i,
{
    if i < 0 || i >= toks.len() {
        None
    } else if ends_with_percent(toks[i]) {
        Some(i)
    } else {
        first_percent(toks, i + 1)
    }
}

pub open spec fn opt_token(toks: Seq<Seq<char>>, j: int) -> Option<Seq<char>> {
    if 0 <= j < toks.len() {
        Some(toks[j])
    } else {
        None
    }
}

/// The record read at the `%` token `i`: the token after it is the downloaded
/// amount, the third after it the total, the fourth and fifth (if present)
/// the speed and the remaining time.
pub open spec fn progress_at(toks: Seq<Seq<char>>, i: int) -> Option<ProgressModel> {
    let pct = toks[i].drop_last();
    if is_percentage(pct) && i + 3 < toks.len() {
        Some(
            ProgressModel {
                percent: pct,
                downloaded: toks[i + 1],
                total: toks[i + 3],
                speed: opt_token(toks, i + 4),
                eta: opt_token(toks, i + 5),
            },
        )
    } else {
        None
    }
}

/// The progress record of a line: read at its first `%` token, if that parses.
pub open spec fn progress_of(line: Seq<char>) -> Option<ProgressModel> {
    let toks = ws_tokens(line);
    match first_percent(toks, 0) {
        Some(i) => progress_at(toks, i),
        None => None,
    }
}

/// Status phrases of a pull that are not failures.
pub open spec fn is_benign_status(line: Seq<char>) -> bool {
    contains_seq(line, "writing manifest"@) || contains_seq(line, "verifying"@) || contains_seq(
        line,
        "success"@,
    )
}

/// How a cleaned line is classified. A line with a `%` token is progress when
/// its record parses and informational otherwise; a line without one is
/// informational when empty or a benign status, and an error carrying the
/// whole line otherwise.
pub open spec fn classify(line: Seq<char>) -> LineKind {
    let toks = ws_tokens(line);
    if first_percent(toks, 0) is Some {
        match progress_of(line) {
            Some(p) => LineKind::Progress(p),
            None => LineKind::Informational,
        }
    } else if line.len() == 0 || is_benign_status(line) {
        LineKind::Informational
    } else {
        LineKind::Error(line)
    }
}

fn is_decimal_text(t: &str) -> (r: bool)
    ensures
        r == is_decimal(t@),
{
    let n = t.unicode_len();
    let mut seen_dot = false;
    let mut seen_digit = false;
    let mut i: usize = 0;
    while i < n
        invariant
            n == t@.len(),
            i <= n,
            forall|k: int| 0 <= k < i ==> is_digit(#[trigger] t@[k]) || t@[k] == '.',
            forall|a: int, b: int| 0 <= a < b < i ==> !(#[trigger] t@[a] == '.' && #[trigger] t@[b] == '.'),
            seen_dot == (exists|k: int| 0 <= k < i && #[trigger] t@[k] == '.'),
            seen_digit == (exists|k: int| 0 <= k < i && is_digit(#[trigger] t@[k])),
        decreases n - i,
    {
        let c = t.get_char(i);
        if '0' <= c && c <= '9' {
            seen_digit = true;
        } else if c == '.' {
            if seen_dot {
                return false;
            }
            seen_dot = true;
        } else {
            return false;
        }
        i = i + 1;
    }
    seen_digit
}

fn is_percentage_text(t: &str) -> (r: bool)
    ensures
        r == is_percentage(t@),
{
    if !is_decimal_text(t) {
        return false;
    }
    let n = t.unicode_len();
    let mut v: u32 = 0;
    let mut seen_dot = false;
    let mut nonzero = false;
    let mut i: usize = 0;
    proof {
        let e = t@.subrange(0, 0);
        assert(!has_dot(e));
        assert(!fraction_nonzero(e));
    }
    while i < n
        invariant
            n == t@.len(),
            i <= n,
            is_decimal(t@),
            whole_value(t@.subrange(0, i as int)) >= 1000 ==> v == 1000,
            whole_value(t@.subrange(0, i as int)) < 1000 ==> v == whole_value(
                t@.subrange(0, i as int),
            ),
            seen_dot == has_dot(t@.subrange(0, i as int)),
            nonzero == fraction_nonzero(t@.subrange(0, i as int)),
        decreases n - i,
    {
        let c = t.get_char(i);
        let ghost p = t@.subrange(0, i as int);
        let ghost q = t@.subrange(0, i + 1);
        proof {
            assert(q.drop_last() =~= p);
            assert(q.last() == c);
            assert(is_digit(c) || c == '.');
            if has_dot(p) {
                let k = choose|k: int| 0 <= k < p.len() && p[k] == '.';
                assert(q[k] == '.');
            }
            if c == '.' {
                assert(q[i as int] == '.');
            }
            if has_dot(q) {
                let k = choose|k: int| 0 <= k < q.len() && q[k] == '.';
                if k < i {
                    assert(p[k] == '.');
                }
            }
            if fraction_nonzero(p) {
                let (a, b) = choose|a: int, b: int|
                    0 <= a < b < p.len() && p[a] == '.' && p[b] != '0';
                assert(q[a] == '.' && q[b] != '0');
            }
            if has_dot(p) && c != '0' {
                let k = choose|k: int| 0 <= k < p.len() && p[k] == '.';
                assert(q[k] == '.' && q[i as int] != '0');
            }
            if fraction_nonzero(q) {
                let (a, b) = choose|a: int, b: int|
                    0 <= a < b < q.len() && q[a] == '.' && q[b] != '0';
                if b < i {
                    assert(p[a] == '.' && p[b] != '0');
                } else {
                    assert(p[a] == '.');
                }
            }
        }
        if seen_dot && c != '0' {
            nonzero = true;
        }
        if c == '.' {
            seen_dot = true;
        } else if !seen_dot {
            let d = (c as u32) - ('0' as u32);
            if v >= 100 {
                v = 1000;
            } else {
                v = v * 10 + d;
            }
        }
        i = i + 1;
    }
    assert(t@.subrange(0, n as int) =~= t@);
    v < 100 || (v == 100 && !nonzero)
}

fn token_at(toks: &Vec<String>, i: usize, k: usize) -> (r: Option<String>)
    requires
        i < toks.len(),
    ensures
        opt_view(r) == opt_token(views(toks@), i + k),
{
    if k < toks.len() - i {
        Some(toks[i + k].clone())
    } else {
        None
    }
}

/// Reads the progress record of a line at its first `%` token.
pub fn parse_progress(line: &str) -> (r: Option<DownloadProgress>)
    ensures
        match r {
            Some(p) => progress_of(line@) == Some(p@),
            None => progress_of(line@) is None,
        },
{
    let toks = split_tokens(line);
    let ghost tv = views(toks@);
    let mut i: usize = 0;
    while i < toks.len()
        invariant
            tv == views(toks@),
            tv == ws_tokens(line@),
            tv.len() == toks@.len(),
            i <= toks.len(),
            first_percent(tv, 0) == first_percent(tv, i as int),
        decreases toks.len() - i,
    {
        let t = toks[i].as_str();
        let n = t.unicode_len();
        assert(t@ == tv[i as int]);
        if n > 0 && t.get_char(n - 1) == '%' {
            let pct = t.substring_char(0, n - 1);
            assert(pct@ =~= tv[i as int].drop_last());
            assert(first_percent(tv, i as int) == Some(i as int));
            if is_percentage_text(pct) && toks.len() - i > 3 {
                let p = DownloadProgress {
                    percent: pct.to_owned(),
                    downloaded: toks[i + 1].clone(),
                    total: toks[i + 3].clone(),
                    speed: token_at(&toks, i, 4),
                    eta: token_at(&toks, i, 5),
                };
                assert(p@ == progress_at(tv, i as int).unwrap());
                return Some(p);
            }
            return None;
        }
        i = i + 1;
    }
    None
}

/// Classifies one line of a pull's error stream (already cleaned of control
/// characters).
pub fn classify_line(line: &str) -> (r: LineClass)
    ensures
        r@ == classify(line@),
{
    let toks = split_tokens(line);
    let ghost tv = views(toks@);
    let mut has_percent = false;
    let mut i: usize = 0;
    while i < toks.len()
        invariant
            tv == views(toks@),
            tv == ws_tokens(line@),
            tv.len() == toks@.len(),
            i <= toks.len(),
            !has_percent ==> first_percent(tv, 0) == first_percent(tv, i as int),
            has_percent ==> first_percent(tv, 0) is Some,
        decreases toks.len() - i,
    {
        let t = toks[i].as_str();
        let n = t.unicode_len();
        assert(t@ == tv[i as int]);
        if !has_percent && n > 0 && t.get_char(n - 1) == '%' {
            has_percent = true;
        }
        i = i + 1;
    }
    if has_percent {
        match parse_progress(line) {
            Some(p) => LineClass::Progress(p),
            None => LineClass::Informational,
        }
    } else if line.unicode_len() == 0 || contains_text(line, "writing manifest") || contains_text(
        line,
        "verifying",
    ) || contains_text(line, "success") {
        LineClass::Informational
    } else {
        LineClass::Error(line.to_owned())
    }
}

proof fn lemma_first_percent_found(toks: Seq<Seq<char>>, j: int, i: int)
    requires
        0 <= j <= i < toks.len(),
        ends_with_percent(toks[i]),
        forall|k: int| 0 <= k < i ==> !ends_with_percent(#[trigger] toks[k]),
    ensures
        first_percent(toks, j) == Some(i),
    decreases i - j,
{
    if j < i {
        lemma_first_percent_found(toks, j + 1, i);
    }
}

proof fn lemma_first_percent_absent(toks: Seq<Seq<char>>, j: int)
    requires
        0 <= j,
        forall|k: int| 0 <= k < toks.len() ==> !ends_with_percent(#[trigger] toks[k]),
    ensures
        first_percent(toks, j) is None,
    decreases toks.len() - j,
{
    if j < toks.len() {
        lemma_first_percent_absent(toks, j + 1);
    }
}

/// A line whose first `%` token `i` carries a percentage from 0 to 100 and has at least three
/// tokens after it is progress: the percentage is that token without its
/// `%`, the downloaded amount the token at `i + 1`, the total the one at
/// `i + 3`, and speed and remaining time those at `i + 4` and `i + 5` when
/// present.
pub proof fn lemma_percent_line_is_progress(line: Seq<char>, i: int)
    requires
        0 <= i,
        i + 3 < ws_tokens(line).len(),
        ends_with_percent(ws_tokens(line)[i]),
        forall|k: int| 0 <= k < i ==> !ends_with_percent(#[trigger] ws_tokens(line)[k]),
        is_percentage(ws_tokens(line)[i].drop_last()),
    ensures
        ({
            let toks = ws_tokens(line);
            classify(line) == LineKind::Progress(
                ProgressModel {
                    percent: toks[i].drop_last(),
                    downloaded: toks[i + 1],
                    total: toks[i + 3],
                    speed: if i + 4 < toks.len() {
                        Some(toks[i + 4])
                    } else {
                        None
                    },
                    eta: if i + 5 < toks.len() {
                        Some(toks[i + 5])
                    } else {
                        None
                    },
                },
            )
        }),
{
    lemma_first_percent_found(ws_tokens(line), 0, i);
}

/// A line with no `%` token that mentions writing the manifest, verifying or
/// success is informational, never an error.
pub proof fn lemma_status_line_is_informational(line: Seq<char>)
    requires
        forall|k: int| 0 <= k < ws_tokens(line).len() ==> !ends_with_percent(#[trigger] ws_tokens(line)[k]),
        contains_seq(line, "writing manifest"@) || contains_seq(line, "verifying"@)
            || contains_seq(line, "success"@),
    ensures
        classify(line) == LineKind::Informational,
{
    lemma_first_percent_absent(ws_tokens(line), 0);
}

/// A non-empty line with no `%` token and none of the status phrases is an
/// error whose message is the line itself.
pub proof fn lemma_other_line_is_error(line: Seq<char>)
    requires
        line.len() > 0,
        forall|k: int| 0 <= k < ws_tokens(line).len() ==> !ends_with_percent(#[trigger] ws_tokens(line)[k]),
        !contains_seq(line, "writing manifest"@),
        !contains_seq(line, "verifying"@),
        !contains_seq(line, "success"@),
    ensures
        classify(line) == LineKind::Error(line),
{
    lemma_first_percent_absent(ws_tokens(line), 0);
}

} // verus!
