//! Text helpers over character sequences: substring search and the last line
//! of a text.
use vstd::prelude::*;

verus! {

/// `pat` occurs in `s` starting at position `i`.
pub open spec fn matches_at(s: Seq<char>, pat: Seq<char>, i: int) -> bool {
    0 <= i && i + pat.len() <= s.len() && s.subrange(i, i + pat.len()) == pat
}

/// `pat` occurs somewhere in `s`.
pub open spec fn contains(s: Seq<char>, pat: Seq<char>) -> bool {
    exists|i: int| #[trigger] matches_at(s, pat, i)
}

/// Where the line that ends at `end` (exclusive) begins: just after the
/// nearest newline before `end`, or at the start of the text.
pub open spec fn line_start(s: Seq<char>, end: int) -> int
    decreases end,
{
    if end <= 0 {
        0
    } else if s[end - 1] == '\n' {
        end
    } else {
        line_start(s, end - 1)
    }
}

/// The last line of `s`, with lines ended by `\n` or `\r\n` and the final line
/// ending optional; `None` for the empty text, which has no lines.
pub open spec fn last_line(s: Seq<char>) -> Option<Seq<char>> {
    if s.len() == 0 {
        None
    } else {
        let terminated = s.last() == '\n';
        let end = if terminated { s.len() - 1 } else { s.len() as int };
        let line = s.subrange(line_start(s, end), end);
        if terminated && line.len() > 0 && line.last() == '\r' {
            Some(line.drop_last())
        } else {
            Some(line)
        }
    }
}

/// The characters of a string, in order.
pub fn chars_of(s: &str) -> (r: Vec<char>)
    ensures
        r@ == s@,
{
    let n = s.unicode_len();
    let mut r: Vec<char> = Vec::new();
    let mut i: usize = 0;
    while i < n
        invariant
            n == s@.len(),
            i <= n,
            r@ == s@.subrange(0, i as int),
        decreases n - i,
    {
        r.push(s.get_char(i));
        assert(r@ == s@.subrange(0, i + 1));
        i = i + 1;
    }
    assert(s@ == s@.subrange(0, n as int));
    r
}

/// The characters of `c` from `lo` up to `hi`.
fn slice_of(c: &Vec<char>, lo: usize, hi: usize) -> (r: Vec<char>)
    requires
        lo <= hi <= c@.len(),
    ensures
        r@ == c@.subrange(lo as int, hi as int),
{
    let mut r: Vec<char> = Vec::new();
    let mut i: usize = lo;
    while i < hi
        invariant
            lo <= i <= hi,
            hi <= c@.len(),
            r@ == c@.subrange(lo as int, i as int),
        decreases hi - i,
    {
        r.push(c[i]);
        assert(r@ == c@.subrange(lo as int, i + 1));
        i = i + 1;
    }
    r
}

/// Whether `pat` occurs in `s` at position `i`.
fn matches_here(s: &Vec<char>, pat: &Vec<char>, i: usize) -> (r: bool)
    requires
        i + pat@.len() <= s@.len(),
    ensures
        r == matches_at(s@, pat@, i as int),
{
    let mut k: usize = 0;
    while k < pat.len()
        invariant
            i + pat@.len() <= s@.len(),
            k <= pat@.len(),
            forall|t: int| 0 <= t < k ==> s@[i + t] == pat@[t],
        decreases pat.len() - k,
    {
        let sl: usize = s.len();
        assert(i + k < sl);
        if s[i + k] != pat[k] {
            assert(s@.subrange(i as int, i + pat@.len())[k as int] != pat@[k as int]);
            return false;
        }
        k = k + 1;
    }
    assert(s@.subrange(i as int, i + pat@.len()) =~= pat@);
    true
}

/// Whether `pat` occurs anywhere in `s`.
pub fn seq_contains(s: &Vec<char>, pat: &Vec<char>) -> (r: bool)
    ensures
        r == contains(s@, pat@),
{
    if pat.len() > s.len() {
        return false;
    }
    let last = s.len() - pat.len();
    let mut i: usize = 0;
    loop
        invariant
            last == s@.len() - pat@.len(),
            i <= last,
            forall|j: int| 0 <= j < i ==> !matches_at(s@, pat@, j),
        decreases last - i,
    {
        if matches_here(s, pat, i) {
            return true;
        }
        if i == last {
            return false;
        }
        i = i + 1;
    }
}

/// The last line of the text, as `last_line` describes it.
pub fn last_line_of(c: &Vec<char>) -> (r: Option<Vec<char>>)
    ensures
        match r {
            Some(l) => last_line(c@) == Some(l@),
            None => last_line(c@) is None,
        },
{
    let n = c.len();
    if n == 0 {
        return None;
    }
    let terminated = c[n - 1] == '\n';
    let end: usize = if terminated { n - 1 } else { n };
    let mut j: usize = end;
    while j > 0 && c[j - 1] != '\n'
        invariant
            j <= end <= n == c@.len(),
            line_start(c@, end as int) == line_start(c@, j as int),
        decreases j,
    {
        j = j - 1;
    }
    let mut line = slice_of(c, j, end);
    if terminated && line.len() > 0 && line[line.len() - 1] == '\r' {
        line.pop();
    }
    Some(line)
}

} // verus!
