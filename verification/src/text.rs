//! Character-level helpers shared by the scanner and the command builders:
//! the whitespace class of the diagnostic stream, runs of (non-)whitespace
//! characters, line trimming, and decimal rendering of port numbers.

use vstd::prelude::*;
use vstd::string::*;

verus! {

/// The blank characters that bound tokens in scheduler log lines.
pub open spec fn is_ws(c: char) -> bool {
    c == ' ' || c == '\t' || c == '\n' || c == '\r' || c == '\x0b' || c == '\x0c'
}

/// Executable test for [`is_ws`].
pub fn ws_char(c: char) -> (r: bool)
    ensures
        r == is_ws(c),
{
    c == ' ' || c == '\t' || c == '\n' || c == '\r' || c == '\x0b' || c == '\x0c'
}

/// First index at or after `i` that is out of range or holds a whitespace
/// character: the end of the non-whitespace run starting at `i`.
pub open spec fn nonws_end(s: Seq<char>, i: int) -> int
    decreases s.len() - i,
{
    if 0 <= i < s.len() && !is_ws(s[i]) {
        nonws_end(s, i + 1)
    } else {
        i
    }
}

/// First index at or after `i` that is out of range or holds a
/// non-whitespace character: the end of the whitespace run starting at `i`.
pub open spec fn ws_end(s: Seq<char>, i: int) -> int
    decreases s.len() - i,
{
    if 0 <= i < s.len() && is_ws(s[i]) {
        ws_end(s, i + 1)
    } else {
        i
    }
}

pub proof fn lemma_nonws_end_bounds(s: Seq<char>, i: int)
    requires
        0 <= i <= s.len(),
    ensures
        i <= nonws_end(s, i) <= s.len(),
        forall|k: int| i <= k < nonws_end(s, i) ==> !is_ws(s[k]),
        nonws_end(s, i) < s.len() ==> is_ws(s[nonws_end(s, i)]),
    decreases s.len() - i,
{
    if 0 <= i < s.len() && !is_ws(s[i]) {
        lemma_nonws_end_bounds(s, i + 1);
    }
}

pub proof fn lemma_ws_end_bounds(s: Seq<char>, i: int)
    requires
        0 <= i <= s.len(),
    ensures
        i <= ws_end(s, i) <= s.len(),
        forall|k: int| i <= k < ws_end(s, i) ==> is_ws(s[k]),
        ws_end(s, i) < s.len() ==> !is_ws(s[ws_end(s, i)]),
    decreases s.len() - i,
{
    if 0 <= i < s.len() && is_ws(s[i]) {
        lemma_ws_end_bounds(s, i + 1);
    }
}

/// Executable [`nonws_end`].
pub fn find_nonws_end(line: &str, i: usize) -> (r: usize)
    requires
        i <= line@.len(),
    ensures
        r == nonws_end(line@, i as int),
        i <= r <= line@.len(),
{
    let n = line.unicode_len();
    let mut j = i;
    while j < n && !ws_char(line.get_char(j))
        invariant
            i <= j <= n,
            n == line@.len(),
            nonws_end(line@, i as int) == nonws_end(line@, j as int),
        decreases n - j,
    {
        j = j + 1;
    }
    proof {
        lemma_nonws_end_bounds(line@, i as int);
    }
    j
}

/// Executable [`ws_end`].
pub fn find_ws_end(line: &str, i: usize) -> (r: usize)
    requires
        i <= line@.len(),
    ensures
        r == ws_end(line@, i as int),
        i <= r <= line@.len(),
{
    let n = line.unicode_len();
    let mut j = i;
    while j < n && ws_char(line.get_char(j))
        invariant
            i <= j <= n,
            n == line@.len(),
            ws_end(line@, i as int) == ws_end(line@, j as int),
        decreases n - j,
    {
        j = j + 1;
    }
    proof {
        lemma_ws_end_bounds(line@, i as int);
    }
    j
}

/// End of a line once trailing whitespace before `j` is dropped: the first
/// index from the right, at or below `j`, whose predecessor is not blank.
pub open spec fn trim_end_idx(s: Seq<char>, j: int) -> int
    decreases j,
{
    if j <= 0 {
        0
    } else if 0 <= j - 1 < s.len() && is_ws(s[j - 1]) {
        trim_end_idx(s, j - 1)
    } else {
        j
    }
}

pub proof fn lemma_trim_end_idx(s: Seq<char>, j: int, p: int)
    requires
        0 <= p < j <= s.len(),
        !is_ws(s[p]),
    ensures
        p < trim_end_idx(s, j) <= j,
        forall|k: int| trim_end_idx(s, j) <= k < j ==> is_ws(s[k]),
    decreases j,
{
    if 0 <= j - 1 < s.len() && is_ws(s[j - 1]) {
        lemma_trim_end_idx(s, j - 1, p);
    }
}

/// A line with its surrounding whitespace removed.
pub open spec fn spec_trim(s: Seq<char>) -> Seq<char> {
    if ws_end(s, 0) == s.len() {
        Seq::empty()
    } else {
        s.subrange(ws_end(s, 0), trim_end_idx(s, s.len() as int))
    }
}

/// Removes leading and trailing whitespace from a line, as [`spec_trim`]
/// describes.
pub fn trim_line(line: &str) -> (t: String)
    ensures
        t@ == spec_trim(line@),
{
    let n = line.unicode_len();
    let a = find_ws_end(line, 0);
    if a == n {
        String::new()
    } else {
        proof {
            lemma_ws_end_bounds(line@, 0);
        }
        let mut b = n;
        while b > a && ws_char(line.get_char(b - 1))
            invariant
                a < b <= n,
                n == line@.len(),
                a == ws_end(line@, 0) < n,
                !is_ws(line@[a as int]),
                trim_end_idx(line@, n as int) == trim_end_idx(line@, b as int),
            decreases b,
        {
            b = b - 1;
        }
        proof {
            lemma_trim_end_idx(line@, n as int, a as int);
        }
        String::from_str(line.substring_char(a, b))
    }
}

/// The decimal digit `d` as a character.
pub open spec fn digit_char(d: nat) -> char {
    if d == 0 {
        '0'
    } else if d == 1 {
        '1'
    } else if d == 2 {
        '2'
    } else if d == 3 {
        '3'
    } else if d == 4 {
        '4'
    } else if d == 5 {
        '5'
    } else if d == 6 {
        '6'
    } else if d == 7 {
        '7'
    } else if d == 8 {
        '8'
    } else {
        '9'
    }
}

/// The usual decimal rendering of `n`, most significant digit first, with
/// no leading zeros (a single `'0'` for zero itself).
pub open spec fn dec_str(n: nat) -> Seq<char>
    decreases n,
{
    if n < 10 {
        seq![digit_char(n)]
    } else {
        dec_str(n / 10).push(digit_char(n % 10))
    }
}

fn digit_str(d: u8) -> (r: &'static str)
    requires
        d < 10,
    ensures
        r@ == seq![digit_char(d as nat)],
{
    proof {
        reveal_strlit("0");
        reveal_strlit("1");
        reveal_strlit("2");
        reveal_strlit("3");
        reveal_strlit("4");
        reveal_strlit("5");
        reveal_strlit("6");
        reveal_strlit("7");
        reveal_strlit("8");
        reveal_strlit("9");
    }
    let r: &'static str = if d == 0 {
        "0"
    } else if d == 1 {
        "1"
    } else if d == 2 {
        "2"
    } else if d == 3 {
        "3"
    } else if d == 4 {
        "4"
    } else if d == 5 {
        "5"
    } else if d == 6 {
        "6"
    } else if d == 7 {
        "7"
    } else if d == 8 {
        "8"
    } else {
        "9"
    };
    proof {
        assert(r@ =~= seq![digit_char(d as nat)]);
    }
    r
}

/// Renders a port number in decimal, as [`dec_str`] describes.
pub fn u16_dec(n: u16) -> (s: String)
    ensures
        s@ == dec_str(n as nat),
    decreases n,
{
    if n < 10 {
        String::from_str(digit_str(n as u8))
    } else {
        let mut s = u16_dec(n / 10);
        s.append(digit_str((n % 10) as u8));
        proof {
            assert(s@ =~= dec_str(n as nat));
        }
        s
    }
}

} // verus!
