//! The discovery state machine: line patterns for the granted node and the
//! notebook credential, the write-once `DiscoveryState`, and the scanning
//! loop that drives it to completion over a stream of diagnostic lines.
//!
//! A node announcement is a line holding the marker word `Nodes` followed
//! by whitespace and a token; a credential announcement is a line holding
//! `token=` immediately followed by a token. A token is a maximal run of
//! non-whitespace characters. When a line holds several announcements of
//! one kind, the rightmost one wins.

use vstd::prelude::*;
use vstd::string::*;
use crate::text::{is_ws, ws_char, nonws_end, ws_end, find_nonws_end, find_ws_end, spec_trim,
    trim_line};

verus! {

/// `m` occurs in `s` starting at index `i`.
pub open spec fn marker_at(s: Seq<char>, m: Seq<char>, i: int) -> bool {
    0 <= i && i + m.len() <= s.len() && s.subrange(i, i + m.len()) == m
}

/// The marker word of a node announcement.
pub open spec fn node_marker() -> Seq<char> {
    seq!['N', 'o', 'd', 'e', 's']
}

/// The marker of a credential announcement.
pub open spec fn token_marker() -> Seq<char> {
    seq!['t', 'o', 'k', 'e', 'n', '=']
}

/// A node announcement matches at `i`: the marker word, at least one
/// whitespace character, then at least one non-whitespace character.
pub open spec fn node_match_at(s: Seq<char>, i: int) -> bool {
    &&& marker_at(s, node_marker(), i)
    &&& i + node_marker().len() < s.len()
    &&& is_ws(s[i + node_marker().len()])
    &&& ws_end(s, i + node_marker().len()) < s.len()
}

/// The node name captured by a match at `i`: the maximal non-whitespace
/// run after the whitespace that follows the marker.
pub open spec fn node_capture_at(s: Seq<char>, i: int) -> Seq<char> {
    s.subrange(
        ws_end(s, i + node_marker().len()),
        nonws_end(s, ws_end(s, i + node_marker().len())),
    )
}

/// A credential announcement matches at `i`: the marker immediately
/// followed by at least one non-whitespace character.
pub open spec fn token_match_at(s: Seq<char>, i: int) -> bool {
    &&& marker_at(s, token_marker(), i)
    &&& i + token_marker().len() < s.len()
    &&& !is_ws(s[i + token_marker().len()])
}

/// The credential captured by a match at `i`: the maximal non-whitespace
/// run right after the marker.
pub open spec fn token_capture_at(s: Seq<char>, i: int) -> Seq<char> {
    s.subrange(i + token_marker().len(), nonws_end(s, i + token_marker().len()))
}

/// The capture of the rightmost node match strictly before `i`, if any.
pub open spec fn node_capture_upto(s: Seq<char>, i: int) -> Option<Seq<char>>
    decreases i,
{
    if i <= 0 {
        None
    } else if node_match_at(s, i - 1) {
        Some(node_capture_at(s, i - 1))
    } else {
        node_capture_upto(s, i - 1)
    }
}

/// What the node pattern captures on `s`: the rightmost match, if any.
pub open spec fn node_capture(s: Seq<char>) -> Option<Seq<char>> {
    node_capture_upto(s, s.len() as int)
}

/// The capture of the rightmost credential match strictly before `i`.
pub open spec fn token_capture_upto(s: Seq<char>, i: int) -> Option<Seq<char>>
    decreases i,
{
    if i <= 0 {
        None
    } else if token_match_at(s, i - 1) {
        Some(token_capture_at(s, i - 1))
    } else {
        token_capture_upto(s, i - 1)
    }
}

/// What the credential pattern captures on `s`: the rightmost match.
pub open spec fn token_capture(s: Seq<char>) -> Option<Seq<char>> {
    token_capture_upto(s, s.len() as int)
}

fn has_marker_at(line: &str, marker: &str, i: usize) -> (r: bool)
    requires
        i <= line@.len(),
    ensures
        r == marker_at(line@, marker@, i as int),
{
    let n = line.unicode_len();
    let m = marker.unicode_len();
    if m > n - i {
        return false;
    }
    let mut k: usize = 0;
    while k < m
        invariant
            i + m <= n,
            n == line@.len(),
            m == marker@.len(),
            k <= m,
            forall|l: int| 0 <= l < k ==> line@[i + l] == marker@[l],
        decreases m - k,
    {
        if line.get_char(i + k) != marker.get_char(k) {
            proof {
                assert(line@.subrange(i as int, i + m as int)[k as int] == line@[i + k]);
            }
            return false;
        }
        k = k + 1;
    }
    proof {
        assert(line@.subrange(i as int, i + m as int) =~= marker@);
    }
    true
}

fn node_match_here(line: &str, i: usize) -> (r: bool)
    requires
        i < line@.len(),
    ensures
        r == node_match_at(line@, i as int),
{
    proof {
        reveal_strlit("Nodes");
        assert("Nodes"@ =~= node_marker());
    }
    let n = line.unicode_len();
    if !has_marker_at(line, "Nodes", i) {
        return false;
    }
    if n - i <= 5 {
        return false;
    }
    if !ws_char(line.get_char(i + 5)) {
        return false;
    }
    let k = find_ws_end(line, i + 5);
    k < n
}

fn token_match_here(line: &str, i: usize) -> (r: bool)
    requires
        i < line@.len(),
    ensures
        r == token_match_at(line@, i as int),
{
    proof {
        reveal_strlit("token=");
        assert("token="@ =~= token_marker());
    }
    let n = line.unicode_len();
    if !has_marker_at(line, "token=", i) {
        return false;
    }
    if n - i <= 6 {
        return false;
    }
    !ws_char(line.get_char(i + 6))
}

/// Applies the node pattern to one line, capturing exactly the token that
/// follows the rightmost marker, as [`node_capture`] describes.
pub fn find_node_capture(line: &str) -> (r: Option<String>)
    ensures
        r.deep_view() == node_capture(line@),
{
    let n = line.unicode_len();
    let mut i = n;
    while i > 0
        invariant
            i <= n,
            n == line@.len(),
            node_capture_upto(line@, n as int) == node_capture_upto(line@, i as int),
        decreases i,
    {
        if node_match_here(line, i - 1) {
            let k = find_ws_end(line, i - 1 + 5);
            let e = find_nonws_end(line, k);
            let cap = String::from_str(line.substring_char(k, e));
            return Some(cap);
        }
        i = i - 1;
    }
    None
}

/// Applies the credential pattern to one line, capturing exactly the token
/// glued to the rightmost marker, as [`token_capture`] describes.
pub fn find_token_capture(line: &str) -> (r: Option<String>)
    ensures
        r.deep_view() == token_capture(line@),
{
    let n = line.unicode_len();
    let mut i = n;
    while i > 0
        invariant
            i <= n,
            n == line@.len(),
            token_capture_upto(line@, n as int) == token_capture_upto(line@, i as int),
        decreases i,
    {
        if token_match_here(line, i - 1) {
            let e = find_nonws_end(line, i - 1 + 6);
            let cap = String::from_str(line.substring_char(i - 1 + 6, e));
            return Some(cap);
        }
        i = i - 1;
    }
    None
}

/// Ghost image of a [`DiscoveryState`]: the two facts as character
/// sequences.
pub ghost struct ScanView {
    pub node: Option<Seq<char>>,
    pub credential: Option<Seq<char>>,
}

/// Both facts are known; the scanning phase may end.
pub open spec fn scan_complete(v: ScanView) -> bool {
    v.node is Some && v.credential is Some
}

/// The state just before scanning starts: no node yet, and the credential
/// only if configuration supplied one ahead of time.
pub open spec fn initial_view(pre_known: Option<Seq<char>>) -> ScanView {
    ScanView { node: None, credential: pre_known }
}

/// One scanning step: each still-empty fact takes what its pattern
/// captures on the line; a populated fact is never overwritten.
pub open spec fn scan_step(v: ScanView, line: Seq<char>) -> ScanView {
    ScanView {
        node: if v.node is Some {
            v.node
        } else {
            node_capture(line)
        },
        credential: if v.credential is Some {
            v.credential
        } else {
            token_capture(line)
        },
    }
}

/// The state after scanning a whole sequence of lines.
pub open spec fn scan_fold(v: ScanView, lines: Seq<Seq<char>>) -> ScanView
    decreases lines.len(),
{
    if lines.len() == 0 {
        v
    } else {
        scan_fold(scan_step(v, lines[0]), lines.drop_first())
    }
}

/// The discovery loop as a function: starting from `v`, consume lines
/// until the state is complete. `Some((w, n))` means the loop stops in
/// state `w` having consumed the first `n` lines; `None` means the stream
/// ended while a fact was still missing.
pub open spec fn spec_discover(v: ScanView, lines: Seq<Seq<char>>) -> Option<(ScanView, int)>
    decreases lines.len(),
{
    if scan_complete(v) {
        Some((v, 0))
    } else if lines.len() == 0 {
        None
    } else {
        match spec_discover(scan_step(v, lines[0]), lines.drop_first()) {
            Some(p) => Some((p.0, p.1 + 1)),
            None => None,
        }
    }
}

/// A discovery outcome with its consumed-line count shifted by `d`: how an
/// outcome over a suffix of the stream reads over the whole stream.
pub open spec fn offset_discover(r: Option<(ScanView, int)>, d: int) -> Option<(ScanView, int)> {
    match r {
        Some(p) => Some((p.0, p.1 + d)),
        None => None,
    }
}

/// What a non-empty line is echoed as: its trimmed text, or nothing when
/// only whitespace remains.
pub open spec fn echo_of(line: Seq<char>) -> Option<Seq<char>> {
    if spec_trim(line).len() == 0 {
        None
    } else {
        Some(spec_trim(line))
    }
}

/// The discovery facts, each settable exactly once and never cleared.
#[derive(Clone, Debug, PartialEq)]
pub struct DiscoveryState {
    /// Name of the host the scheduler granted.
    pub node_identifier: Option<String>,
    /// Access token of the notebook server.
    pub credential: Option<String>,
}

impl View for DiscoveryState {
    type V = ScanView;

    open spec fn view(&self) -> ScanView {
        ScanView {
            node: self.node_identifier.deep_view(),
            credential: self.credential.deep_view(),
        }
    }
}

/// What scanning one line asks the caller to show the user: the echoed
/// line, and a confirmation for each fact the line newly settled.
pub struct LineOutcome {
    /// The trimmed line, when anything of it remains to echo.
    pub echo: Option<String>,
    /// The node name, when this line set it.
    pub node_found: Option<String>,
    /// The credential, when this line set it.
    pub credential_found: Option<String>,
}

/// Scanning failed: the stream ended while a fact was still missing.
#[derive(Clone, Copy, Debug, PartialEq, Eq, Structural)]
pub enum DiscoveryError {
    StreamEnded,
}

impl DiscoveryState {
    /// The state scanning starts from, with the credential pre-populated
    /// when configuration already knows it.
    pub fn new(pre_known_credential: Option<String>) -> (st: Self)
        ensures
            st@ == initial_view(pre_known_credential.deep_view()),
    {
        DiscoveryState { node_identifier: None, credential: pre_known_credential }
    }

    /// Both facts are populated.
    pub fn is_complete(&self) -> (r: bool)
        ensures
            r == scan_complete(self@),
    {
        self.node_identifier.is_some() && self.credential.is_some()
    }

    /// Scans one diagnostic line: applies both patterns independently,
    /// fills each fact at most once, and reports what to show the user.
    pub fn process_line(&mut self, line: &str) -> (out: LineOutcome)
        ensures
            final(self)@ == scan_step(old(self)@, line@),
            out.echo.deep_view() == echo_of(line@),
            out.node_found.deep_view() == (if old(self)@.node is None {
                node_capture(line@)
            } else {
                None::<Seq<char>>
            }),
            out.credential_found.deep_view() == (if old(self)@.credential is None {
                token_capture(line@)
            } else {
                None::<Seq<char>>
            }),
    {
        let trimmed = trim_line(line);
        let echo = if trimmed.as_str().unicode_len() > 0 {
            Some(trimmed)
        } else {
            None
        };
        let mut node_found: Option<String> = None;
        if self.node_identifier.is_none() {
            match find_node_capture(line) {
                Some(name) => {
                    self.node_identifier = Some(name.clone());
                    node_found = Some(name);
                },
                None => {},
            }
        }
        let mut credential_found: Option<String> = None;
        if self.credential.is_none() {
            match find_token_capture(line) {
                Some(tok) => {
                    self.credential = Some(tok.clone());
                    credential_found = Some(tok);
                },
                None => {},
            }
        }
        LineOutcome { echo, node_found, credential_found }
    }
}

/// Runs the whole discovery phase over a fixed sequence of lines: scans
/// line after line until both facts are known, and fails exactly when the
/// lines run out first, as [`spec_discover`] describes. On success the
/// returned count says how many lines were consumed.
pub fn run_discovery(pre_known_credential: Option<String>, lines: &Vec<String>) -> (r: Result<
    (DiscoveryState, usize),
    DiscoveryError,
>)
    ensures
        match r {
            Ok(p) => spec_discover(
                initial_view(pre_known_credential.deep_view()),
                lines.deep_view(),
            ) == Some((p.0@, p.1 as int)),
            Err(e) => {
                &&& spec_discover(
                    initial_view(pre_known_credential.deep_view()),
                    lines.deep_view(),
                ) is None
                &&& e == DiscoveryError::StreamEnded
            },
        },
{
    let ghost init = initial_view(pre_known_credential.deep_view());
    let ghost all = lines.deep_view();
    let mut st = DiscoveryState::new(pre_known_credential);
    let mut idx: usize = 0;
    proof {
        assert(all.skip(0) =~= all);
    }
    while !st.is_complete()
        invariant
            idx <= lines.len(),
            all == lines.deep_view(),
            init == initial_view(pre_known_credential.deep_view()),
            spec_discover(init, all) == offset_discover(
                spec_discover(st@, all.skip(idx as int)),
                idx as int,
            ),
        decreases lines.len() - idx,
    {
        if idx == lines.len() {
            proof {
                assert(all.skip(idx as int).len() == 0);
            }
            return Err(DiscoveryError::StreamEnded);
        }
        let ghost rest = all.skip(idx as int);
        let line = &lines[idx];
        let _ = st.process_line(line.as_str());
        idx = idx + 1;
        proof {
            assert(rest[0] == all[idx - 1]);
            assert(rest.drop_first() =~= all.skip(idx as int));
        }
    }
    proof {
        assert(spec_discover(st@, all.skip(idx as int)) == Some((st@, 0int)));
    }
    Ok((st, idx))
}

/// A line on which neither pattern matches leaves the scanner's state
/// unchanged, whatever that state is.
pub proof fn lemma_plain_line_leaves_state(v: ScanView, line: Seq<char>)
    requires
        node_capture(line) is None,
        token_capture(line) is None,
    ensures
        scan_step(v, line) == v,
{
}

/// A populated node identifier is never overwritten: a second node
/// announcement is ignored.
pub proof fn lemma_node_write_once(v: ScanView, line: Seq<char>)
    requires
        v.node is Some,
    ensures
        scan_step(v, line).node == v.node,
{
}

/// A populated credential is never overwritten.
pub proof fn lemma_credential_write_once(v: ScanView, line: Seq<char>)
    requires
        v.credential is Some,
    ensures
        scan_step(v, line).credential == v.credential,
{
}

/// A credential known before scanning started survives any amount of
/// scanning: no `token=` line can replace it.
pub proof fn lemma_pre_known_credential_kept(v: ScanView, lines: Seq<Seq<char>>)
    requires
        v.credential is Some,
    ensures
        scan_fold(v, lines).credential == v.credential,
    decreases lines.len(),
{
    if lines.len() > 0 {
        lemma_pre_known_credential_kept(scan_step(v, lines[0]), lines.drop_first());
    }
}

/// A discovery that starts with a pre-known credential and succeeds ends
/// with exactly that credential, whatever `token=` lines went past.
pub proof fn lemma_pre_known_credential_in_outcome(
    v: ScanView,
    lines: Seq<Seq<char>>,
    w: ScanView,
    n: int,
)
    requires
        v.credential is Some,
        spec_discover(v, lines) == Some((w, n)),
    ensures
        w.credential == v.credential,
{
    lemma_discovery_fires_once(v, lines, w, n);
    lemma_pre_known_credential_kept(v, lines.take(n));
}

/// The scanning phase ends exactly once, at the first prefix of the
/// stream after which both facts are known — in whatever order the two
/// announcements arrived: a successful discovery consumed `n` lines, the
/// state it stops in folds those `n` lines, it is complete, and no
/// shorter prefix was.
pub proof fn lemma_discovery_fires_once(v: ScanView, lines: Seq<Seq<char>>, w: ScanView, n: int)
    requires
        spec_discover(v, lines) == Some((w, n)),
    ensures
        0 <= n <= lines.len(),
        scan_complete(w),
        w == scan_fold(v, lines.take(n)),
        forall|m: int| 0 <= m < n ==> !scan_complete(scan_fold(v, lines.take(m))),
    decreases lines.len(),
{
    if scan_complete(v) {
        assert(lines.take(0) =~= Seq::<Seq<char>>::empty());
    } else {
        let tail = lines.drop_first();
        let stepped = scan_step(v, lines[0]);
        assert(spec_discover(stepped, tail) == Some((w, n - 1)));
        lemma_discovery_fires_once(stepped, tail, w, n - 1);
        assert(tail.take(n - 1) =~= lines.take(n).drop_first());
        assert(lines.take(n)[0] == lines[0]);
        assert forall|m: int| 0 <= m < n implies !scan_complete(scan_fold(v, lines.take(m))) by {
            if m == 0 {
                assert(lines.take(0) =~= Seq::<Seq<char>>::empty());
            } else {
                assert(tail.take(m - 1) =~= lines.take(m).drop_first());
                assert(lines.take(m)[0] == lines[0]);
            }
        }
    }
}

/// Discovery is a pure function of its starting state and its input
/// lines: running it again over the same fixed sequence yields the same
/// outcome, final state and consumed count alike.
pub proof fn lemma_discovery_deterministic(
    v1: ScanView,
    lines1: Seq<Seq<char>>,
    v2: ScanView,
    lines2: Seq<Seq<char>>,
)
    requires
        v1 == v2,
        lines1 == lines2,
    ensures
        spec_discover(v1, lines1) == spec_discover(v2, lines2),
{
}

/// The two announcements may arrive on separate lines in either order:
/// from an empty state, a node line and a credential line complete
/// discovery either way round, with the same two facts.
pub proof fn lemma_order_unconstrained(la: Seq<char>, lb: Seq<char>)
    requires
        node_capture(la) is Some,
        token_capture(la) is None,
        node_capture(lb) is None,
        token_capture(lb) is Some,
    ensures
        spec_discover(initial_view(None), seq![la, lb]) == Some(
            ((ScanView { node: node_capture(la), credential: token_capture(lb) }), 2int),
        ),
        spec_discover(initial_view(None), seq![lb, la]) == Some(
            ((ScanView { node: node_capture(la), credential: token_capture(lb) }), 2int),
        ),
{
    let v0 = initial_view(None);
    let va = scan_step(v0, la);
    let vab = scan_step(va, lb);
    let vb = scan_step(v0, lb);
    let vba = scan_step(vb, la);
    let s1 = seq![la, lb];
    let s2 = seq![lb, la];
    assert(s1.drop_first() =~= seq![lb]);
    assert(s2.drop_first() =~= seq![la]);
    assert(seq![lb].drop_first() =~= Seq::<Seq<char>>::empty());
    assert(seq![la].drop_first() =~= Seq::<Seq<char>>::empty());
    assert(spec_discover(vab, Seq::<Seq<char>>::empty()) == Some((vab, 0int)));
    assert(spec_discover(va, seq![lb]) == Some((vab, 1int)));
    assert(spec_discover(v0, s1) == Some((vab, 2int)));
    assert(spec_discover(vba, Seq::<Seq<char>>::empty()) == Some((vba, 0int)));
    assert(spec_discover(vb, seq![la]) == Some((vba, 1int)));
    assert(spec_discover(v0, s2) == Some((vba, 2int)));
}

} // verus!
