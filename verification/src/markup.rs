//! Transient style markup on suggestion entries: terminal control
//! sequences (an escape, `[`, parameter bytes, one final byte). The
//! highlight marker wraps an entry in a red-background sequence and a
//! reset sequence; the stripper removes every such sequence.

use vstd::prelude::*;
use vstd::string::StrSliceExecFns;
use crate::text::push_char;

verus! {

/// A parameter or intermediate byte of a control sequence.
pub open spec fn is_param_char(c: char) -> bool {
    ' ' <= c && c <= '?'
}

/// A final byte of a control sequence.
pub open spec fn is_final_char(c: char) -> bool {
    '@' <= c && c <= '~'
}

/// Index just past the final byte of the control sequence whose parameter
/// bytes start at `i`, or `-1` when no complete sequence starts there.
pub open spec fn csi_scan(s: Seq<char>, i: int) -> int
    decreases s.len() - i
        when 0 <= i <= s.len()
{
    if i >= s.len() {
        -1
    } else if is_final_char(s[i]) {
        i + 1
    } else if is_param_char(s[i]) {
        csi_scan(s, i + 1)
    } else {
        -1
    }
}

pub proof fn lemma_csi_scan_bounds(s: Seq<char>, i: int)
    requires
        0 <= i <= s.len(),
    ensures
        csi_scan(s, i) == -1 || (i < csi_scan(s, i) <= s.len()),
    decreases s.len() - i,
{
    if i < s.len() && !is_final_char(s[i]) && is_param_char(s[i]) {
        lemma_csi_scan_bounds(s, i + 1);
    }
}

/// Index just past the control sequence that starts at `i`, or `-1` when
/// none starts there.
pub open spec fn csi_end_at(s: Seq<char>, i: int) -> int {
    if 0 <= i && i + 1 < s.len() && s[i] == '\x1b' && s[i + 1] == '[' {
        csi_scan(s, i + 2)
    } else {
        -1
    }
}

/// The suffix of `s` from `i` with every control sequence removed.
pub open spec fn strip_from(s: Seq<char>, i: int) -> Seq<char>
    decreases s.len() - i
        when 0 <= i <= s.len()
{
    if i >= s.len() {
        Seq::empty()
    } else if i + 3 <= csi_end_at(s, i) && csi_end_at(s, i) <= s.len() {
        strip_from(s, csi_end_at(s, i))
    } else {
        seq![s[i]] + strip_from(s, i + 1)
    }
}

/// `s` with every control sequence removed: the sanitized entry text.
pub open spec fn strip_spec(s: Seq<char>) -> Seq<char> {
    strip_from(s, 0)
}

/// The red-background marker that opens a highlighted entry.
pub open spec fn marker_pre() -> Seq<char> {
    seq!['\x1b', '[', '4', '1', 'm']
}

/// The reset marker that closes a highlighted entry.
pub open spec fn marker_post() -> Seq<char> {
    seq!['\x1b', '[', '0', 'm']
}

/// An entry wrapped in the highlight markers.
pub open spec fn wrap_spec(s: Seq<char>) -> Seq<char> {
    marker_pre() + s + marker_post()
}

/// A sequence free of the escape character never holds a control sequence,
/// so the stripper keeps `[i, j)` of such a sequence as it stands.
pub proof fn lemma_strip_skip_no_esc(s: Seq<char>, i: int, j: int)
    requires
        0 <= i <= j <= s.len(),
        forall|k: int| i <= k < j ==> #[trigger] s[k] != '\x1b',
    ensures
        strip_from(s, i) == s.subrange(i, j) + strip_from(s, j),
    decreases j - i,
{
    if i == j {
        assert(strip_from(s, i) =~= s.subrange(i, j) + strip_from(s, j));
    } else {
        assert(s[i] != '\x1b');
        assert(csi_end_at(s, i) == -1);
        lemma_strip_skip_no_esc(s, i + 1, j);
        assert(strip_from(s, i) =~= s.subrange(i, j) + strip_from(s, j));
    }
}

/// Scanning past a prefix `t` in `t + u` is scanning in `u`.
pub proof fn lemma_csi_scan_shift(t: Seq<char>, u: Seq<char>, i: int)
    requires
        0 <= i <= u.len(),
    ensures
        csi_scan(t + u, t.len() + i) == if csi_scan(u, i) == -1 {
            -1
        } else {
            t.len() + csi_scan(u, i)
        },
    decreases u.len() - i,
{
    if i < u.len() {
        assert((t + u)[t.len() + i] == u[i]);
        if !is_final_char(u[i]) && is_param_char(u[i]) {
            lemma_csi_scan_shift(t, u, i + 1);
        }
    }
}

/// Stripping past a prefix `t` in `t + u` is stripping in `u`.
pub proof fn lemma_strip_shift(t: Seq<char>, u: Seq<char>, i: int)
    requires
        0 <= i <= u.len(),
    ensures
        strip_from(t + u, t.len() + i) == strip_from(u, i),
    decreases u.len() - i,
{
    if i >= u.len() {
    } else {
        assert((t + u)[t.len() + i] == u[i]);
        if i + 1 < u.len() {
            assert((t + u)[t.len() + i + 1] == u[i + 1]);
        }
        if u[i] == '\x1b' && i + 1 < u.len() && u[i + 1] == '[' {
            lemma_csi_scan_shift(t, u, i + 2);
            lemma_csi_scan_bounds(u, i + 2);
            assert(csi_end_at(t + u, t.len() + i) == if csi_end_at(u, i) == -1 {
                -1
            } else {
                t.len() + csi_end_at(u, i)
            });
            let e = csi_end_at(u, i);
            if i + 3 <= e && e <= u.len() {
                lemma_strip_shift(t, u, e);
            } else {
                lemma_strip_shift(t, u, i + 1);
                assert(strip_from(t + u, t.len() + i) =~= strip_from(u, i));
            }
        } else {
            assert(csi_end_at(t + u, t.len() + i) == -1);
            assert(csi_end_at(u, i) == -1);
            lemma_strip_shift(t, u, i + 1);
            assert(strip_from(t + u, t.len() + i) =~= strip_from(u, i));
        }
    }
}

/// Stripping removes a leading opening marker outright.
pub proof fn lemma_strip_pre(s: Seq<char>)
    ensures
        strip_spec(marker_pre() + s) == strip_spec(s),
{
    let t = marker_pre() + s;
    assert(t[0] == '\x1b');
    assert(t[1] == '[');
    assert(t[2] == '4');
    assert(t[3] == '1');
    assert(t[4] == 'm');
    assert(csi_scan(t, 4) == 5);
    assert(csi_scan(t, 3) == 5);
    assert(csi_scan(t, 2) == 5);
    assert(csi_end_at(t, 0) == 5);
    assert(strip_from(t, 0) == strip_from(t, 5));
    lemma_strip_shift(marker_pre(), s, 0);
}

/// The closing marker alone strips to nothing.
pub proof fn lemma_strip_post()
    ensures
        strip_spec(marker_post()) == Seq::<char>::empty(),
{
    let t = marker_post();
    assert(csi_scan(t, 3) == 4);
    assert(csi_scan(t, 2) == 4);
    assert(csi_end_at(t, 0) == 4);
    assert(strip_from(t, 0) == strip_from(t, 4));
}

/// A sequence free of the escape character is already sanitized.
pub proof fn lemma_strip_no_esc(s: Seq<char>)
    requires
        forall|k: int| 0 <= k < s.len() ==> #[trigger] s[k] != '\x1b',
    ensures
        strip_spec(s) == s,
{
    lemma_strip_skip_no_esc(s, 0, s.len() as int);
    assert(s.subrange(0, s.len() as int) + strip_from(s, s.len() as int) =~= s);
}

/// Stripping a highlighted entry recovers the sanitized text: for an entry
/// free of the escape character, wrapping it in the highlight markers and
/// stripping gives the entry back, never the highlighted variant.
pub proof fn lemma_strip_wrapped(s: Seq<char>)
    requires
        forall|k: int| 0 <= k < s.len() ==> #[trigger] s[k] != '\x1b',
    ensures
        strip_spec(wrap_spec(s)) == s,
{
    assert(wrap_spec(s) =~= marker_pre() + (s + marker_post()));
    lemma_strip_pre(s + marker_post());
    lemma_strip_skip_no_esc(s + marker_post(), 0, s.len() as int);
    lemma_strip_shift(s, marker_post(), 0);
    lemma_strip_post();
    assert((s + marker_post()).subrange(0, s.len() as int) =~= s);
    assert(strip_spec(s + marker_post()) =~= s);
}

/// Highlighting and then choosing inserts the sanitized text, never the
/// highlighted variant. Highlighting stores the entry sanitized and wrapped
/// in the markers (or, with painting disabled, sanitized and bare);
/// choosing sanitizes the stored entry twice more and inserts the result.
/// For an entry free of the escape character, both paths insert the entry
/// itself.
pub proof fn lemma_highlight_then_choose_inserts_sanitized(e: Seq<char>)
    requires
        forall|k: int| 0 <= k < e.len() ==> #[trigger] e[k] != '\x1b',
    ensures
        strip_spec(strip_spec(wrap_spec(strip_spec(e)))) == e,
        strip_spec(strip_spec(strip_spec(e))) == e,
        strip_spec(e) == e,
{
    lemma_strip_no_esc(e);
    lemma_strip_wrapped(e);
}

/// Scan for the end of the control sequence whose parameter bytes start at
/// `start`.
fn scan_csi(cs: &Vec<char>, start: usize) -> (r: Option<usize>)
    requires
        start <= cs@.len(),
    ensures
        match r {
            Some(e) => csi_scan(cs@, start as int) == e && start < e <= cs@.len(),
            None => csi_scan(cs@, start as int) == -1,
        },
{
    let n = cs.len();
    let mut j = start;
    loop
        invariant
            start <= j <= n,
            n == cs@.len(),
            csi_scan(cs@, start as int) == csi_scan(cs@, j as int),
        decreases n - j,
    {
        if j >= n {
            return None;
        }
        let c = cs[j];
        if '@' <= c && c <= '~' {
            assert(is_final_char(cs@[j as int]));
            proof {
                lemma_csi_scan_bounds(cs@, start as int);
            }
            return Some(j + 1);
        }
        if !(' ' <= c && c <= '?') {
            assert(!is_param_char(cs@[j as int]) && !is_final_char(cs@[j as int]));
            return None;
        }
        assert(is_param_char(cs@[j as int]) && !is_final_char(cs@[j as int]));
        j = j + 1;
    }
}

/// The sanitized form of an entry: every control sequence removed.
pub fn strip_markup(s: &String) -> (r: String)
    ensures
        r@ == strip_spec(s@),
{
    let cs = crate::text::chars_of(s.as_str());
    let n = cs.len();
    let mut out = String::new();
    let mut i: usize = 0;
    while i < n
        invariant
            i <= n,
            n == cs@.len(),
            cs@ == s@,
            out@ + strip_from(s@, i as int) == strip_from(s@, 0),
        decreases n - i,
    {
        let c = cs[i];
        let mut consumed = false;
        if c == '\x1b' && i + 1 < n {
            if cs[i + 1] == '[' {
                match scan_csi(&cs, i + 2) {
                    Some(e) => {
                        assert(csi_end_at(s@, i as int) == e);
                        assert(strip_from(s@, i as int) == strip_from(s@, e as int));
                        i = e;
                        consumed = true;
                    },
                    None => {
                        assert(csi_end_at(s@, i as int) == -1);
                    },
                }
            } else {
                assert(csi_end_at(s@, i as int) == -1);
            }
        } else {
            assert(csi_end_at(s@, i as int) == -1);
        }
        if !consumed {
            assert(strip_from(s@, i as int) == seq![s@[i as int]] + strip_from(s@, i + 1));
            push_char(&mut out, c);
            assert(out@ + strip_from(s@, i + 1) =~= strip_from(s@, 0));
            i = i + 1;
        }
    }
    assert(strip_from(s@, n as int) =~= Seq::<char>::empty());
    assert(out@ =~= strip_spec(s@));
    out
}

/// Relies on yansi's `Paint::on_red` and the display of the painted value:
/// when painting is enabled it wraps the text in the red-background and
/// reset sequences; when yansi has been disabled globally it yields the
/// text unchanged.
#[verifier::external_body]
pub(crate) fn paint_on_red(s: &String) -> (r: String)
    ensures
        r@ == wrap_spec(s@) || r@ == s@,
{
    yansi::Paint::on_red(s).to_string()
}

} // verus!
