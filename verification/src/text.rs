//! Character-level text logic: the word character class of the suggestion
//! engine, extraction of the trailing token of an input line, and transient
//! style markup (terminal control sequences) with its stripper.

use vstd::prelude::*;
use vstd::string::StrSliceExecFns;

verus! {

/// Characters the suggestion engine treats as part of a word: ASCII
/// letters, digits, and underscore.
pub open spec fn is_word_char(c: char) -> bool {
    ('a' <= c && c <= 'z') || ('A' <= c && c <= 'Z') || ('0' <= c && c <= '9') || c == '_'
}

/// Executable test for [`is_word_char`].
pub fn word_char(c: char) -> (r: bool)
    ensures
        r == is_word_char(c),
{
    ('a' <= c && c <= 'z') || ('A' <= c && c <= 'Z') || ('0' <= c && c <= '9') || c == '_'
}

/// Start of the maximal run of word characters that ends the sequence;
/// equals `s.len()` when the sequence does not end in a word character.
pub open spec fn token_start(s: Seq<char>) -> int
    decreases s.len(),
{
    if s.len() == 0 || !is_word_char(s[s.len() - 1]) {
        s.len() as int
    } else {
        token_start(s.drop_last())
    }
}

pub proof fn lemma_token_start(s: Seq<char>)
    ensures
        0 <= token_start(s) <= s.len(),
        forall|k: int| token_start(s) <= k < s.len() ==> is_word_char(#[trigger] s[k]),
        token_start(s) > 0 ==> !is_word_char(s[token_start(s) - 1]),
        (s.len() > 0 && is_word_char(s[s.len() - 1])) <==> token_start(s) < s.len(),
    decreases s.len(),
{
    if s.len() == 0 || !is_word_char(s[s.len() - 1]) {
    } else {
        lemma_token_start(s.drop_last());
        assert forall|k: int| token_start(s) <= k < s.len() implies is_word_char(#[trigger] s[k]) by {
            if k < s.len() - 1 {
                assert(s[k] == s.drop_last()[k]);
                assert(is_word_char(s.drop_last()[k]));
            }
        }
    }
}

/// The characters of a string slice, in order.
pub fn chars_of(s: &str) -> (r: Vec<char>)
    ensures
        r@ == s@,
{
    let n = s.unicode_len();
    let mut r: Vec<char> = Vec::new();
    let mut i: usize = 0;
    while i < n
        invariant
            i <= n,
            n == s@.len(),
            r@ == s@.take(i as int),
        decreases n - i,
    {
        let c = s.get_char(i);
        r.push(c);
        assert(r@ =~= s@.take(i + 1));
        i = i + 1;
    }
    assert(r@ =~= s@);
    r
}

/// Relies on `String::push`: appends exactly one character.
#[verifier::external_body]
pub(crate) fn push_char(s: &mut String, c: char)
    ensures
        final(s)@ == old(s)@.push(c),
{
    s.push(c);
}

/// A string holding exactly the given characters, in order.
pub fn string_of_chars(v: &Vec<char>) -> (r: String)
    ensures
        r@ == v@,
{
    let mut r = String::new();
    let mut i: usize = 0;
    while i < v.len()
        invariant
            i <= v.len(),
            r@ == v@.take(i as int),
        decreases v.len() - i,
    {
        push_char(&mut r, v[i]);
        assert(r@ =~= v@.take(i + 1));
        i = i + 1;
    }
    assert(r@ =~= v@);
    r
}

/// The trailing word token of the input, or `None` when the input does not
/// end in a word character.
pub fn trailing_token(s: &str) -> (r: Option<String>)
    ensures
        match r {
            Some(t) => token_start(s@) < s@.len() && t@ == s@.skip(token_start(s@)),
            None => token_start(s@) == s@.len(),
        },
{
    proof {
        lemma_token_start(s@);
    }
    let cs = chars_of(s);
    let n = cs.len();
    let mut k: usize = n;
    while k > 0 && word_char(cs[k - 1])
        invariant
            k <= n,
            n == s@.len(),
            cs@ == s@,
            forall|j: int| k <= j < n ==> is_word_char(#[trigger] s@[j]),
            token_start(s@) <= k,
        decreases k,
    {
        proof {
            lemma_token_start(s@);
            // the start of the token is not inside a run of word characters
            if token_start(s@) == k {
                assert(is_word_char(s@[k - 1]));
            }
        }
        k = k - 1;
    }
    proof {
        lemma_token_start(s@);
    }
    if k == n {
        None
    } else {
        let mut t = String::new();
        let mut i: usize = k;
        while i < n
            invariant
                k <= i <= n,
                n == s@.len(),
                cs@ == s@,
                t@ == s@.subrange(k as int, i as int),
            decreases n - i,
        {
            push_char(&mut t, cs[i]);
            assert(t@ =~= s@.subrange(k as int, i + 1));
            i = i + 1;
        }
        assert(t@ =~= s@.skip(k as int));
        Some(t)
    }
}

} // verus!
