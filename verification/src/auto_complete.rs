//! The suggestion engine: a prefix index over a vocabulary, rebuilt on each
//! query, and the lookup of the trailing token of the input line. The index
//! is a multimap from every proper prefix of a vocabulary term to that term,
//! in vocabulary order, duplicates preserved.

use vstd::prelude::*;
use crate::text::{chars_of, string_of_chars, token_start, trailing_token};

verus! {

/// `q` is a proper prefix of `t`.
pub open spec fn is_strict_prefix(q: Seq<char>, t: Seq<char>) -> bool {
    q.len() < t.len() && t.take(q.len() as int) == q
}

/// The vocabulary terms that the token `q` is a proper prefix of, in
/// vocabulary order, duplicates preserved.
pub open spec fn hits(v: Seq<Seq<char>>, q: Seq<char>) -> Seq<Seq<char>>
    decreases v.len(),
{
    if v.len() == 0 {
        Seq::empty()
    } else {
        hits(v.drop_last(), q) + if is_strict_prefix(q, v.last()) {
            seq![v.last()]
        } else {
            Seq::empty()
        }
    }
}

/// What a completion query returns: the terms the trailing token prefixes,
/// or the one-element sentinel holding the empty string when the input does
/// not end in a word character.
pub open spec fn autocomplete_spec(q: Seq<char>, v: Seq<Seq<char>>) -> Seq<Seq<char>> {
    if token_start(q) == q.len() {
        seq![Seq::<char>::empty()]
    } else {
        hits(v, q.skip(token_start(q)))
    }
}

pub proof fn lemma_hits_step(v: Seq<Seq<char>>, j: int, q: Seq<char>)
    requires
        0 <= j < v.len(),
    ensures
        hits(v.take(j + 1), q) == hits(v.take(j), q) + if is_strict_prefix(q, v[j]) {
            seq![v[j]]
        } else {
            Seq::<Seq<char>>::empty()
        },
{
    assert(v.take(j + 1).drop_last() =~= v.take(j));
    assert(v.take(j + 1).last() == v[j]);
}

#[verifier::external_type_specification]
#[verifier::external_body]
#[verifier::reject_recursive_types(K)]
#[verifier::reject_recursive_types(V)]
#[verifier::reject_recursive_types(S)]
pub struct ExMultiMap<K, V, S>(multimap::MultiMap<K, V, S>);

/// What the prefix index holds: for each key, the sequence of terms
/// registered under it, in insertion order.
pub uninterp spec fn index_entries(m: multimap::MultiMap<String, String>) -> Map<
    Seq<char>,
    Seq<Seq<char>>,
>;

/// The values registered under a key, empty when the key is absent.
pub open spec fn bucket(entries: Map<Seq<char>, Seq<Seq<char>>>, k: Seq<char>) -> Seq<Seq<char>> {
    if entries.contains_key(k) {
        entries[k]
    } else {
        Seq::empty()
    }
}

/// An index with nothing registered.
pub open spec fn empty_index() -> Map<Seq<char>, Seq<Seq<char>>> {
    Map::empty()
}

/// Relies on `multimap::MultiMap::new`: creates an empty multimap.
#[verifier::external_body]
fn mm_new() -> (m: multimap::MultiMap<String, String>)
    ensures
        index_entries(m) == empty_index(),
{
    multimap::MultiMap::new()
}

/// Relies on `multimap::MultiMap::insert`: pushes the value onto the key's
/// vector, creating the vector when the key is absent.
#[verifier::external_body]
fn mm_insert(m: &mut multimap::MultiMap<String, String>, k: String, v: String)
    ensures
        index_entries(*final(m)) == index_entries(*old(m)).insert(
            k@,
            bucket(index_entries(*old(m)), k@).push(v@),
        ),
{
    m.insert(k, v);
}

/// Relies on `multimap::MultiMap::get_vec`: returns the vector of values
/// stored under the key, or nothing when the key is absent.
#[verifier::external_body]
fn mm_get_vec(m: &multimap::MultiMap<String, String>, k: &String) -> (r: Option<Vec<String>>)
    ensures
        match r {
            Some(vs) => index_entries(*m).contains_key(k@) && vs.deep_view() == index_entries(
                *m,
            )[k@],
            None => !index_entries(*m).contains_key(k@),
        },
{
    m.get_vec(k).cloned()
}

/// The values registered under the token, in insertion order, or an empty
/// sequence when the index has no such key.
pub fn get_suggestion(query: &String, suggestions: &multimap::MultiMap<String, String>) -> (r: Vec<
    String,
>)
    ensures
        r.deep_view() == bucket(index_entries(*suggestions), query@),
{
    match mm_get_vec(suggestions, query) {
        Some(values) => values,
        None => {
            let r: Vec<String> = Vec::new();
            assert(r.deep_view() =~= Seq::<Seq<char>>::empty());
            r
        },
    }
}

/// Registration mark of term `j` while its prefixes of length below `i`
/// are in the index: what term `j` has contributed under key `q` so far.
pub open spec fn partial_mark(v: Seq<Seq<char>>, j: int, i: int, q: Seq<char>) -> Seq<Seq<char>> {
    if 1 <= q.len() < i && is_strict_prefix(q, v[j]) {
        seq![v[j]]
    } else {
        Seq::empty()
    }
}

/// The completion query over an explicit vocabulary: builds the prefix
/// index fresh, then looks up the trailing token of the query. Every term
/// the token properly prefixes is returned, in vocabulary order; an input
/// that does not end in a word character yields the one-element sentinel
/// holding the empty string.
pub fn autocomplete(query: &str, vocab: &Vec<String>) -> (r: Vec<String>)
    ensures
        r.deep_view() == autocomplete_spec(query@, vocab.deep_view()),
{
    let ghost v = vocab.deep_view();
    let mut index = mm_new();
    let mut j: usize = 0;
    while j < vocab.len()
        invariant
            j <= vocab.len(),
            v == vocab.deep_view(),
            forall|q: Seq<char>| #[trigger]
                index_entries(index).contains_key(q) ==> q.len() >= 1 && index_entries(index)[q]
                    == hits(v.take(j as int), q),
            forall|q: Seq<char>|
                q.len() >= 1 && !(#[trigger] index_entries(index).contains_key(q)) ==> hits(
                    v.take(j as int),
                    q,
                ) == Seq::<Seq<char>>::empty(),
        decreases vocab.len() - j,
    {
        let tchars = chars_of(vocab[j].as_str());
        let l = tchars.len();
        assert(tchars@ == v[j as int]);
        let mut pref: Vec<char> = Vec::new();
        let mut i: usize = 1;
        while i < l
            invariant
                1 <= i,
                i <= l || i == 1,
                j < vocab.len(),
                v == vocab.deep_view(),
                tchars@ == v[j as int],
                l == v[j as int].len(),
                pref@ == v[j as int].take(i - 1),
                forall|q: Seq<char>| #[trigger]
                    index_entries(index).contains_key(q) ==> q.len() >= 1 && index_entries(
                        index,
                    )[q] == hits(v.take(j as int), q) + partial_mark(v, j as int, i as int, q),
                forall|q: Seq<char>|
                    q.len() >= 1 && !(#[trigger] index_entries(index).contains_key(q)) ==> hits(
                        v.take(j as int),
                        q,
                    ) + partial_mark(v, j as int, i as int, q) == Seq::<Seq<char>>::empty(),
            decreases l - i,
        {
            pref.push(tchars[i - 1]);
            assert(pref@ =~= v[j as int].take(i as int));
            let key = string_of_chars(&pref);
            let term = vocab[j].clone();
            let ghost p = v[j as int].take(i as int);
            let ghost before = index_entries(index);
            assert(term@ == v[j as int]);
            mm_insert(&mut index, key, term);
            proof {
                assert(p.len() == i);
                assert(is_strict_prefix(p, v[j as int]));
                // every key other than the one inserted keeps its mark
                assert forall|q: Seq<char>|
                    q != p && q.len() >= 1 implies partial_mark(v, j as int, i + 1, q)
                    == partial_mark(v, j as int, i as int, q) by {
                    if 1 <= q.len() < i + 1 && !(1 <= q.len() < i) && is_strict_prefix(
                        q,
                        v[j as int],
                    ) {
                        assert(q.len() == i);
                        assert(q == v[j as int].take(q.len() as int));
                        assert(q == p);
                    }
                }
                // the inserted key now carries term j
                assert(hits(v.take(j as int), p) + partial_mark(v, j as int, i + 1, p) =~= bucket(
                    before,
                    p,
                ).push(v[j as int])) by {
                    assert(partial_mark(v, j as int, i as int, p) == Seq::<Seq<char>>::empty());
                    if before.contains_key(p) {
                        assert(bucket(before, p) == hits(v.take(j as int), p));
                    } else {
                        assert(hits(v.take(j as int), p) + partial_mark(v, j as int, i as int, p)
                            =~= hits(v.take(j as int), p));
                        assert(hits(v.take(j as int), p) == Seq::<Seq<char>>::empty());
                    }
                    assert(partial_mark(v, j as int, i + 1, p) == seq![v[j as int]]);
                }
            }
            i = i + 1;
        }
        proof {
            // at the end of the term, its mark is exactly its hit
            assert forall|q: Seq<char>| q.len() >= 1 implies partial_mark(v, j as int, i as int, q)
                == (if is_strict_prefix(q, v[j as int]) {
                seq![v[j as int]]
            } else {
                Seq::<Seq<char>>::empty()
            }) by {
                if is_strict_prefix(q, v[j as int]) {
                    assert(q.len() < l);
                    assert(i == l || (l <= 1 && i == 1));
                }
            }
            assert forall|q: Seq<char>| q.len() >= 1 implies hits(v.take(j as int), q)
                + partial_mark(v, j as int, i as int, q) == hits(v.take(j + 1), q) by {
                lemma_hits_step(v, j as int, q);
            }
        }
        j = j + 1;
    }
    assert(v.take(vocab.len() as int) =~= v);
    match trailing_token(query) {
        Some(token) => {
            proof {
                crate::text::lemma_token_start(query@);
            }
            assert(token@.len() >= 1);
            let r = get_suggestion(&token, &index);
            proof {
                if !index_entries(index).contains_key(token@) {
                    assert(hits(v, token@) == Seq::<Seq<char>>::empty());
                }
            }
            r
        },
        None => {
            let mut r: Vec<String> = Vec::new();
            r.push(String::new());
            assert(r.deep_view() =~= seq![Seq::<char>::empty()]);
            r
        },
    }
}

/// Nothing is known of what the parser yields for a given source text, so
/// the result carries a name: the keys of the top-level object of the
/// source, in the parser's key order, or nothing when the source is not an
/// object.
pub uninterp spec fn vocab_keys(s: Seq<char>) -> Option<Seq<Seq<char>>>;

/// Relies on `serde_json::from_str` and `serde_json::Value::as_object`:
/// parses the vocabulary source and hands out the keys of its top-level
/// object, in the parser's key order; yields nothing when the source is not
/// proper JSON or not an object.
#[verifier::external_body]
fn parse_vocab(source: &str) -> (r: Option<Vec<String>>)
    ensures
        match r {
            Some(terms) => vocab_keys(source@) == Some(terms.deep_view()),
            None => vocab_keys(source@) is None,
        },
{
    match serde_json::from_str::<serde_json::Value>(source) {
        Ok(value) => value.as_object().map(|m| m.keys().cloned().collect()),
        Err(_) => None,
    }
}

/// The completion query against the raw text of the vocabulary source: the
/// terms are the keys of the source's top-level object. Yields nothing when
/// the source cannot be read as such an object; the caller treats that as
/// fatal.
pub fn autocomplete_from_source(query: &str, source: &str) -> (r: Option<Vec<String>>)
    ensures
        match vocab_keys(source@) {
            Some(terms) => match r {
                Some(res) => res.deep_view() == autocomplete_spec(query@, terms),
                None => false,
            },
            None => r is None,
        },
{
    match parse_vocab(source) {
        Some(vocab) => Some(autocomplete(query, &vocab)),
        None => None,
    }
}

} // verus!
