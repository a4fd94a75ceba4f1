//! Full-text search queries: a user's text becomes an FTS5 query that matches
//! each of its words as a phrase.

use vstd::prelude::*;
use crate::text::{chars_of, is_whitespace, is_ws, string_from_chars};

verus! {

/// The words of a text (maximal runs of non-white-space characters), as
/// completed words and the word in progress, reading left to right.
pub open spec fn split_state(s: Seq<char>) -> (Seq<Seq<char>>, Seq<char>)
    decreases s.len(),
{
    if s.len() == 0 {
        (Seq::empty(), Seq::empty())
    } else {
        let (words, current) = split_state(s.drop_last());
        let c = s.last();
        if is_ws(c) {
            if current.len() > 0 {
                (words.push(current), Seq::empty())
            } else {
                (words, Seq::empty())
            }
        } else {
            (words, current.push(c))
        }
    }
}

/// The words of a text, as `str::split_whitespace` gives them.
pub open spec fn words_of(s: Seq<char>) -> Seq<Seq<char>> {
    let (words, current) = split_state(s);
    if current.len() > 0 {
        words.push(current)
    } else {
        words
    }
}

/// A word with every `"` doubled.
pub open spec fn escape_quotes(w: Seq<char>) -> Seq<char>
    decreases w.len(),
{
    if w.len() == 0 {
        Seq::empty()
    } else {
        escape_quotes(w.drop_last()) + if w.last() == '"' {
            seq!['"', '"']
        } else {
            seq![w.last()]
        }
    }
}

/// A word as an FTS5 phrase.
pub open spec fn phrase(w: Seq<char>) -> Seq<char> {
    seq!['"'] + escape_quotes(w) + seq!['"']
}

/// The phrases of the words, separated by single spaces.
pub open spec fn join_phrases(ws: Seq<Seq<char>>) -> Seq<char>
    decreases ws.len(),
{
    if ws.len() == 0 {
        Seq::empty()
    } else if ws.len() == 1 {
        phrase(ws[0])
    } else {
        join_phrases(ws.drop_last()) + seq![' '] + phrase(ws.last())
    }
}

/// The FTS5 query for a text: each word quoted as a phrase, words separated by
/// spaces; empty for a text without words.
pub open spec fn fts5_query(s: Seq<char>) -> Seq<char> {
    join_phrases(words_of(s))
}

fn append_phrase(out: &mut Vec<char>, word: &Vec<char>)
    ensures
        final(out)@ == old(out)@ + phrase(word@),
{
    let ghost start = out@;
    out.push('"');
    let mut i: usize = 0;
    while i < word.len()
        invariant
            i <= word@.len(),
            out@ == start + seq!['"'] + escape_quotes(word@.take(i as int)),
        decreases word@.len() - i,
    {
        let c = word[i];
        if c == '"' {
            out.push('"');
            out.push('"');
        } else {
            out.push(c);
        }
        proof {
            assert(word@.take(i + 1).drop_last() == word@.take(i as int));
            assert(out@ =~= start + seq!['"'] + escape_quotes(word@.take(i + 1)));
        }
        i = i + 1;
    }
    out.push('"');
    assert(word@.take(i as int) == word@);
    assert(out@ =~= start + phrase(word@));
}

proof fn lemma_join_push(ws: Seq<Seq<char>>, w: Seq<char>)
    ensures
        join_phrases(ws.push(w)) == if ws.len() == 0 {
            phrase(w)
        } else {
            join_phrases(ws) + seq![' '] + phrase(w)
        },
{
    assert(ws.push(w).drop_last() == ws);
    if ws.len() == 0 {
        assert(ws.push(w)[0] == w);
    }
}

/// Builds the FTS5 query for a search text.
pub fn build_fts5_query(raw: &str) -> (q: String)
    ensures
        q@ == fts5_query(raw@),
{
    let v = chars_of(raw);
    let mut out: Vec<char> = Vec::new();
    let mut current: Vec<char> = Vec::new();
    let ghost mut words: Seq<Seq<char>> = Seq::empty();
    let mut i: usize = 0;
    while i < v.len()
        invariant
            i <= v@.len(),
            v@ == raw@,
            split_state(v@.take(i as int)) == (words, current@),
            out@ == join_phrases(words),
        decreases v@.len() - i,
    {
        let c = v[i];
        proof {
            assert(v@.take(i + 1).drop_last() == v@.take(i as int));
            assert(v@.take(i + 1).last() == c);
        }
        if is_whitespace(c) {
            if current.len() > 0 {
                proof {
                    lemma_join_push(words, current@);
                }
                if out.len() > 0 {
                    out.push(' ');
                } else {
                    proof {
                        if words.len() > 0 {
                            lemma_join_nonempty(words);
                        }
                    }
                }
                append_phrase(&mut out, &current);
                proof {
                    words = words.push(current@);
                }
                current = Vec::new();
            }
        } else {
            current.push(c);
        }
        i = i + 1;
    }
    assert(v@.take(i as int) == v@);
    if current.len() > 0 {
        proof {
            lemma_join_push(words, current@);
        }
        if out.len() > 0 {
            out.push(' ');
        } else {
            proof {
                if words.len() > 0 {
                    lemma_join_nonempty(words);
                }
            }
        }
        append_phrase(&mut out, &current);
    }
    string_from_chars(&out)
}

proof fn lemma_join_nonempty(ws: Seq<Seq<char>>)
    requires
        ws.len() > 0,
    ensures
        join_phrases(ws).len() > 0,
    decreases ws.len(),
{
    if ws.len() > 1 {
        lemma_join_nonempty(ws.drop_last());
    }
}

} // verus!
