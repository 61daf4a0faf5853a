//! Search queries: parsed from a raw string into exact and prefix terms, all of which must match.
use vstd::prelude::*;
use vstd::string::*;

use crate::text::{has_prefix, lower_of, lowercase, split_words, views_of, words_of};

verus! {

/// One term of a query. `Exact` matches a token equal to the word, `Prefix` a token that starts
/// with it.
#[derive(Clone, Debug)]
pub enum QueryTerm {
    Prefix(String),
    Exact(String),
}

impl View for QueryTerm {
    /// Whether the term is exact, and its word.
    type V = (bool, Seq<char>);

    open spec fn view(&self) -> (bool, Seq<char>) {
        match self {
            QueryTerm::Prefix(w) => (false, w@),
            QueryTerm::Exact(w) => (true, w@),
        }
    }
}

#[derive(Clone, Debug)]
pub struct Query {
    pub terms: Vec<QueryTerm>,
}

impl View for Query {
    type V = Seq<(bool, Seq<char>)>;

    open spec fn view(&self) -> Seq<(bool, Seq<char>)> {
        self.terms@.map_values(|t: QueryTerm| t@)
    }
}

/// The term that a lowercased word gives: exact where it ends in `$` (which is then dropped),
/// else a prefix.
pub open spec fn term_of_lowered(l: Seq<char>) -> (bool, Seq<char>) {
    if l.len() > 0 && l.last() == '$' {
        (true, l.drop_last())
    } else {
        (false, l)
    }
}

/// The term that one whitespace-free word of a raw query gives: lowercased, and exact where it
/// ends in `$` (which is then dropped).
pub open spec fn term_of_word(w: Seq<char>) -> (bool, Seq<char>) {
    term_of_lowered(lower_of(w))
}

/// The terms of a raw query, one per whitespace-separated word, in order.
pub open spec fn parsed_terms(raw: Seq<char>) -> Seq<(bool, Seq<char>)> {
    words_of(raw).map_values(|w: Seq<char>| term_of_word(w))
}

/// Whether a term matches one token.
pub open spec fn term_hits(t: (bool, Seq<char>), tok: Seq<char>) -> bool {
    if t.0 {
        tok == t.1
    } else {
        t.1.is_prefix_of(tok)
    }
}

/// Whether a term matches at least one of the tokens.
pub open spec fn term_found(t: (bool, Seq<char>), toks: Seq<Seq<char>>) -> bool {
    exists|j: int| 0 <= j < toks.len() && #[trigger] term_hits(t, toks[j])
}

/// Whether every term matches at least one token. A query without terms matches everything.
pub open spec fn terms_match(q: Seq<(bool, Seq<char>)>, toks: Seq<Seq<char>>) -> bool {
    forall|i: int| 0 <= i < q.len() ==> term_found(#[trigger] q[i], toks)
}

impl QueryTerm {
    /// The term of an already lowercased word: exact where it ends in `$`, without it; else a
    /// prefix.
    pub fn from_lowered(l: String) -> (r: QueryTerm)
        ensures
            r@ == term_of_lowered(l@),
    {
        let n = l.unicode_len();
        if n > 0 && l.as_str().get_char(n - 1) == '$' {
            let cut = l.as_str().substring_char(0, n - 1);
            let w = String::from_str(cut);
            proof {
                assert(w@ =~= l@.drop_last());
            }
            QueryTerm::Exact(w)
        } else {
            QueryTerm::Prefix(l)
        }
    }

    pub fn hits(&self, tok: &String) -> (r: bool)
        ensures
            r == term_hits(self@, tok@),
    {
        match self {
            QueryTerm::Exact(w) => *w == *tok,
            QueryTerm::Prefix(w) => has_prefix(tok.as_str(), w.as_str()),
        }
    }
}

impl Query {
    pub fn empty() -> (r: Query)
        ensures
            r@.len() == 0,
    {
        let r = Query { terms: Vec::new() };
        proof {
            assert(r@ =~= Seq::<(bool, Seq<char>)>::empty());
        }
        r
    }

    pub fn is_empty(&self) -> (r: bool)
        ensures
            r == (self@.len() == 0),
    {
        self.terms.len() == 0
    }

    /// Parses a raw search string: one term per whitespace-separated word, lowercased; a word
    /// ending in `$` becomes an exact term without it, any other a prefix term.
    pub fn parse(raw: &str) -> (r: Query)
        ensures
            r@ == parsed_terms(raw@),
    {
        let words = split_words(raw);
        let mut terms: Vec<QueryTerm> = Vec::new();
        let mut i: usize = 0;
        while i < words.len()
            invariant
                0 <= i <= words@.len(),
                views_of(words@) == words_of(raw@),
                terms@.len() == i,
                forall|k: int|
                    0 <= k < i ==> #[trigger] terms@[k]@ == term_of_word(words@[k]@),
            decreases words@.len() - i,
        {
            let t = QueryTerm::from_lowered(lowercase(words[i].as_str()));
            proof {
                assert(views_of(words@)[i as int] == words@[i as int]@);
            }
            terms.push(t);
            i = i + 1;
        }
        let r = Query { terms };
        proof {
            assert(r@ =~= parsed_terms(raw@)) by {
                assert(views_of(words@).len() == words@.len());
                assert forall|k: int| 0 <= k < r@.len() implies r@[k] == parsed_terms(raw@)[k] by {
                    assert(views_of(words@)[k] == words@[k]@);
                }
            }
        }
        r
    }

    /// Whether every term matches at least one of the tokens.
    pub fn matches_tokens(&self, toks: &Vec<String>) -> (r: bool)
        ensures
            r == terms_match(self@, views_of(toks@)),
    {
        let mut i: usize = 0;
        while i < self.terms.len()
            invariant
                0 <= i <= self.terms@.len(),
                forall|k: int| 0 <= k < i ==> term_found(#[trigger] self@[k], views_of(toks@)),
            decreases self.terms@.len() - i,
        {
            let mut found = false;
            let mut j: usize = 0;
            while j < toks.len()
                invariant
                    0 <= i < self.terms@.len(),
                    0 <= j <= toks@.len(),
                    found ==> term_found(self@[i as int], views_of(toks@)),
                    !found ==> forall|m: int|
                        0 <= m < j ==> !#[trigger] term_hits(self@[i as int], views_of(toks@)[m]),
                decreases toks@.len() - j,
            {
                proof {
                    assert(views_of(toks@)[j as int] == toks@[j as int]@);
                }
                if self.terms[i].hits(&toks[j]) {
                    found = true;
                    proof {
                        assert(views_of(toks@).len() == toks@.len());
                        assert(term_hits(self@[i as int], views_of(toks@)[j as int]));
                    }
                }
                j = j + 1;
            }
            if !found {
                proof {
                    assert(views_of(toks@).len() == toks@.len());
                    assert(self@.len() == self.terms@.len());
                    assert(!term_found(self@[i as int], views_of(toks@)));
                    assert(!terms_match(self@, views_of(toks@)));
                }
                return false;
            }
            i = i + 1;
        }
        true
    }
}

} // verus!
