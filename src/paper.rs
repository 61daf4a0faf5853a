//! Papers and their metadata, as the sources report them.
use vstd::prelude::*;
use vstd::string::*;

use crate::identifier::Identifier;
use crate::query::{terms_match, Query};
use crate::text::{
    join_sep, join_strings, join_with, join_with_str, lower_of, lowercase, push_char, split_words,
    views_of, words_of,
};

verus! {

/// A title as a list of words, without punctuation.
#[derive(Debug)]
pub struct PaperTitle {
    pub words: Vec<String>,
}

/// An address of a paper or of one of its listings.
#[derive(Debug)]
pub struct PaperUrl(pub String);

/// Where a paper appeared, with the venue's name.
#[derive(Debug)]
pub enum Venue {
    Journal(String),
    Conf(String),
    Arxiv(String),
}

/// The metadata of a paper.
#[derive(Debug)]
pub struct PaperInfo {
    pub id: Option<Identifier>,
    pub title: PaperTitle,
    pub venue: Venue,
    pub authors: Vec<String>,
    pub year: String,
    pub summary: Option<String>,
}

/// The model of a `PaperInfo`: every field by its content.
pub struct InfoView {
    pub id: Option<(u8, u32, u32, Seq<char>)>,
    pub title: Seq<Seq<char>>,
    pub venue: (u8, Seq<char>),
    pub authors: Seq<Seq<char>>,
    pub year: Seq<char>,
    pub summary: Option<Seq<char>>,
}

impl View for PaperTitle {
    type V = Seq<Seq<char>>;

    open spec fn view(&self) -> Seq<Seq<char>> {
        views_of(self.words@)
    }
}

impl View for PaperUrl {
    type V = Seq<char>;

    open spec fn view(&self) -> Seq<char> {
        self.0@
    }
}

impl View for Venue {
    /// The kind (0 journal, 1 conference, 2 preprint server) and the name.
    type V = (u8, Seq<char>);

    open spec fn view(&self) -> (u8, Seq<char>) {
        match self {
            Venue::Journal(n) => (0, n@),
            Venue::Conf(n) => (1, n@),
            Venue::Arxiv(n) => (2, n@),
        }
    }
}

pub open spec fn option_view<T: View>(o: Option<T>) -> Option<T::V> {
    match o {
        Some(x) => Some(x@),
        None => None,
    }
}

impl View for PaperInfo {
    type V = InfoView;

    open spec fn view(&self) -> InfoView {
        InfoView {
            id: option_view(self.id),
            title: self.title@,
            venue: self.venue@,
            authors: views_of(self.authors@),
            year: self.year@,
            summary: option_view(self.summary),
        }
    }
}

/// The key that identifies a title across sources: its words lowercased, joined by single
/// spaces.
pub open spec fn title_key(words: Seq<Seq<char>>) -> Seq<char> {
    join_with(words.map_values(|w: Seq<char>| lower_of(w)), ' ')
}

/// Whether two papers are the same work: by identifier where both have one, else by title,
/// venue and year.
pub open spec fn same_work(a: InfoView, b: InfoView) -> bool {
    if a.id is Some && b.id is Some {
        a.id == b.id
    } else {
        title_key(a.title) == title_key(b.title) && a.venue == b.venue && a.year == b.year
    }
}

/// The text that a query is matched against: title key, authors, venue name and year.
pub open spec fn info_text(v: InfoView) -> Seq<char> {
    title_key(v.title) + seq![' '] + join_with(v.authors, ' ') + seq![' '] + v.venue.1 + seq![' ']
        + v.year
}

/// The tokens that a query is matched against.
pub open spec fn info_tokens(v: InfoView) -> Seq<Seq<char>> {
    words_of(lower_of(info_text(v)))
}

/// Whether `c` is an ASCII punctuation character (`!` to `/`, `:` to `@`, `[` to `` ` ``, `{`
/// to `~`), which titles drop.
pub open spec fn is_punct(c: char) -> bool {
    ('!' <= c && c <= '/') || (':' <= c && c <= '@') || ('[' <= c && c <= '`') || ('{' <= c
        && c <= '~')
}

/// `s` without its punctuation characters.
pub open spec fn strip_punct(s: Seq<char>) -> Seq<char>
    decreases s.len(),
{
    if s.len() == 0 {
        s
    } else if is_punct(s.last()) {
        strip_punct(s.drop_last())
    } else {
        strip_punct(s.drop_last()).push(s.last())
    }
}

/// Whether `c` is an ASCII punctuation character.
pub fn is_punct_char(c: char) -> (r: bool)
    ensures
        r == is_punct(c),
{
    ('!' <= c && c <= '/') || (':' <= c && c <= '@') || ('[' <= c && c <= '`') || ('{' <= c
        && c <= '~')
}

fn copy_strings(v: &Vec<String>) -> (r: Vec<String>)
    ensures
        r@ == v@,
{
    let r = v.clone();
    proof {
        assert(r@ =~= v@);
    }
    r
}

impl Clone for PaperTitle {
    fn clone(&self) -> (r: Self)
        ensures
            r@ == self@,
            r.words@ == self.words@,
    {
        PaperTitle { words: copy_strings(&self.words) }
    }
}

impl Clone for PaperUrl {
    fn clone(&self) -> (r: Self)
        ensures
            r == *self,
    {
        PaperUrl(self.0.clone())
    }
}

impl Clone for Venue {
    fn clone(&self) -> (r: Self)
        ensures
            r == *self,
    {
        match self {
            Venue::Journal(n) => Venue::Journal(n.clone()),
            Venue::Conf(n) => Venue::Conf(n.clone()),
            Venue::Arxiv(n) => Venue::Arxiv(n.clone()),
        }
    }
}

impl Clone for PaperInfo {
    fn clone(&self) -> (r: Self)
        ensures
            r@ == self@,
    {
        let id = match &self.id {
            Some(i) => Some(i.clone()),
            None => None,
        };
        let summary = match &self.summary {
            Some(s) => Some(s.clone()),
            None => None,
        };
        let r = PaperInfo {
            id,
            title: self.title.clone(),
            venue: self.venue.clone(),
            authors: copy_strings(&self.authors),
            year: self.year.clone(),
            summary,
        };
        r
    }
}

impl PaperUrl {
    pub fn new(url: String) -> (r: PaperUrl)
        ensures
            r@ == url@,
    {
        PaperUrl(url)
    }

    pub fn raw(&self) -> (r: String)
        ensures
            r@ == self@,
    {
        self.0.clone()
    }
}

impl Venue {
    /// The venue's name.
    pub fn name(&self) -> (r: &String)
        ensures
            r@ == self@.1,
    {
        match self {
            Venue::Journal(n) => n,
            Venue::Conf(n) => n,
            Venue::Arxiv(n) => n,
        }
    }

    pub fn same_as(&self, other: &Venue) -> (r: bool)
        ensures
            r == (self@ == other@),
    {
        match (self, other) {
            (Venue::Journal(a), Venue::Journal(b)) => *a == *b,
            (Venue::Conf(a), Venue::Conf(b)) => *a == *b,
            (Venue::Arxiv(a), Venue::Arxiv(b)) => *a == *b,
            _ => false,
        }
    }
}

impl PaperTitle {
    /// The words of `title` once its punctuation is removed.
    pub fn new(title: String) -> (r: PaperTitle)
        ensures
            r@ == words_of(strip_punct(title@)),
    {
        let n = title.unicode_len();
        let mut kept = String::new();
        let mut i: usize = 0;
        while i < n
            invariant
                n == title@.len(),
                0 <= i <= n,
                kept@ == strip_punct(title@.subrange(0, i as int)),
            decreases n - i,
        {
            let c = title.as_str().get_char(i);
            proof {
                let pre = title@.subrange(0, i as int + 1);
                assert(pre.drop_last() =~= title@.subrange(0, i as int));
            }
            if !is_punct_char(c) {
                push_char(&mut kept, c);
            }
            i = i + 1;
        }
        proof {
            assert(title@.subrange(0, n as int) =~= title@);
        }
        PaperTitle { words: split_words(kept.as_str()) }
    }

    /// The words lowercased and joined by single spaces: the key that identifies a title
    /// across sources.
    pub fn normalized(&self) -> (r: String)
        ensures
            r@ == title_key(self@),
    {
        let mut lower: Vec<String> = Vec::new();
        let mut i: usize = 0;
        while i < self.words.len()
            invariant
                0 <= i <= self.words@.len(),
                lower@.len() == i,
                forall|k: int| 0 <= k < i ==> #[trigger] lower@[k]@ == lower_of(self.words@[k]@),
            decreases self.words@.len() - i,
        {
            lower.push(lowercase(self.words[i].as_str()));
            i = i + 1;
        }
        let r = join_strings(&lower, ' ');
        proof {
            assert(views_of(lower@) =~= self@.map_values(|w: Seq<char>| lower_of(w)));
        }
        r
    }
}

impl PaperInfo {
    /// Whether this is the same work as `other` (see `same_work`).
    pub fn same_as(&self, other: &PaperInfo) -> (r: bool)
        ensures
            r == same_work(self@, other@),
    {
        match (&self.id, &other.id) {
            (Some(a), Some(b)) => a.eq(b),
            _ => {
                let ta = self.title.normalized();
                let tb = other.title.normalized();
                ta == tb && self.venue.same_as(&other.venue) && self.year == other.year
            },
        }
    }

    /// The text a query is matched against, lowercased.
    fn single_string(&self) -> (r: String)
        ensures
            r@ == lower_of(info_text(self@)),
    {
        let mut s = self.title.normalized();
        push_char(&mut s, ' ');
        let a = join_strings(&self.authors, ' ');
        s.append(a.as_str());
        push_char(&mut s, ' ');
        s.append(self.venue.name().as_str());
        push_char(&mut s, ' ');
        s.append(self.year.as_str());
        proof {
            assert(s@ =~= info_text(self@));
        }
        lowercase(s.as_str())
    }

    /// Whether every term of the query matches a token of title, authors, venue or year.
    pub fn matches(&self, query: &Query) -> (r: bool)
        ensures
            r == terms_match(query@, info_tokens(self@)),
    {
        let text = self.single_string();
        let toks = split_words(text.as_str());
        query.matches_tokens(&toks)
    }
}

impl PartialEq for PaperInfo {
    fn eq(&self, other: &PaperInfo) -> (r: bool) {
        self.same_as(other)
    }
}

impl vstd::std_specs::cmp::PartialEqSpecImpl for PaperInfo {
    open spec fn obeys_eq_spec() -> bool {
        true
    }

    open spec fn eq_spec(&self, other: &PaperInfo) -> bool {
        same_work(self@, other@)
    }
}

/// What `str::to_uppercase` returns for the given characters.
pub uninterp spec fn upper_of(s: Seq<char>) -> Seq<char>;

/// Relies on `str::to_uppercase`: its result is a function of the characters alone.
#[verifier::external_body]
fn uppercase(s: &str) -> (r: String)
    ensures
        r@ == upper_of(s@),
{
    s.to_uppercase()
}

/// An ASCII letter in upper case; any other character as it is.
pub open spec fn ascii_upper(c: char) -> char {
    if 'a' <= c && c <= 'z' {
        ((c as u32 - 32) as u8) as char
    } else {
        c
    }
}

/// The first letter of each name, in ASCII upper case (nothing for an empty name).
pub open spec fn initials(names: Seq<Seq<char>>) -> Seq<char>
    decreases names.len(),
{
    if names.len() == 0 {
        Seq::empty()
    } else {
        let a = names.last();
        initials(names.drop_last()) + if a.len() > 0 {
            seq![ascii_upper(a[0])]
        } else {
            Seq::empty()
        }
    }
}

/// The words written one after the other.
pub open spec fn concat_words(ws: Seq<Seq<char>>) -> Seq<char>
    decreases ws.len(),
{
    if ws.len() == 0 {
        Seq::empty()
    } else {
        concat_words(ws.drop_last()) + ws.last()
    }
}

/// `s` with every `/` replaced by `-`.
pub open spec fn slash_to_dash(s: Seq<char>) -> Seq<char> {
    s.map_values(|c: char| if c == '/' { '-' } else { c })
}

/// The default file name of a paper: the first author's last name in lower case, the initials
/// of the other authors, the year without its first two characters, the first two title words,
/// with `/` replaced by `-`.
pub open spec fn filename_of(v: InfoView) -> Seq<char> {
    let first = lower_of(words_of(v.authors[0]).last());
    let n = if v.title.len() < 2 {
        v.title.len() as int
    } else {
        2
    };
    let title = lower_of(concat_words(v.title.subrange(0, n).map_values(|w: Seq<char>| upper_of(w))));
    slash_to_dash(first + initials(v.authors.drop_first()) + v.year.subrange(2, v.year.len() as int) + title)
}

fn ascii_upper_char(c: char) -> (r: char)
    ensures
        r == ascii_upper(c),
{
    if 'a' <= c && c <= 'z' {
        (((c as u32) - 32) as u8) as char
    } else {
        c
    }
}

impl PaperInfo {
    /// The default file name of the paper (see `filename_of`).
    pub fn default_filename(&self) -> (r: String)
        requires
            self.authors@.len() > 0,
            words_of(self.authors@[0]@).len() > 0,
            self.year@.len() >= 2,
        ensures
            r@ == filename_of(self@),
    {
        let ghost v = self@;
        proof {
            assert(v.authors[0] == self.authors@[0]@);
        }
        let names = split_words(self.authors[0].as_str());
        let last = names.len() - 1;
        proof {
            assert(views_of(names@)[last as int] == names@[last as int]@);
        }
        let mut s = lowercase(names[last].as_str());
        let ghost first = s@;
        let mut i: usize = 1;
        while i < self.authors.len()
            invariant
                1 <= i <= self.authors@.len(),
                v == self@,
                s@ == first + initials(v.authors.subrange(1, i as int)),
            decreases self.authors@.len() - i,
        {
            proof {
                let pre = v.authors.subrange(1, i as int + 1);
                assert(pre.drop_last() =~= v.authors.subrange(1, i as int));
                assert(pre.last() == self.authors@[i as int]@);
            }
            let a = self.authors[i].as_str();
            if a.unicode_len() > 0 {
                push_char(&mut s, ascii_upper_char(a.get_char(0)));
            } else {
                proof {
                    let pre = v.authors.subrange(1, i as int + 1);
                    assert(initials(pre) =~= initials(pre.drop_last()));
                }
            }
            proof {
                let pre = v.authors.subrange(1, i as int + 1);
                assert(s@ =~= first + initials(pre));
            }
            i = i + 1;
        }
        proof {
            assert(v.authors.subrange(1, v.authors.len() as int) =~= v.authors.drop_first());
        }
        let yn = self.year.unicode_len();
        s.append(self.year.as_str().substring_char(2, yn));
        let n: usize = if self.title.words.len() < 2 {
            self.title.words.len()
        } else {
            2
        };
        let mut t = String::new();
        let mut k: usize = 0;
        while k < n
            invariant
                0 <= k <= n,
                n <= self.title.words@.len(),
                v == self@,
                t@ == concat_words(v.title.subrange(0, k as int).map_values(|w: Seq<char>| upper_of(w))),
            decreases n - k,
        {
            proof {
                let pre = v.title.subrange(0, k as int + 1).map_values(|w: Seq<char>| upper_of(w));
                assert(pre.drop_last() =~= v.title.subrange(0, k as int).map_values(|w: Seq<char>| upper_of(w)));
                assert(v.title[k as int] == self.title.words@[k as int]@);
            }
            let u = uppercase(self.title.words[k].as_str());
            t.append(u.as_str());
            k = k + 1;
        }
        let lt = lowercase(t.as_str());
        s.append(lt.as_str());
        let ghost whole = s@;
        let m = s.unicode_len();
        let mut r = String::new();
        let mut j: usize = 0;
        while j < m
            invariant
                m == whole.len(),
                whole == s@,
                0 <= j <= m,
                r@ == slash_to_dash(whole.subrange(0, j as int)),
            decreases m - j,
        {
            let c = s.as_str().get_char(j);
            proof {
                assert(slash_to_dash(whole.subrange(0, j as int + 1)) =~= slash_to_dash(whole.subrange(0, j as int)).push(
                    if c == '/' { '-' } else { c },
                ));
            }
            push_char(&mut r, if c == '/' { '-' } else { c });
            j = j + 1;
        }
        proof {
            assert(whole.subrange(0, m as int) =~= whole);
            assert(whole =~= first + initials(v.authors.drop_first()) + v.year.subrange(2, v.year.len() as int)
                + lt@);
        }
        r
    }
}

/// How a paper's metadata is shown: `Title words. [Author One, Author Two]`.
pub open spec fn info_display(v: InfoView) -> Seq<char> {
    join_with(v.title, ' ') + ". ["@ + join_sep(v.authors, ", "@) + seq![']']
}

impl PaperInfo {
    /// The metadata as it is shown (see `info_display`).
    pub fn text(&self) -> (r: String)
        ensures
            r@ == info_display(self@),
    {
        let mut s = join_strings(&self.title.words, ' ');
        s.append(". [");
        let a = join_with_str(&self.authors, ", ");
        s.append(a.as_str());
        push_char(&mut s, ']');
        s
    }
}

} // verus!
