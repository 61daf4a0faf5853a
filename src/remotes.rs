//! The two online sources: the request address for a query, and the hit that one decoded
//! entry of an answer gives.
use vstd::prelude::*;
use vstd::string::*;

use crate::hits::{ArxivPaper, DBLPPaper, PaperHit};
use crate::identifier::{
    arxiv_groups_ok, arxiv_pattern, doi_groups_ok, doi_pattern, last_segment, ArxivIdentifier, Doi,
    Identifier,
};
use crate::number::{decimal_digits, decimal_string, decimal_value};
use crate::paper::{strip_punct, InfoView, PaperInfo, PaperTitle, PaperUrl, Venue};
use crate::pattern::{regex_groups, regex_replaced, replace_all};
use crate::query::{Query, QueryTerm};
use crate::text::{
    before_first, contains_text, has_prefix, join_sep, join_with_str, occurs_in, prefix_before,
    same_text, trim, trimmed, views_of, words_of,
};

verus! {

/// The preprint server.
#[derive(Clone, Copy, Debug)]
pub struct Arxiv;

/// The bibliography server.
#[derive(Clone, Copy, Debug)]
pub struct Dblp;

/// The fields of one entry of the preprint server's answer, as the document holds them.
#[derive(Debug)]
pub struct ArxivEntry {
    pub title: Option<String>,
    pub summary: Option<String>,
    pub published: Option<String>,
    pub authors: Vec<String>,
    pub id: Option<String>,
}

/// The fields of one hit of the bibliography server's answer, as the document holds them.
#[derive(Debug)]
pub struct DblpEntry {
    pub title: Option<String>,
    pub venue: Option<String>,
    pub key: Option<String>,
    pub year: Option<String>,
    pub authors: Vec<String>,
    pub ee: Option<String>,
    pub url: Option<String>,
    pub doi: Option<String>,
}

/// The text of a field, or an empty one where it is missing.
pub open spec fn or_empty(o: Option<String>) -> Seq<char> {
    match o {
        Some(s) => s@,
        None => Seq::empty(),
    }
}

/// The text of an address field, or `None` where it is missing.
pub open spec fn or_none_text(o: Option<String>) -> Seq<char> {
    match o {
        Some(s) => s@,
        None => "None"@,
    }
}

/// The pattern of the noise (four digits) in author names.
pub open spec fn noise_pattern() -> Seq<char> {
    "\\d{4}"@
}

/// An author's name without four-digit noise and surrounding whitespace.
pub open spec fn clean_author(a: Seq<char>) -> Seq<char> {
    let r = regex_replaced(noise_pattern(), a, Seq::empty());
    trimmed(
        if r is Some {
            r->0
        } else {
            a
        },
    )
}

/// The model of the arXiv number that an address ends in, where it has one.
pub open spec fn arxiv_id_of(url: Seq<char>) -> Option<(u8, u32, u32, Seq<char>)> {
    let g = regex_groups(arxiv_pattern(), last_segment(url));
    if arxiv_groups_ok(g) {
        Some((0u8, decimal_value(g->0[1]) as u32, decimal_value(g->0[2]) as u32, g->0[3]))
    } else {
        None
    }
}

/// The model of the DOI in a text, where it holds one.
pub open spec fn doi_of(text: Seq<char>) -> Option<(u8, u32, u32, Seq<char>)> {
    let g = regex_groups(doi_pattern(), text);
    if doi_groups_ok(g) {
        Some((1u8, decimal_value(g->0[1]) as u32, 0u32, g->0[2]))
    } else {
        None
    }
}

/// The words of a term as a source receives them.
pub open spec fn term_words(q: Seq<(bool, Seq<char>)>, mark_exact: bool) -> Seq<Seq<char>> {
    q.map_values(
        |t: (bool, Seq<char>)|
            if t.0 && mark_exact {
                t.1.push('$')
            } else {
                t.1
            },
    )
}

/// The preprint server's search address for the query.
pub open spec fn arxiv_url(q: Seq<(bool, Seq<char>)>, max_hits: nat) -> Seq<char> {
    "http://export.arxiv.org/api/query?search_query="@ + join_sep(term_words(q, false), "+AND+"@)
        + "&max_results="@ + decimal_digits(max_hits)
}

/// The bibliography server's search address for the query.
pub open spec fn dblp_url(q: Seq<(bool, Seq<char>)>, max_hits: nat) -> Seq<char> {
    "https://dblp.org/search/publ/api?q="@ + join_sep(term_words(q, true), "+"@) + "&h="@
        + decimal_digits(max_hits)
}

/// The model of the metadata that an entry of the preprint server gives.
pub open spec fn arxiv_info(e: ArxivEntry) -> InfoView {
    InfoView {
        id: arxiv_id_of(or_none_text(e.id)),
        title: words_of(strip_punct(or_empty(e.title))),
        venue: (0u8, "CoRR"@),
        authors: views_of(e.authors@).map_values(|a: Seq<char>| clean_author(a)),
        year: before_first(or_empty(e.published), '-'),
        summary: match e.summary {
            Some(s) => Some(s@),
            None => None,
        },
    }
}

/// The venue of a hit of the bibliography server: a journal (or the preprint server, for the
/// journal listing `CoRR`) where its key starts with `journal`, else a conference.
pub open spec fn dblp_venue(key: Seq<char>, name: Seq<char>) -> (u8, Seq<char>) {
    if "journal"@.is_prefix_of(key) {
        if name == "CoRR"@ {
            (2u8, name)
        } else {
            (0u8, name)
        }
    } else {
        (1u8, name)
    }
}

/// The identifier of a hit of the bibliography server: its DOI where it has one, else the
/// arXiv number of a listing address on the preprint server.
pub open spec fn dblp_id(e: DblpEntry) -> Option<(u8, u32, u32, Seq<char>)> {
    match e.doi {
        Some(d) => doi_of(d@),
        None => if occurs_in("arxiv"@, or_none_text(e.url)) {
            arxiv_id_of(or_none_text(e.url))
        } else {
            None
        },
    }
}

/// The model of the metadata that a hit of the bibliography server gives.
pub open spec fn dblp_info(e: DblpEntry) -> InfoView {
    InfoView {
        id: dblp_id(e),
        title: words_of(strip_punct(or_empty(e.title))),
        venue: dblp_venue(or_empty(e.key), or_empty(e.venue)),
        authors: views_of(e.authors@).map_values(|a: Seq<char>| clean_author(a)),
        year: or_empty(e.year),
        summary: None,
    }
}

fn text_or_empty(o: &Option<String>) -> (r: String)
    ensures
        r@ == or_empty(*o),
{
    match o {
        Some(s) => s.clone(),
        None => String::new(),
    }
}

fn text_or_none(o: &Option<String>) -> (r: String)
    ensures
        r@ == or_none_text(*o),
{
    match o {
        Some(s) => s.clone(),
        None => String::from_str("None"),
    }
}

/// An author's name without four-digit noise and surrounding whitespace.
pub fn clean_author_name(a: &str) -> (r: String)
    ensures
        r@ == clean_author(a@),
{
    proof {
        reveal_strlit("");
        assert(""@ =~= Seq::<char>::empty());
    }
    match replace_all("\\d{4}", a, "") {
        Some(s) => trim(s.as_str()),
        None => trim(a),
    }
}

fn clean_authors(v: &Vec<String>) -> (r: Vec<String>)
    ensures
        views_of(r@) == views_of(v@).map_values(|a: Seq<char>| clean_author(a)),
{
    let mut r: Vec<String> = Vec::new();
    let mut i: usize = 0;
    while i < v.len()
        invariant
            0 <= i <= v@.len(),
            r@.len() == i,
            forall|k: int| 0 <= k < i ==> #[trigger] r@[k]@ == clean_author(v@[k]@),
        decreases v@.len() - i,
    {
        r.push(clean_author_name(v[i].as_str()));
        i = i + 1;
    }
    proof {
        assert(views_of(r@) =~= views_of(v@).map_values(|a: Seq<char>| clean_author(a)));
    }
    r
}

/// The arXiv number that an address ends in, where it has one.
fn arxiv_id(url: &str) -> (r: Option<Identifier>)
    ensures
        match r {
            Some(i) => arxiv_id_of(url@) == Some(i@),
            None => arxiv_id_of(url@) is None,
        },
{
    match ArxivIdentifier::parse_string(url) {
        Ok(a) => Some(Identifier::Arxiv(a)),
        Err(_) => None,
    }
}

/// The words of the query as a source receives them.
fn query_words(query: &Query, mark_exact: bool) -> (r: Vec<String>)
    ensures
        views_of(r@) == term_words(query@, mark_exact),
{
    let mut r: Vec<String> = Vec::new();
    let mut i: usize = 0;
    while i < query.terms.len()
        invariant
            0 <= i <= query.terms@.len(),
            r@.len() == i,
            forall|k: int|
                0 <= k < i ==> #[trigger] r@[k]@ == (if query@[k].0 && mark_exact {
                    query@[k].1.push('$')
                } else {
                    query@[k].1
                }),
        decreases query.terms@.len() - i,
    {
        let w = match &query.terms[i] {
            QueryTerm::Exact(q) => {
                let mut w = q.clone();
                if mark_exact {
                    w.append("$");
                    proof {
                        reveal_strlit("$");
                    }
                }
                w
            },
            QueryTerm::Prefix(q) => q.clone(),
        };
        r.push(w);
        i = i + 1;
    }
    proof {
        assert(views_of(r@) =~= term_words(query@, mark_exact));
    }
    r
}

impl Arxiv {
    pub fn name(&self) -> (r: String)
        ensures
            r@ == "arXiv"@,
    {
        String::from_str("arXiv")
    }

    /// The search address for the query: terms joined with `+AND+`, at most `max_hits` results.
    pub fn get_url(query: &Query, max_hits: usize) -> (r: String)
        ensures
            r@ == arxiv_url(query@, max_hits as nat),
    {
        let mut r = String::from_str("http://export.arxiv.org/api/query?search_query=");
        let words = query_words(query, false);
        let joined = join_with_str(&words, "+AND+");
        r.append(joined.as_str());
        r.append("&max_results=");
        let n = decimal_string(max_hits as u64);
        r.append(n.as_str());
        r
    }

    /// The hit that one entry of an answer gives. A missing field is taken as empty; an address
    /// that ends in no arXiv number gives a hit without identifier.
    pub fn entry_to_hit(entry: &ArxivEntry) -> (r: PaperHit)
        ensures
            match r {
                PaperHit::Arxiv(p) => p.metadata@ == arxiv_info(*entry) && p.ee@ == or_none_text(
                    entry.id,
                ),
                _ => false,
            },
    {
        let url = text_or_none(&entry.id);
        let id = arxiv_id(url.as_str());
        let title = PaperTitle::new(text_or_empty(&entry.title));
        let published = text_or_empty(&entry.published);
        let year = prefix_before(published.as_str(), '-');
        let summary = match &entry.summary {
            Some(s) => Some(s.clone()),
            None => None,
        };
        let metadata = PaperInfo {
            id,
            title,
            venue: Venue::Journal(String::from_str("CoRR")),
            authors: clean_authors(&entry.authors),
            year,
            summary,
        };
        PaperHit::Arxiv(ArxivPaper { metadata, ee: PaperUrl(url) })
    }
}

impl Dblp {
    pub fn name(&self) -> (r: String)
        ensures
            r@ == "DBLP"@,
    {
        String::from_str("DBLP")
    }

    /// The search address for the query: terms joined with `+`, exact terms marked with `$`, at
    /// most `max_hits` results.
    pub fn get_url(query: &Query, max_hits: usize) -> (r: String)
        ensures
            r@ == dblp_url(query@, max_hits as nat),
    {
        let mut r = String::from_str("https://dblp.org/search/publ/api?q=");
        let words = query_words(query, true);
        let joined = join_with_str(&words, "+");
        r.append(joined.as_str());
        r.append("&h=");
        let n = decimal_string(max_hits as u64);
        r.append(n.as_str());
        r
    }

    /// The venue of a hit from its key and venue name.
    pub fn classify_venue(key: &str, name: String) -> (r: Venue)
        ensures
            r@ == dblp_venue(key@, name@),
    {
        if has_prefix(key, "journal") {
            if same_text(name.as_str(), "CoRR") {
                Venue::Arxiv(name)
            } else {
                Venue::Journal(name)
            }
        } else {
            Venue::Conf(name)
        }
    }

    /// The hit that one entry of an answer gives. A missing field is taken as empty; an
    /// identifier that cannot be read is left out.
    pub fn entry_to_hit(entry: &DblpEntry) -> (r: PaperHit)
        ensures
            match r {
                PaperHit::Dblp(p) => p.metadata@ == dblp_info(*entry) && p.url@ == or_none_text(
                    entry.url,
                ) && p.ee@ == or_none_text(entry.ee),
                _ => false,
            },
    {
        let url = text_or_none(&entry.url);
        let ee = text_or_none(&entry.ee);
        let id = match &entry.doi {
            Some(d) => match Doi::parse_doi(d.as_str()) {
                Ok(doi) => Some(Identifier::Doi(doi)),
                Err(_) => None,
            },
            None => {
                if contains_text(url.as_str(), "arxiv") {
                    arxiv_id(url.as_str())
                } else {
                    None
                }
            },
        };
        let key = text_or_empty(&entry.key);
        let venue = Dblp::classify_venue(key.as_str(), text_or_empty(&entry.venue));
        let metadata = PaperInfo {
            id,
            title: PaperTitle::new(text_or_empty(&entry.title)),
            venue,
            authors: clean_authors(&entry.authors),
            year: text_or_empty(&entry.year),
            summary: None,
        };
        PaperHit::Dblp(DBLPPaper { metadata, url: PaperUrl(url), ee: PaperUrl(ee) })
    }
}

} // verus!
