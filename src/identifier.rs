//! Identifiers of papers: arXiv numbers, DOIs, and free-form names.
use vstd::prelude::*;
use vstd::string::*;

use crate::number::{decimal_digits, decimal_string, decimal_value, parse_u32, two_digit_string,
    two_digits, all_digits};
use crate::pattern::{captures, regex_groups};
use crate::text::{push_char, views_of};

verus! {

/// An arXiv number: two digits of year, two of month, then the sequence part.
#[derive(Debug)]
pub struct ArxivIdentifier {
    pub year: u32,
    pub month: u32,
    pub number: String,
}

/// A DOI: `10.<registrant>/<suffix>`.
#[derive(Debug)]
pub struct Doi {
    pub organization: u32,
    pub id: String,
}

#[derive(Debug)]
pub enum Identifier {
    Arxiv(ArxivIdentifier),
    Doi(Doi),
    Custom(String),
}

/// Why an identifier could not be read.
#[derive(Debug, PartialEq, Eq, Structural)]
pub enum IdentifierError {
    Unreadable,
}

impl View for Identifier {
    /// The variant (0 arXiv, 1 DOI, 2 custom), the numbers, and the text.
    type V = (u8, u32, u32, Seq<char>);

    open spec fn view(&self) -> (u8, u32, u32, Seq<char>) {
        match self {
            Identifier::Arxiv(a) => (0, a.year, a.month, a.number@),
            Identifier::Doi(d) => (1, d.organization, 0, d.id@),
            Identifier::Custom(s) => (2, 0, 0, s@),
        }
    }
}

impl Clone for ArxivIdentifier {
    fn clone(&self) -> (r: Self)
        ensures
            r == *self,
    {
        ArxivIdentifier { year: self.year, month: self.month, number: self.number.clone() }
    }
}

impl Clone for Doi {
    fn clone(&self) -> (r: Self)
        ensures
            r == *self,
    {
        Doi { organization: self.organization, id: self.id.clone() }
    }
}

impl Clone for Identifier {
    fn clone(&self) -> (r: Self)
        ensures
            r == *self,
    {
        match self {
            Identifier::Arxiv(a) => Identifier::Arxiv(a.clone()),
            Identifier::Doi(d) => Identifier::Doi(d.clone()),
            Identifier::Custom(s) => Identifier::Custom(s.clone()),
        }
    }
}

impl PartialEq for Identifier {
    fn eq(&self, other: &Identifier) -> (r: bool) {
        match (self, other) {
            (Identifier::Arxiv(a), Identifier::Arxiv(b)) => a.year == b.year && a.month == b.month
                && a.number == b.number,
            (Identifier::Doi(a), Identifier::Doi(b)) => a.organization == b.organization && a.id
                == b.id,
            (Identifier::Custom(a), Identifier::Custom(b)) => *a == *b,
            _ => false,
        }
    }
}

impl vstd::std_specs::cmp::PartialEqSpecImpl for Identifier {
    open spec fn obeys_eq_spec() -> bool {
        true
    }

    open spec fn eq_spec(&self, other: &Identifier) -> bool {
        self@ == other@
    }
}

/// The position just after the last `/` among the first `i` characters (0 if there is none).
pub open spec fn segment_start(s: Seq<char>, i: int) -> int
    decreases i,
{
    if i <= 0 {
        0
    } else if s[i - 1] == '/' {
        i
    } else {
        segment_start(s, i - 1)
    }
}

/// What follows the last `/` of `s` (all of `s` if it has none).
pub open spec fn last_segment(s: Seq<char>) -> Seq<char> {
    s.subrange(segment_start(s, s.len() as int), s.len() as int)
}

/// The pattern of an arXiv number at the end of an abstract-page address.
pub open spec fn arxiv_pattern() -> Seq<char> {
    "(\\d{2})(\\d{2})\\.?(.+)"@
}

/// The pattern of a DOI.
pub open spec fn doi_pattern() -> Seq<char> {
    "10.(\\d+)/(.+)"@
}

/// Whether the digits spell a number that a `u32` holds.
pub open spec fn u32_digits(s: Seq<char>) -> bool {
    all_digits(s) && decimal_value(s) <= u32::MAX
}

/// The texts of the groups of a match, where there is one.
pub open spec fn groups_view(g: Option<Vec<String>>) -> Option<Seq<Seq<char>>> {
    match g {
        Some(v) => Some(views_of(v@)),
        None => None,
    }
}

/// Whether the groups of a match of `arxiv_pattern` make an arXiv number.
pub open spec fn arxiv_groups_ok(g: Option<Seq<Seq<char>>>) -> bool {
    g is Some && g->0.len() >= 4 && u32_digits(g->0[1]) && u32_digits(g->0[2])
}

/// Whether the groups of a match of `doi_pattern` make a DOI.
pub open spec fn doi_groups_ok(g: Option<Seq<Seq<char>>>) -> bool {
    g is Some && g->0.len() >= 3 && u32_digits(g->0[1])
}

/// The text of an arXiv number: year and month with two digits each, a dot, the sequence part.
pub open spec fn arxiv_text(year: u32, month: u32, number: Seq<char>) -> Seq<char> {
    two_digits(year as nat) + two_digits(month as nat) + seq!['.'] + number
}

/// The text of a DOI.
pub open spec fn doi_text(organization: u32, id: Seq<char>) -> Seq<char> {
    seq!['1', '0', '.'] + decimal_digits(organization as nat) + seq!['/'] + id
}

/// The canonical text of an identifier, by its view.
pub open spec fn identifier_text(v: (u8, u32, u32, Seq<char>)) -> Seq<char> {
    if v.0 == 0 {
        arxiv_text(v.1, v.2, v.3)
    } else if v.0 == 1 {
        doi_text(v.1, v.3)
    } else {
        v.3
    }
}

/// What follows the last `/` of `s`.
pub fn last_path_segment(s: &str) -> (r: &str)
    ensures
        r@ == last_segment(s@),
{
    let n = s.unicode_len();
    let mut start: usize = 0;
    let mut i: usize = 0;
    while i < n
        invariant
            n == s@.len(),
            0 <= i <= n,
            start as int == segment_start(s@, i as int),
            start <= i,
        decreases n - i,
    {
        if s.get_char(i) == '/' {
            start = i + 1;
        }
        i = i + 1;
    }
    s.substring_char(start, n)
}

impl ArxivIdentifier {
    /// Reads an arXiv number from the last path segment of an address.
    pub fn parse_string(id: &str) -> (r: Result<ArxivIdentifier, IdentifierError>)
        ensures
            r is Ok <==> arxiv_groups_ok(regex_groups(arxiv_pattern(), last_segment(id@))),
            r is Ok ==> ({
                let g = regex_groups(arxiv_pattern(), last_segment(id@))->0;
                &&& r->Ok_0.year == decimal_value(g[1])
                &&& r->Ok_0.month == decimal_value(g[2])
                &&& r->Ok_0.number@ == g[3]
            }),
    {
        let seg = last_path_segment(id);
        ArxivIdentifier::from_groups(captures("(\\d{2})(\\d{2})\\.?(.+)", seg))
    }

    /// The arXiv number that the groups of a match of `arxiv_pattern` give: year, month and
    /// sequence part from groups one to three; an error where there is no match, a group is
    /// missing, or year or month is not a number that fits a `u32`.
    pub fn from_groups(g: Option<Vec<String>>) -> (r: Result<ArxivIdentifier, IdentifierError>)
        ensures
            r is Ok <==> arxiv_groups_ok(groups_view(g)),
            r is Ok ==> ({
                let v = groups_view(g)->0;
                &&& r->Ok_0.year == decimal_value(v[1])
                &&& r->Ok_0.month == decimal_value(v[2])
                &&& r->Ok_0.number@ == v[3]
            }),
    {
        match g {
            Some(g) => {
                if g.len() < 4 {
                    return Err(IdentifierError::Unreadable);
                }
                proof {
                    assert(views_of(g@)[1] == g@[1]@);
                    assert(views_of(g@)[2] == g@[2]@);
                    assert(views_of(g@)[3] == g@[3]@);
                }
                let year = parse_u32(g[1].as_str());
                let month = parse_u32(g[2].as_str());
                match (year, month) {
                    (Some(year), Some(month)) => Ok(
                        ArxivIdentifier { year, month, number: g[3].clone() },
                    ),
                    _ => Err(IdentifierError::Unreadable),
                }
            },
            None => Err(IdentifierError::Unreadable),
        }
    }

    /// The canonical text, e.g. `2101.00001`.
    pub fn text(&self) -> (r: String)
        ensures
            r@ == arxiv_text(self.year, self.month, self.number@),
    {
        let mut r = two_digit_string(self.year);
        let m = two_digit_string(self.month);
        r.append(m.as_str());
        push_char(&mut r, '.');
        r.append(self.number.as_str());
        r
    }
}

impl Doi {
    /// Reads a DOI of the form `10.<registrant>/<suffix>`.
    pub fn parse_doi(doi_string: &str) -> (r: Result<Doi, IdentifierError>)
        ensures
            r is Ok <==> doi_groups_ok(regex_groups(doi_pattern(), doi_string@)),
            r is Ok ==> ({
                let g = regex_groups(doi_pattern(), doi_string@)->0;
                &&& r->Ok_0.organization == decimal_value(g[1])
                &&& r->Ok_0.id@ == g[2]
            }),
    {
        Doi::from_groups(captures("10.(\\d+)/(.+)", doi_string))
    }

    /// The DOI that the groups of a match of `doi_pattern` give: registrant from group one,
    /// suffix from group two; an error where there is no match, a group is missing, or the
    /// registrant is not a number that fits a `u32`.
    pub fn from_groups(g: Option<Vec<String>>) -> (r: Result<Doi, IdentifierError>)
        ensures
            r is Ok <==> doi_groups_ok(groups_view(g)),
            r is Ok ==> ({
                let v = groups_view(g)->0;
                &&& r->Ok_0.organization == decimal_value(v[1])
                &&& r->Ok_0.id@ == v[2]
            }),
    {
        match g {
            Some(g) => {
                if g.len() < 3 {
                    return Err(IdentifierError::Unreadable);
                }
                proof {
                    assert(views_of(g@)[1] == g@[1]@);
                    assert(views_of(g@)[2] == g@[2]@);
                }
                match parse_u32(g[1].as_str()) {
                    Some(organization) => Ok(Doi { organization, id: g[2].clone() }),
                    None => Err(IdentifierError::Unreadable),
                }
            },
            None => Err(IdentifierError::Unreadable),
        }
    }

    /// The canonical text, e.g. `10.1145/3386569`.
    pub fn text(&self) -> (r: String)
        ensures
            r@ == doi_text(self.organization, self.id@),
    {
        let mut r = String::new();
        push_char(&mut r, '1');
        push_char(&mut r, '0');
        push_char(&mut r, '.');
        let o = decimal_string(self.organization as u64);
        r.append(o.as_str());
        push_char(&mut r, '/');
        r.append(self.id.as_str());
        proof {
            assert(r@ =~= doi_text(self.organization, self.id@));
        }
        r
    }
}

impl Identifier {
    /// The canonical text of the identifier.
    pub fn text(&self) -> (r: String)
        ensures
            r@ == identifier_text(self@),
    {
        match self {
            Identifier::Arxiv(a) => a.text(),
            Identifier::Doi(d) => d.text(),
            Identifier::Custom(s) => s.clone(),
        }
    }
}

} // verus!
