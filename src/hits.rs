//! What each source reports of a paper, and papers merged from several sources.
use vstd::prelude::*;
use vstd::string::*;

use crate::identifier::identifier_text;
use crate::number::decimal_value;
use crate::identifier::u32_digits;
use crate::number::parse_u32;
use crate::paper::{info_display, title_key, InfoView, PaperInfo, PaperUrl};
use crate::text::push_char;

verus! {

/// A paper in the local catalog: its metadata, where the file lies, and the addresses it was
/// fetched from.
#[derive(Debug)]
pub struct LocalPaper {
    pub metadata: PaperInfo,
    pub location: String,
    pub ees: Vec<PaperUrl>,
}

/// A hit of the preprint server, with its abstract page.
#[derive(Debug)]
pub struct ArxivPaper {
    pub metadata: PaperInfo,
    pub ee: PaperUrl,
}

/// A hit of the bibliography server, with its listing page and external link.
#[derive(Debug)]
pub struct DBLPPaper {
    pub metadata: PaperInfo,
    pub url: PaperUrl,
    pub ee: PaperUrl,
}

/// One source's report of a paper.
#[derive(Debug)]
pub enum PaperHit {
    Local(LocalPaper),
    Arxiv(ArxivPaper),
    Dblp(DBLPPaper),
}

/// The hits that are believed to denote one work, ordered by source.
#[derive(Debug)]
pub struct Paper(pub Vec<PaperHit>);

/// The model of a hit: its source and every field by its content.
pub enum HitView {
    Local(InfoView, Seq<char>, Seq<PaperUrl>),
    Arxiv(InfoView, PaperUrl),
    Dblp(InfoView, PaperUrl, PaperUrl),
}

impl View for PaperHit {
    type V = HitView;

    open spec fn view(&self) -> HitView {
        match self {
            PaperHit::Local(p) => HitView::Local(p.metadata@, p.location@, p.ees@),
            PaperHit::Arxiv(p) => HitView::Arxiv(p.metadata@, p.ee),
            PaperHit::Dblp(p) => HitView::Dblp(p.metadata@, p.url, p.ee),
        }
    }
}

/// The metadata that a hit carries.
pub open spec fn hit_info(h: PaperHit) -> PaperInfo {
    match h {
        PaperHit::Local(p) => p.metadata,
        PaperHit::Arxiv(p) => p.metadata,
        PaperHit::Dblp(p) => p.metadata,
    }
}

/// The place of a hit's source in a merged paper: the catalog, then the preprint server, then
/// the bibliography server.
pub open spec fn rank(h: PaperHit) -> nat {
    match h {
        PaperHit::Local(_) => 0,
        PaperHit::Arxiv(_) => 1,
        PaperHit::Dblp(_) => 2,
    }
}

/// The key under which hits of different sources are merged: the normalized title.
pub open spec fn hit_key(h: PaperHit) -> Seq<char> {
    title_key(hit_info(h).title@)
}

/// A year as a number: its decimal value, or 0 where it is not a run of digits that fits a
/// `u32`.
pub open spec fn year_number(year: Seq<char>) -> nat {
    if u32_digits(year) {
        decimal_value(year)
    } else {
        0
    }
}

/// The year that a merged paper is sorted by: that of its first hit.
pub open spec fn paper_year(p: Paper) -> nat {
    year_number(hit_info(p.0@[0]).year@)
}

/// The address of the PDF of a preprint with the given identifier text.
pub open spec fn pdf_url_of(id_text: Seq<char>) -> Seq<char> {
    "https://arxiv.org/pdf/"@ + id_text + ".pdf"@
}

/// The address of the BibTeX export of a listing page.
pub open spec fn bib_url_of(listing: Seq<char>) -> Seq<char> {
    listing + ".bib?param=0"@
}

fn copy_urls(v: &Vec<PaperUrl>) -> (r: Vec<PaperUrl>)
    ensures
        r@ == v@,
{
    let r = v.clone();
    proof {
        assert(r@ =~= v@);
    }
    r
}

impl Clone for LocalPaper {
    fn clone(&self) -> (r: Self)
        ensures
            r.metadata@ == self.metadata@,
            r.location == self.location,
            r.ees@ == self.ees@,
    {
        LocalPaper {
            metadata: self.metadata.clone(),
            location: self.location.clone(),
            ees: copy_urls(&self.ees),
        }
    }
}

impl Clone for ArxivPaper {
    fn clone(&self) -> (r: Self)
        ensures
            r.metadata@ == self.metadata@,
            r.ee == self.ee,
    {
        ArxivPaper { metadata: self.metadata.clone(), ee: self.ee.clone() }
    }
}

impl Clone for DBLPPaper {
    fn clone(&self) -> (r: Self)
        ensures
            r.metadata@ == self.metadata@,
            r.url == self.url,
            r.ee == self.ee,
    {
        DBLPPaper { metadata: self.metadata.clone(), url: self.url.clone(), ee: self.ee.clone() }
    }
}

impl Clone for PaperHit {
    fn clone(&self) -> (r: Self)
        ensures
            r@ == self@,
            rank(r) == rank(*self),
    {
        match self {
            PaperHit::Local(p) => PaperHit::Local(p.clone()),
            PaperHit::Arxiv(p) => PaperHit::Arxiv(p.clone()),
            PaperHit::Dblp(p) => PaperHit::Dblp(p.clone()),
        }
    }
}

impl LocalPaper {
    pub fn metadata(&self) -> (r: &PaperInfo)
        ensures
            r == self.metadata,
    {
        &self.metadata
    }
}

impl ArxivPaper {
    pub fn metadata(&self) -> (r: &PaperInfo)
        ensures
            r == self.metadata,
    {
        &self.metadata
    }

    /// The address of the preprint's PDF.
    pub fn download_url(&self) -> (r: PaperUrl)
        requires
            self.metadata.id is Some,
        ensures
            r@ == pdf_url_of(identifier_text(self.metadata@.id->0)),
    {
        let mut s = String::from_str("https://arxiv.org/pdf/");
        match &self.metadata.id {
            Some(id) => {
                let t = id.text();
                s.append(t.as_str());
            },
            None => {},
        }
        s.append(".pdf");
        PaperUrl(s)
    }
}

impl DBLPPaper {
    pub fn metadata(&self) -> (r: &PaperInfo)
        ensures
            r == self.metadata,
    {
        &self.metadata
    }

    /// The address of the listing's BibTeX export.
    pub fn bib_url(&self) -> (r: PaperUrl)
        ensures
            r@ == bib_url_of(self.url@),
    {
        let mut s = self.url.raw();
        s.append(".bib?param=0");
        PaperUrl(s)
    }
}

impl PaperHit {
    /// The metadata that the hit carries.
    pub fn metadata(&self) -> (r: &PaperInfo)
        ensures
            *r == hit_info(*self),
    {
        match self {
            PaperHit::Arxiv(paper) => paper.metadata(),
            PaperHit::Dblp(paper) => paper.metadata(),
            PaperHit::Local(paper) => paper.metadata(),
        }
    }

    /// The place of the hit's source in a merged paper.
    pub fn source_rank(&self) -> (r: u8)
        ensures
            r as nat == rank(*self),
    {
        match self {
            PaperHit::Local(_) => 0,
            PaperHit::Arxiv(_) => 1,
            PaperHit::Dblp(_) => 2,
        }
    }

    /// The key under which hits of different sources are merged.
    pub fn key(&self) -> (r: String)
        ensures
            r@ == hit_key(*self),
    {
        self.metadata().title.normalized()
    }

    /// The year as a number (0 where it is not one).
    pub fn year_number(&self) -> (r: u32)
        ensures
            r as nat == year_number(hit_info(*self).year@),
    {
        match parse_u32(self.metadata().year.as_str()) {
            Some(y) => y,
            None => 0,
        }
    }
}

impl Paper {
    pub fn new(hits: Vec<PaperHit>) -> (r: Paper)
        ensures
            r.0@ == hits@,
    {
        Paper(hits)
    }

    pub fn hits(&self) -> (r: &[PaperHit])
        ensures
            r@ == self.0@,
    {
        self.0.as_slice()
    }

    /// The metadata of the first (highest-priority) hit.
    pub fn metadata(&self) -> (r: &PaperInfo)
        requires
            self.0@.len() > 0,
        ensures
            *r == hit_info(self.0@[0]),
    {
        self.0[0].metadata()
    }
}

/// Relies on `std::path::Path::exists`: whether a file lies at the path now. Nothing is known
/// of the answer.
#[verifier::external_body]
pub(crate) fn path_exists(path: &String) -> bool {
    std::path::Path::new(path).exists()
}

/// The tag that names a hit's source, with its year and, for the catalog and the bibliography
/// server, its venue: `Local(2017 NeurIPS)`, `arXiv(2017)`, `DBLP(2017 NeurIPS)`.
pub open spec fn tag_of(h: PaperHit) -> Seq<char> {
    let v = hit_info(h)@;
    match h {
        PaperHit::Local(_) => "Local("@ + v.year + seq![' '] + v.venue.1 + seq![')'],
        PaperHit::Arxiv(_) => "arXiv("@ + v.year + seq![')'],
        PaperHit::Dblp(_) => "DBLP("@ + v.year + seq![' '] + v.venue.1 + seq![')'],
    }
}

fn year_venue_tag(source: &str, info: &PaperInfo, with_venue: bool) -> (r: String)
    ensures
        r@ == if with_venue {
            source@ + info@.year + seq![' '] + info@.venue.1 + seq![')']
        } else {
            source@ + info@.year + seq![')']
        },
{
    let mut s = String::from_str(source);
    s.append(info.year.as_str());
    if with_venue {
        push_char(&mut s, ' ');
        s.append(info.venue.name().as_str());
    }
    push_char(&mut s, ')');
    s
}

impl LocalPaper {
    /// Whether the file still lies at the entry's location.
    pub fn file_exists(&self) -> bool {
        path_exists(&self.location)
    }

    pub fn remote_tag(&self) -> (r: String)
        ensures
            r@ == tag_of(PaperHit::Local(*self)),
    {
        year_venue_tag("Local(", &self.metadata, true)
    }
}

impl ArxivPaper {
    pub fn remote_tag(&self) -> (r: String)
        ensures
            r@ == tag_of(PaperHit::Arxiv(*self)),
    {
        year_venue_tag("arXiv(", &self.metadata, false)
    }
}

impl DBLPPaper {
    pub fn remote_tag(&self) -> (r: String)
        ensures
            r@ == tag_of(PaperHit::Dblp(*self)),
    {
        year_venue_tag("DBLP(", &self.metadata, true)
    }
}

impl PaperHit {
    /// The tag that names the hit's source (see `tag_of`).
    pub fn remote_tag(&self) -> (r: String)
        ensures
            r@ == tag_of(*self),
    {
        match self {
            PaperHit::Arxiv(paper) => paper.remote_tag(),
            PaperHit::Dblp(paper) => paper.remote_tag(),
            PaperHit::Local(paper) => paper.remote_tag(),
        }
    }
}

/// The tags of the hits, each followed by a space.
pub open spec fn tags_text(hs: Seq<PaperHit>) -> Seq<char>
    decreases hs.len(),
{
    if hs.len() == 0 {
        Seq::empty()
    } else {
        tags_text(hs.drop_last()) + tag_of(hs.last()) + seq![' ']
    }
}

/// How a merged paper is shown: its metadata, then the tag of each hit.
pub open spec fn paper_text(p: Paper) -> Seq<char> {
    info_display(hit_info(p.0@[0])@) + seq![' '] + tags_text(p.0@)
}

impl Paper {
    /// The paper as it is shown (see `paper_text`).
    pub fn text(&self) -> (r: String)
        requires
            self.0@.len() > 0,
        ensures
            r@ == paper_text(*self),
    {
        let mut s = self.metadata().text();
        push_char(&mut s, ' ');
        let ghost head = s@;
        let mut i: usize = 0;
        while i < self.0.len()
            invariant
                0 <= i <= self.0@.len(),
                s@ == head + tags_text(self.0@.subrange(0, i as int)),
            decreases self.0@.len() - i,
        {
            proof {
                let pre = self.0@.subrange(0, i as int + 1);
                assert(pre.drop_last() =~= self.0@.subrange(0, i as int));
            }
            let t = self.0[i].remote_tag();
            s.append(t.as_str());
            push_char(&mut s, ' ');
            proof {
                let pre = self.0@.subrange(0, i as int + 1);
                assert(s@ =~= head + tags_text(pre));
            }
            i = i + 1;
        }
        proof {
            assert(self.0@.subrange(0, self.0@.len() as int) =~= self.0@);
        }
        s
    }
}

} // verus!
