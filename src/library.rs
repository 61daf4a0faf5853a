//! The local catalog: the papers on disk, the requests it serves, and the framing of its file.
use vstd::prelude::*;

use crate::hits::LocalPaper;
use crate::paper::PaperInfo;
use crate::paper::{same_work, InfoView, PaperUrl};
use crate::query::{terms_match, Query};
use crate::paper::info_tokens;

verus! {

/// The version of the catalog file that this library reads and writes.
pub const CURRENT_VERSION: u32 = 1;

/// The version tag at the head of a catalog file.
#[derive(Clone, Copy, Debug, Default, PartialEq, Eq, Structural)]
pub struct LibraryVersion(pub u32);

/// Why a catalog file cannot be read.
#[derive(Clone, Copy, Debug, PartialEq, Eq, Structural)]
pub enum CatalogError {
    /// The file is shorter than its version tag.
    Truncated,
    /// The file was written in another version.
    Version(u32),
}

/// The papers of the catalog, whether they changed since the last save, and the directory of
/// its file.
#[derive(Debug)]
pub struct Library {
    pub papers: Vec<LocalPaper>,
    pub modified: bool,
    pub data_dir: String,
}

/// How opening the catalog went.
#[derive(Debug)]
pub enum LoadingResult {
    Success,
    Failure(String),
}

/// A request to the catalog.
#[derive(Debug)]
pub enum LibReq {
    Save { paper: LocalPaper },
    Query { query: Query, max_hits: usize },
}

/// A catalog entry by its content.
pub open spec fn local_view(p: LocalPaper) -> (InfoView, Seq<char>, Seq<PaperUrl>) {
    (p.metadata@, p.location@, p.ees@)
}

/// Whether the entry at `k` is the same work as `info`.
pub open spec fn same_at(ps: Seq<LocalPaper>, info: InfoView, k: int) -> bool {
    same_work(ps[k].metadata@, info)
}

/// Whether an entry matches the query.
pub open spec fn entry_matches(p: LocalPaper, q: Seq<(bool, Seq<char>)>) -> bool {
    terms_match(q, info_tokens(p.metadata@))
}

/// The entries that match the query, in order.
pub open spec fn matching(ps: Seq<LocalPaper>, q: Seq<(bool, Seq<char>)>) -> Seq<LocalPaper>
    decreases ps.len(),
{
    if ps.len() == 0 {
        Seq::empty()
    } else if entry_matches(ps.last(), q) {
        matching(ps.drop_last(), q).push(ps.last())
    } else {
        matching(ps.drop_last(), q)
    }
}

/// The entries whose flag is set, in order.
pub open spec fn kept(ps: Seq<LocalPaper>, f: Seq<bool>) -> Seq<LocalPaper>
    decreases ps.len(),
{
    if ps.len() == 0 || f.len() == 0 {
        Seq::empty()
    } else if f.last() {
        kept(ps.drop_last(), f.drop_last()).push(ps.last())
    } else {
        kept(ps.drop_last(), f.drop_last())
    }
}

/// The entries whose flag is not set, in order.
pub open spec fn dropped(ps: Seq<LocalPaper>, f: Seq<bool>) -> Seq<LocalPaper> {
    kept(ps, f.map_values(|b: bool| !b))
}

pub open spec fn min(a: int, b: int) -> int {
    if a <= b {
        a
    } else {
        b
    }
}

/// The little-endian bytes of a `u32`.
pub open spec fn le_bytes(v: u32) -> Seq<u8> {
    seq![(v & 0xff) as u8, ((v >> 8) & 0xff) as u8, ((v >> 16) & 0xff) as u8, ((v >> 24) & 0xff) as u8]
}

/// The `u32` that four little-endian bytes hold.
pub open spec fn le_value(b0: u8, b1: u8, b2: u8, b3: u8) -> u32 {
    (b0 as u32) | ((b1 as u32) << 8) | ((b2 as u32) << 16) | ((b3 as u32) << 24)
}

/// A catalog file: the version tag, then the encoded entries.
pub open spec fn catalog_file(version: u32, body: Seq<u8>) -> Seq<u8> {
    le_bytes(version) + body
}

/// What reading a catalog file gives: the encoded entries, where the tag is there and names
/// this version.
pub open spec fn read_catalog(bytes: Seq<u8>) -> Result<Seq<u8>, CatalogError> {
    if bytes.len() < 4 {
        Err(CatalogError::Truncated)
    } else if le_value(bytes[0], bytes[1], bytes[2], bytes[3]) != CURRENT_VERSION {
        Err(CatalogError::Version(le_value(bytes[0], bytes[1], bytes[2], bytes[3])))
    } else {
        Ok(bytes.subrange(4, bytes.len() as int))
    }
}

/// Writing a catalog and reading it back gives the same encoded entries.
pub proof fn lemma_catalog_round_trip(body: Seq<u8>)
    ensures
        read_catalog(catalog_file(CURRENT_VERSION, body)) == Ok::<Seq<u8>, CatalogError>(body),
{
    let f = catalog_file(CURRENT_VERSION, body);
    let v: u32 = CURRENT_VERSION;
    assert(le_value(
        (v & 0xff) as u8,
        ((v >> 8) & 0xff) as u8,
        ((v >> 16) & 0xff) as u8,
        ((v >> 24) & 0xff) as u8,
    ) == v) by (bit_vector);
    assert(f.subrange(4, f.len() as int) =~= body);
}

/// The catalog file for the encoded entries.
pub fn encode_catalog(body: &Vec<u8>) -> (r: Vec<u8>)
    ensures
        r@ == catalog_file(CURRENT_VERSION, body@),
{
    let v: u32 = CURRENT_VERSION;
    let mut r: Vec<u8> = Vec::new();
    r.push((v & 0xff) as u8);
    r.push(((v >> 8) & 0xff) as u8);
    r.push(((v >> 16) & 0xff) as u8);
    r.push(((v >> 24) & 0xff) as u8);
    let mut i: usize = 0;
    while i < body.len()
        invariant
            0 <= i <= body@.len(),
            r@ == le_bytes(v) + body@.subrange(0, i as int),
        decreases body@.len() - i,
    {
        proof {
            assert(body@.subrange(0, i as int + 1) =~= body@.subrange(0, i as int).push(body@[i as int]));
        }
        r.push(body[i]);
        i = i + 1;
    }
    proof {
        assert(body@.subrange(0, body@.len() as int) =~= body@);
    }
    r
}

/// The encoded entries of a catalog file; an error where the tag is missing or names another
/// version.
pub fn decode_catalog(bytes: &Vec<u8>) -> (r: Result<Vec<u8>, CatalogError>)
    ensures
        r is Ok <==> read_catalog(bytes@) is Ok,
        r is Ok ==> r->Ok_0@ == read_catalog(bytes@)->Ok_0,
        r is Err ==> read_catalog(bytes@) == Err::<Seq<u8>, CatalogError>(r->Err_0),
{
    if bytes.len() < 4 {
        return Err(CatalogError::Truncated);
    }
    let v = (bytes[0] as u32) | ((bytes[1] as u32) << 8) | ((bytes[2] as u32) << 16) | ((
    bytes[3] as u32) << 24);
    if v != CURRENT_VERSION {
        return Err(CatalogError::Version(v));
    }
    let mut body: Vec<u8> = Vec::new();
    let mut i: usize = 4;
    while i < bytes.len()
        invariant
            4 <= i <= bytes@.len(),
            body@ == bytes@.subrange(4, i as int),
        decreases bytes@.len() - i,
    {
        proof {
            assert(bytes@.subrange(4, i as int + 1) =~= bytes@.subrange(4, i as int).push(bytes@[i as int]));
        }
        body.push(bytes[i]);
        i = i + 1;
    }
    Ok(body)
}

impl Library {
    /// An empty catalog whose file lies in `data_dir`.
    pub fn new(data_dir: String) -> (r: Library)
        ensures
            r.papers@.len() == 0,
            !r.modified,
            r.data_dir == data_dir,
    {
        Library { papers: Vec::new(), modified: false, data_dir }
    }

    /// A catalog with the entries read from its file.
    pub fn with_papers(data_dir: String, papers: Vec<LocalPaper>) -> (r: Library)
        ensures
            r.papers@ == papers@,
            !r.modified,
            r.data_dir == data_dir,
    {
        Library { papers, modified: false, data_dir }
    }

    pub fn size(&self) -> (r: usize)
        ensures
            r == self.papers@.len(),
    {
        self.papers.len()
    }

    /// Adds a paper. Where an entry is already the same work, only its location is replaced;
    /// else the paper is appended.
    pub fn add(&mut self, paper: LocalPaper)
        ensures
            final(self).modified,
            final(self).data_dir == old(self).data_dir,
            (forall|k: int| 0 <= k < old(self).papers@.len() ==> !same_at(old(self).papers@, paper.metadata@, k))
                ==> final(self).papers@ == old(self).papers@.push(paper),
            forall|k: int|
                0 <= k < old(self).papers@.len() && same_at(old(self).papers@, paper.metadata@, k)
                    && (forall|m: int| 0 <= m < k ==> !same_at(old(self).papers@, paper.metadata@, m))
                    ==> final(self).papers@ == old(self).papers@.update(
                    k,
                    LocalPaper {
                        metadata: old(self).papers@[k].metadata,
                        location: paper.location,
                        ees: old(self).papers@[k].ees,
                    },
                ),
    {
        let mut k: usize = 0;
        while k < self.papers.len() && !self.papers[k].metadata.same_as(&paper.metadata)
            invariant
                self.papers@ == old(self).papers@,
                self.data_dir == old(self).data_dir,
                0 <= k <= self.papers@.len(),
                forall|m: int| 0 <= m < k ==> !same_at(self.papers@, paper.metadata@, m),
            decreases self.papers@.len() - k,
        {
            k = k + 1;
        }
        if k == self.papers.len() {
            self.papers.push(paper);
        } else {
            proof {
                assert(same_at(old(self).papers@, paper.metadata@, k as int));
                assert forall|j: int|
                    0 <= j < old(self).papers@.len() && same_at(old(self).papers@, paper.metadata@, j)
                        && (forall|m: int| 0 <= m < j ==> !same_at(old(self).papers@, paper.metadata@, m))
                        implies j == k by {
                    if j > k {
                        assert(!same_at(old(self).papers@, paper.metadata@, k as int));
                    }
                }
            }
            let ghost before = self.papers@;
            let mut p = self.papers.remove(k);
            p.location = paper.location;
            self.papers.insert(k, p);
            proof {
                assert(self.papers@ =~= before.update(
                    k as int,
                    LocalPaper {
                        metadata: before[k as int].metadata,
                        location: paper.location,
                        ees: before[k as int].ees,
                    },
                ));
            }
        }
        self.modified = true;
    }

    /// The entries that match the query, in order, at most `max_hits` of them.
    pub fn iter_matches(&self, query: &Query, max_hits: usize) -> (r: Vec<LocalPaper>)
        ensures
            r@.len() == min(matching(self.papers@, query@).len() as int, max_hits as int),
            forall|k: int|
                0 <= k < r@.len() ==> local_view(#[trigger] r@[k]) == local_view(
                    matching(self.papers@, query@)[k],
                ),
    {
        let mut r: Vec<LocalPaper> = Vec::new();
        let mut i: usize = 0;
        while i < self.papers.len()
            invariant
                0 <= i <= self.papers@.len(),
                r@.len() == min(matching(self.papers@.subrange(0, i as int), query@).len() as int, max_hits as int),
                forall|k: int|
                    0 <= k < r@.len() ==> local_view(#[trigger] r@[k]) == local_view(
                        matching(self.papers@.subrange(0, i as int), query@)[k],
                    ),
            decreases self.papers@.len() - i,
        {
            let ghost pre = self.papers@.subrange(0, i as int);
            let ghost next = self.papers@.subrange(0, i as int + 1);
            proof {
                assert(next.drop_last() =~= pre);
                assert(next.last() == self.papers@[i as int]);
            }
            if self.papers[i].metadata.matches(query) {
                if r.len() < max_hits {
                    let c = self.papers[i].clone();
                    r.push(c);
                }
            }
            i = i + 1;
        }
        proof {
            assert(self.papers@.subrange(0, self.papers@.len() as int) =~= self.papers@);
        }
        r
    }

    /// The first entry stored at `path`.
    pub fn find_paper_by_path(&self, path: &String) -> (r: Option<&LocalPaper>)
        ensures
            r is None ==> forall|k: int| 0 <= k < self.papers@.len() ==> self.papers@[k].location@ != path@,
            r is Some ==> exists|k: int|
                0 <= k < self.papers@.len() && self.papers@[k] == *r->0 && r->0.location@ == path@
                    && forall|m: int| 0 <= m < k ==> self.papers@[m].location@ != path@,
    {
        let mut k: usize = 0;
        while k < self.papers.len()
            invariant
                0 <= k <= self.papers@.len(),
                forall|m: int| 0 <= m < k ==> self.papers@[m].location@ != path@,
            decreases self.papers@.len() - k,
        {
            if self.papers[k].location == *path {
                return Some(&self.papers[k]);
            }
            k = k + 1;
        }
        None
    }

    /// Removes the entries whose flag is not set and returns them; the others stay, in order.
    pub fn remove_missing(&mut self, present: &Vec<bool>) -> (r: Vec<LocalPaper>)
        requires
            present@.len() == old(self).papers@.len(),
        ensures
            final(self).papers@ == kept(old(self).papers@, present@),
            r@ == dropped(old(self).papers@, present@),
            final(self).modified,
            final(self).data_dir == old(self).data_dir,
    {
        let total = self.papers.len();
        let ghost orig = self.papers@;
        let ghost n = orig.len();
        let mut rest: Vec<LocalPaper> = Vec::new();
        core::mem::swap(&mut self.papers, &mut rest);
        let mut removed: Vec<LocalPaper> = Vec::new();
        let mut i: usize = 0;
        proof {
            assert(orig.subrange(0, 0) =~= Seq::<LocalPaper>::empty());
            assert(rest@ =~= orig.subrange(0, n as int));
        }
        while rest.len() > 0
            invariant
                n == orig.len(),
                n == total,
                self.data_dir == old(self).data_dir,
                present@.len() == n,
                0 <= i <= n,
                rest@.len() + i == n,
                rest@ == orig.subrange(i as int, n as int),
                self.papers@ == kept(orig.subrange(0, i as int), present@.subrange(0, i as int)),
                removed@ == dropped(orig.subrange(0, i as int), present@.subrange(0, i as int)),
            decreases rest@.len(),
        {
            let ghost before = rest@;
            let p = rest.remove(0);
            proof {
                assert(p == orig[i as int]);
                assert(rest@ =~= orig.subrange(i as int + 1, n as int));
                let ps = orig.subrange(0, i as int + 1);
                let fs = present@.subrange(0, i as int + 1);
                assert(ps.drop_last() =~= orig.subrange(0, i as int));
                assert(fs.drop_last() =~= present@.subrange(0, i as int));
                let nf = fs.map_values(|b: bool| !b);
                assert(nf.drop_last() =~= present@.subrange(0, i as int).map_values(|b: bool| !b));
            }
            if present[i] {
                self.papers.push(p);
            } else {
                removed.push(p);
            }
            i = i + 1;
        }
        proof {
            assert(orig.subrange(0, n as int) =~= orig);
            assert(present@.subrange(0, n as int) =~= present@);
        }
        self.modified = true;
        removed
    }

    /// Removes every entry whose file no longer exists and returns the removed entries.
    pub fn clean(&mut self) -> (r: Vec<LocalPaper>)
        ensures
            exists|f: Seq<bool>|
                f.len() == old(self).papers@.len() && final(self).papers@ == kept(old(self).papers@, f)
                    && r@ == dropped(old(self).papers@, f),
            final(self).modified,
            final(self).data_dir == old(self).data_dir,
    {
        let mut flags: Vec<bool> = Vec::new();
        let mut i: usize = 0;
        while i < self.papers.len()
            invariant
                0 <= i <= self.papers@.len(),
                flags@.len() == i,
            decreases self.papers@.len() - i,
        {
            flags.push(self.papers[i].file_exists());
            i = i + 1;
        }
        let ghost f = flags@;
        let r = self.remove_missing(&flags);
        proof {
            assert(f.len() == old(self).papers@.len());
        }
        r
    }

    /// Removes every entry and returns them.
    pub fn clear(&mut self) -> (r: Vec<LocalPaper>)
        ensures
            r@ == old(self).papers@,
            final(self).papers@.len() == 0,
            final(self).modified,
            final(self).data_dir == old(self).data_dir,
    {
        let mut removed: Vec<LocalPaper> = Vec::new();
        core::mem::swap(&mut self.papers, &mut removed);
        self.modified = true;
        removed
    }

    /// Serves one request. A save adds the paper as `add` does: where an entry is already the
    /// same work, only its location is replaced, else the paper is appended. A query answers
    /// with the matching entries (see `iter_matches`) and changes nothing.
    pub fn handle(&mut self, req: LibReq) -> (r: Option<Vec<LocalPaper>>)
        ensures
            req is Save <==> r is None,
            req is Query ==> final(self).papers@ == old(self).papers@ && final(self).modified == old(self).modified,
            match req {
                LibReq::Query { query, max_hits } => r is Some && r->0@.len() == min(
                    matching(old(self).papers@, query@).len() as int,
                    max_hits as int,
                ) && forall|k: int|
                    0 <= k < r->0@.len() ==> local_view(#[trigger] r->0@[k]) == local_view(
                        matching(old(self).papers@, query@)[k],
                    ),
                LibReq::Save { paper } => final(self).modified && final(self).data_dir == old(
                    self,
                ).data_dir && ((forall|k: int|
                    0 <= k < old(self).papers@.len() ==> !same_at(
                        old(self).papers@,
                        paper.metadata@,
                        k,
                    )) ==> final(self).papers@ == old(self).papers@.push(paper)) && forall|k: int|
                    0 <= k < old(self).papers@.len() && same_at(old(self).papers@, paper.metadata@, k)
                        && (forall|m: int|
                        0 <= m < k ==> !same_at(old(self).papers@, paper.metadata@, m))
                        ==> final(self).papers@ == old(self).papers@.update(
                        k,
                        LocalPaper {
                            metadata: old(self).papers@[k].metadata,
                            location: paper.location,
                            ees: old(self).papers@[k].ees,
                        },
                    ),
            },
    {
        match req {
            LibReq::Save { paper } => {
                self.add(paper);
                None
            },
            LibReq::Query { query, max_hits } => Some(self.iter_matches(&query, max_hits)),
        }
    }

    /// Removes the first entry that is the same work as `info`; whether there was one.
    pub fn remove(&mut self, info: &PaperInfo) -> (r: bool)
        ensures
            r == exists|k: int| 0 <= k < old(self).papers@.len() && same_at(old(self).papers@, info@, k),
            !r ==> final(self).papers@ == old(self).papers@ && final(self).modified == old(self).modified,
            forall|k: int|
                0 <= k < old(self).papers@.len() && same_at(old(self).papers@, info@, k) && (forall|m: int|
                    0 <= m < k ==> !same_at(old(self).papers@, info@, m)) ==> final(self).papers@
                    == old(self).papers@.remove(k) && final(self).modified,
            final(self).data_dir == old(self).data_dir,
    {
        let mut k: usize = 0;
        while k < self.papers.len() && !self.papers[k].metadata.same_as(info)
            invariant
                self.papers@ == old(self).papers@,
                self.modified == old(self).modified,
                self.data_dir == old(self).data_dir,
                0 <= k <= self.papers@.len(),
                forall|m: int| 0 <= m < k ==> !same_at(self.papers@, info@, m),
            decreases self.papers@.len() - k,
        {
            k = k + 1;
        }
        if k == self.papers.len() {
            return false;
        }
        proof {
            assert(same_at(old(self).papers@, info@, k as int));
            assert forall|j: int|
                0 <= j < old(self).papers@.len() && same_at(old(self).papers@, info@, j) && (forall|m: int|
                    0 <= m < j ==> !same_at(old(self).papers@, info@, m)) implies j == k by {
                if j > k {
                    assert(!same_at(old(self).papers@, info@, k as int));
                }
            }
        }
        self.papers.remove(k);
        self.modified = true;
        true
    }
}

} // verus!
