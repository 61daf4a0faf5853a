//! Merging hits from all sources into papers: grouped by normalized title, at most one hit per
//! source in a group, hits ordered by source, papers by year from the newest.
use vstd::prelude::*;

use crate::hits::{hit_key, paper_year, rank, Paper, PaperHit};
use crate::query::Query;

verus! {

/// The hits of the papers, in order.
pub open spec fn flatten(ps: Seq<Paper>) -> Seq<PaperHit>
    decreases ps.len(),
{
    if ps.len() == 0 {
        Seq::empty()
    } else {
        ps[0].0@ + flatten(ps.drop_first())
    }
}

/// Two hits of the same source under the same key.
pub open spec fn same_kind(a: PaperHit, b: PaperHit) -> bool {
    rank(a) == rank(b) && hit_key(a) == hit_key(b)
}

/// Whether no hit before position `j` is of the same kind as the one at `j`.
pub open spec fn first_of_kind(all: Seq<PaperHit>, j: int) -> bool {
    forall|i: int| 0 <= i < j ==> !same_kind(#[trigger] all[i], all[j])
}

/// A merged paper: non-empty, one key, sources strictly in priority order.
pub open spec fn group_ok(p: Seq<PaperHit>) -> bool {
    &&& p.len() > 0
    &&& forall|k: int| 0 <= k < p.len() ==> hit_key(#[trigger] p[k]) == hit_key(p[0])
    &&& forall|k: int, l: int| 0 <= k < l < p.len() ==> rank(#[trigger] p[k]) < rank(#[trigger] p[l])
}

/// Whether some hit of the paper comes from the source of the given rank.
pub open spec fn has_rank(p: Seq<PaperHit>, r: nat) -> bool {
    exists|k: int| 0 <= k < p.len() && rank(#[trigger] p[k]) == r
}

/// The papers group exactly the first hit of each kind of `all`, one key per paper.
pub open spec fn grouped(ps: Seq<Paper>, all: Seq<PaperHit>) -> bool {
    &&& forall|g: int| 0 <= g < ps.len() ==> group_ok(#[trigger] ps[g].0@)
    &&& forall|g1: int, g2: int|
        0 <= g1 < ps.len() && 0 <= g2 < ps.len() && g1 != g2 ==> hit_key(#[trigger] ps[g1].0@[0])
            != hit_key(#[trigger] ps[g2].0@[0])
    &&& forall|g: int, k: int|
        0 <= g < ps.len() && 0 <= k < ps[g].0@.len() ==> from_first(all, #[trigger] ps[g].0@[k])
    &&& forall|j: int| 0 <= j < all.len() ==> covered(ps, #[trigger] all[j])
}

/// Whether `h` is, in `all`, the first hit of its kind.
pub open spec fn from_first(all: Seq<PaperHit>, h: PaperHit) -> bool {
    exists|j: int| 0 <= j < all.len() && #[trigger] all[j] == h && first_of_kind(all, j)
}

/// Whether some paper holds a hit of the same kind as `h`.
pub open spec fn covered(ps: Seq<Paper>, h: PaperHit) -> bool {
    exists|g: int|
        0 <= g < ps.len() && hit_key(#[trigger] ps[g].0@[0]) == hit_key(h) && has_rank(ps[g].0@, rank(h))
}

/// The papers are ordered by year, newest first.
pub open spec fn by_year(ps: Seq<Paper>) -> bool {
    forall|a: int, b: int| 0 <= a < b < ps.len() ==> paper_year(#[trigger] ps[a]) >= paper_year(
        #[trigger] ps[b],
    )
}

/// What a merge of `all` returns.
pub open spec fn merged_from(ps: Seq<Paper>, all: Seq<PaperHit>) -> bool {
    grouped(ps, all) && by_year(ps)
}

/// The answer of one source to one query.
#[derive(Debug)]
pub struct FetchResult {
    pub query: Query,
    pub hits: Vec<PaperHit>,
}

/// The hits moved out of the papers, in order.
fn take_hits(papers: Vec<Paper>) -> (r: Vec<PaperHit>)
    ensures
        r@ == flatten(papers@),
{
    let ghost orig = papers@;
    let mut rest = papers;
    let mut all: Vec<PaperHit> = Vec::new();
    while rest.len() > 0
        invariant
            all@ + flatten(rest@) == flatten(orig),
        decreases rest@.len(),
    {
        let ghost before = rest@;
        let p = rest.remove(0);
        proof {
            assert(rest@ =~= before.drop_first());
            assert(all@ + p.0@ + flatten(rest@) =~= all@ + flatten(before));
        }
        let mut hs = p.0;
        all.append(&mut hs);
    }
    proof {
        assert(all@ =~= all@ + flatten(rest@));
    }
    all
}

/// Groups the hits by key, keeping the first hit of each kind, with hits ordered by source.
fn group_hits(all: Vec<PaperHit>) -> (r: Vec<Paper>)
    ensures
        grouped(r@, all@),
{
    let ghost total = all@;
    let ghost n = total.len();
    let mut rest = all;
    let mut groups: Vec<Paper> = Vec::new();
    let mut keys: Vec<String> = Vec::new();
    let ghost mut origin: Seq<Seq<int>> = Seq::empty();
    let ghost mut gidx: Seq<int> = Seq::empty();
    let ghost mut i: int = 0;
    proof {
        assert(total.subrange(0, n as int) =~= total);
    }
    while rest.len() > 0
        invariant
            0 <= i <= n,
            n == total.len(),
            rest@.len() + i == n,
            rest@ == total.subrange(i, n as int),
            keys@.len() == groups@.len(),
            origin.len() == groups@.len(),
            gidx.len() == i,
            forall|g: int| 0 <= g < groups@.len() ==> #[trigger] keys@[g]@ == hit_key(groups@[g].0@[0]),
            forall|g: int| 0 <= g < groups@.len() ==> group_ok(#[trigger] groups@[g].0@),
            forall|g1: int, g2: int|
                0 <= g1 < groups@.len() && 0 <= g2 < groups@.len() && g1 != g2 ==> hit_key(
                    #[trigger] groups@[g1].0@[0],
                ) != hit_key(#[trigger] groups@[g2].0@[0]),
            forall|g: int| 0 <= g < groups@.len() ==> (#[trigger] origin[g]).len() == groups@[g].0@.len(),
            forall|g: int, k: int|
                0 <= g < groups@.len() && 0 <= k < groups@[g].0@.len() ==> {
                    let j = #[trigger] origin[g][k];
                    &&& 0 <= j < i
                    &&& total[j] == groups@[g].0@[k]
                    &&& first_of_kind(total, j)
                },
            forall|j: int|
                0 <= j < i ==> {
                    let g = #[trigger] gidx[j];
                    &&& 0 <= g < groups@.len()
                    &&& hit_key(groups@[g].0@[0]) == hit_key(total[j])
                    &&& has_rank(groups@[g].0@, rank(total[j]))
                },
        decreases rest@.len(),
    {
        let ghost before = rest@;
        let h = rest.remove(0);
        proof {
            assert(before[0] == total[i]);
            assert(h == total[i]);
            assert(rest@ =~= total.subrange(i + 1, n as int));
        }
        let key = h.key();
        let r = h.source_rank();
        let mut g: usize = 0;
        while g < keys.len() && keys[g] != key
            invariant
                0 <= g <= keys@.len(),
                forall|m: int| 0 <= m < g ==> (#[trigger] keys@[m])@ != key@,
            decreases keys@.len() - g,
        {
            g = g + 1;
        }
        if g == keys.len() {
            // a key not seen before: a new paper
            proof {
                assert forall|j: int| 0 <= j < i implies !same_kind(#[trigger] total[j], total[i]) by {
                    let gj = gidx[j];
                    assert(keys@[gj]@ != key@);
                }
                assert(first_of_kind(total, i));
            }
            let mut hs: Vec<PaperHit> = Vec::new();
            hs.push(h);
            let ghost old_groups = groups@;
            groups.push(Paper(hs));
            keys.push(key);
            proof {
                origin = origin.push(seq![i]);
                gidx = gidx.push(old_groups.len() as int);
                assert(has_rank(groups@[old_groups.len() as int].0@, rank(total[i]))) by {
                    assert(rank(groups@[old_groups.len() as int].0@[0]) == rank(total[i]));
                }
                assert forall|j: int| 0 <= j < i implies {
                    let g = #[trigger] gidx[j];
                    &&& 0 <= g < groups@.len()
                    &&& hit_key(groups@[g].0@[0]) == hit_key(total[j])
                    &&& has_rank(groups@[g].0@, rank(total[j]))
                } by {
                    assert(groups@[gidx[j]] == old_groups[gidx[j]]);
                }
                let last = old_groups.len() as int;
                assert forall|g1: int, g2: int|
                    0 <= g1 < groups@.len() && 0 <= g2 < groups@.len() && g1 != g2 implies hit_key(
                        #[trigger] groups@[g1].0@[0],
                    ) != hit_key(#[trigger] groups@[g2].0@[0]) by {
                    if g1 == last {
                        assert(keys@[g2]@ != key@);
                    } else if g2 == last {
                        assert(keys@[g1]@ != key@);
                    } else {
                        assert(groups@[g1] == old_groups[g1] && groups@[g2] == old_groups[g2]);
                    }
                }
            }
        } else {
            proof {
                assert(keys@[g as int]@ == key@);
            }
            let ghost old_groups = groups@;
            let mut p = groups.remove(g);
            let ghost ph = p.0@;
            let mut pos: usize = 0;
            while pos < p.0.len() && p.0[pos].source_rank() < r
                invariant
                    p.0@ == ph,
                    0 <= pos <= ph.len(),
                    forall|m: int| 0 <= m < pos ==> rank(#[trigger] ph[m]) < r,
                decreases ph.len() - pos,
            {
                pos = pos + 1;
            }
            if pos < p.0.len() && p.0[pos].source_rank() == r {
                // a hit of this source is already in the paper: keep the earlier one
                groups.insert(g, p);
                proof {
                    assert(groups@ =~= old_groups);
                    gidx = gidx.push(g as int);
                    assert(has_rank(groups@[g as int].0@, rank(total[i]))) by {
                        assert(rank(groups@[g as int].0@[pos as int]) == rank(total[i]));
                    }
                }
            } else {
                proof {
                    assert forall|m: int| pos <= m < ph.len() implies rank(#[trigger] ph[m]) > r by {
                        if m > pos {
                            assert(rank(ph[pos as int]) < rank(ph[m]));
                        }
                    }
                    assert forall|j: int| 0 <= j < i implies !same_kind(#[trigger] total[j], total[i]) by {
                        let gj = gidx[j];
                        if same_kind(total[j], total[i]) {
                            if gj != g {
                                assert(hit_key(old_groups[gj].0@[0]) != hit_key(old_groups[g as int].0@[0]));
                            }
                            let k = choose|k: int| 0 <= k < ph.len() && rank(#[trigger] ph[k]) == rank(total[j]);
                            if k < pos {
                                assert(rank(ph[k]) < r);
                            } else {
                                assert(rank(ph[k]) > r);
                            }
                        }
                    }
                    assert(first_of_kind(total, i));
                }
                p.0.insert(pos, h);
                let ghost np = p.0@;
                proof {
                    assert(np =~= ph.insert(pos as int, total[i]));
                    assert(group_ok(np)) by {
                        assert forall|k: int| 0 <= k < np.len() implies hit_key(#[trigger] np[k]) == hit_key(np[0]) by {
                            if k < pos {
                                assert(np[k] == ph[k]);
                            } else if k > pos {
                                assert(np[k] == ph[k - 1]);
                            }
                            if pos > 0 {
                                assert(np[0] == ph[0]);
                            } else {
                                assert(np[0] == total[i]);
                                assert(hit_key(total[i]) == hit_key(ph[0]));
                            }
                        }
                        assert forall|k: int, l: int| 0 <= k < l < np.len() implies rank(#[trigger] np[k]) < rank(#[trigger] np[l]) by {
                            if k < pos && l < pos {
                                assert(np[k] == ph[k] && np[l] == ph[l]);
                            } else if k < pos && l == pos {
                                assert(np[k] == ph[k]);
                            } else if k < pos {
                                assert(np[k] == ph[k] && np[l] == ph[l - 1]);
                            } else if k == pos {
                                assert(np[l] == ph[l - 1]);
                            } else {
                                assert(np[k] == ph[k - 1] && np[l] == ph[l - 1]);
                            }
                        }
                    }
                    assert(hit_key(np[0]) == hit_key(ph[0])) by {
                        if pos > 0 {
                            assert(np[0] == ph[0]);
                        }
                    }
                }
                groups.insert(g, p);
                proof {
                    let ng = groups@;
                    assert(ng =~= old_groups.update(g as int, ng[g as int]));
                    let oo = origin[g as int];
                    origin = origin.update(g as int, oo.insert(pos as int, i));
                    gidx = gidx.push(g as int);
                    assert forall|gg: int, k: int|
                        0 <= gg < ng.len() && 0 <= k < ng[gg].0@.len() implies {
                            let j = #[trigger] origin[gg][k];
                            &&& 0 <= j < i + 1
                            &&& total[j] == ng[gg].0@[k]
                            &&& first_of_kind(total, j)
                        } by {
                        if gg == g {
                            if k < pos {
                                assert(origin[gg][k] == oo[k]);
                                assert(np[k] == ph[k]);
                            } else if k > pos {
                                assert(origin[gg][k] == oo[k - 1]);
                                assert(np[k] == ph[k - 1]);
                            }
                        }
                    }
                    assert forall|j: int| 0 <= j < i + 1 implies {
                        let gg = #[trigger] gidx[j];
                        &&& 0 <= gg < ng.len()
                        &&& hit_key(ng[gg].0@[0]) == hit_key(total[j])
                        &&& has_rank(ng[gg].0@, rank(total[j]))
                    } by {
                        let gg = gidx[j];
                        if j == i {
                            assert(rank(np[pos as int]) == rank(total[i]));
                        } else if gg == g {
                            let k = choose|k: int| 0 <= k < ph.len() && rank(#[trigger] ph[k]) == rank(total[j]);
                            if k < pos {
                                assert(np[k] == ph[k]);
                            } else {
                                assert(np[k + 1] == ph[k]);
                            }
                        }
                    }
                }
            }
        }
        proof {
            i = i + 1;
        }
    }
    proof {
        assert(i == n);
        assert forall|g: int, k: int|
            0 <= g < groups@.len() && 0 <= k < groups@[g].0@.len() implies from_first(total, #[trigger] groups@[g].0@[k]) by {
            let j = origin[g][k];
            assert(0 <= j < total.len() && total[j] == groups@[g].0@[k] && first_of_kind(total, j));
        }
        assert forall|j: int| 0 <= j < total.len() implies covered(groups@, #[trigger] total[j]) by {
            let g = gidx[j];
            assert(0 <= g < groups@.len() && hit_key(groups@[g].0@[0]) == hit_key(total[j])
                && has_rank(groups@[g].0@, rank(total[j])));
        }
        assert(grouped(groups@, total));
    }
    groups
}

/// `v` holds the papers of `orig` moved to other places: `perm` gives for each place the place
/// it came from, `inv` the way back.
pub open spec fn permuted(v: Seq<Paper>, orig: Seq<Paper>, perm: Seq<int>, inv: Seq<int>) -> bool {
    &&& v.len() == orig.len()
    &&& perm.len() == orig.len()
    &&& inv.len() == orig.len()
    &&& forall|k: int|
        0 <= k < v.len() ==> 0 <= #[trigger] perm[k] < v.len() && inv[perm[k]] == k && v[k]
            == orig[perm[k]]
    &&& forall|g: int| 0 <= g < v.len() ==> 0 <= #[trigger] inv[g] < v.len() && perm[inv[g]] == g
}

proof fn lemma_permuted_grouped(
    v: Seq<Paper>,
    orig: Seq<Paper>,
    perm: Seq<int>,
    inv: Seq<int>,
    all: Seq<PaperHit>,
)
    requires
        permuted(v, orig, perm, inv),
        grouped(orig, all),
    ensures
        grouped(v, all),
{
    assert forall|g: int| 0 <= g < v.len() implies group_ok(#[trigger] v[g].0@) by {
        assert(v[g] == orig[perm[g]]);
    }
    assert forall|g1: int, g2: int|
        0 <= g1 < v.len() && 0 <= g2 < v.len() && g1 != g2 implies hit_key(#[trigger] v[g1].0@[0])
            != hit_key(#[trigger] v[g2].0@[0]) by {
        assert(v[g1] == orig[perm[g1]] && v[g2] == orig[perm[g2]]);
        assert(perm[g1] != perm[g2]);
    }
    assert forall|g: int, k: int|
        0 <= g < v.len() && 0 <= k < v[g].0@.len() implies from_first(all, #[trigger] v[g].0@[k]) by {
        assert(v[g] == orig[perm[g]]);
        assert(from_first(all, orig[perm[g]].0@[k]));
    }
    assert forall|j: int| 0 <= j < all.len() implies covered(v, #[trigger] all[j]) by {
        assert(covered(orig, all[j]));
        let g = choose|g: int|
            0 <= g < orig.len() && hit_key(#[trigger] orig[g].0@[0]) == hit_key(all[j]) && has_rank(
                orig[g].0@,
                rank(all[j]),
            );
        assert(v[inv[g]] == orig[g]);
    }
}

fn year_of(p: &Paper) -> (r: u32)
    requires
        p.0@.len() > 0,
    ensures
        r as nat == paper_year(*p),
{
    p.0[0].year_number()
}

/// Whether the paper at `j` is newer than the one before it.
fn newer_behind(v: &Vec<Paper>, j: usize) -> (r: bool)
    requires
        0 < j < v@.len(),
        forall|k: int| 0 <= k < v@.len() ==> (#[trigger] v@[k]).0@.len() > 0,
    ensures
        r == (paper_year(v@[j - 1]) < paper_year(v@[j as int])),
{
    year_of(&v[j - 1]) < year_of(&v[j])
}

/// Orders the papers by year, newest first.
fn sort_by_year(v: &mut Vec<Paper>, Ghost(all): Ghost<Seq<PaperHit>>)
    requires
        grouped(old(v)@, all),
    ensures
        grouped(final(v)@, all),
        by_year(final(v)@),
{
    let ghost orig = v@;
    let n = v.len();
    let ghost mut perm: Seq<int> = Seq::new(n as nat, |k: int| k);
    let ghost mut inv: Seq<int> = Seq::new(n as nat, |k: int| k);
    if n == 0 {
        proof {
            lemma_permuted_grouped(v@, orig, perm, inv, all);
        }
        return;
    }
    proof {
        assert forall|k: int| 0 <= k < v@.len() implies (#[trigger] v@[k]).0@.len() > 0 by {
            assert(group_ok(orig[k].0@));
        }
    }
    let mut i: usize = 1;
    while i < n
        invariant
            n == v@.len(),
            1 <= i <= n,
            permuted(v@, orig, perm, inv),
            grouped(orig, all),
            forall|k: int| 0 <= k < v@.len() ==> (#[trigger] v@[k]).0@.len() > 0,
            forall|a: int, b: int| 0 <= a < b < i ==> paper_year(#[trigger] v@[a]) >= paper_year(#[trigger] v@[b]),
        decreases n - i,
    {
        let mut j: usize = i;
        let mut moving = newer_behind(v, j);
        while moving
            invariant
                n == v@.len(),
                1 <= i < n,
                0 <= j <= i,
                forall|k: int| 0 <= k < v@.len() ==> (#[trigger] v@[k]).0@.len() > 0,
                moving ==> j > 0 && paper_year(v@[j - 1]) < paper_year(v@[j as int]),
                !moving ==> j == 0 || paper_year(v@[j - 1]) >= paper_year(v@[j as int]),
                permuted(v@, orig, perm, inv),
                grouped(orig, all),
                forall|a: int, b: int| 0 <= a < b < j ==> paper_year(#[trigger] v@[a]) >= paper_year(#[trigger] v@[b]),
                forall|a: int, b: int| j < a < b <= i ==> paper_year(#[trigger] v@[a]) >= paper_year(#[trigger] v@[b]),
                forall|a: int, b: int| 0 <= a < j && j < b <= i ==> paper_year(#[trigger] v@[a]) >= paper_year(#[trigger] v@[b]),
                forall|b: int| j < b <= i ==> paper_year(v@[j as int]) > paper_year(#[trigger] v@[b]),
            decreases j,
        {
            let ghost old_v = v@;
            let x = v.remove(j);
            v.insert(j - 1, x);
            proof {
                let a = j as int - 1;
                let b = j as int;
                assert(v@ =~= old_v.update(a, old_v[b]).update(b, old_v[a]));
                let pa = perm[a];
                let pb = perm[b];
                perm = perm.update(a, pb).update(b, pa);
                inv = inv.update(pb, a).update(pa, b);
                assert(permuted(v@, orig, perm, inv));
            }
            j = j - 1;
            moving = j > 0 && newer_behind(v, j);
        }
        proof {
            assert forall|a: int, b: int| 0 <= a < b < i + 1 implies paper_year(#[trigger] v@[a]) >= paper_year(#[trigger] v@[b]) by {
                if b == j && a < j {
                    assert(paper_year(v@[a]) >= paper_year(v@[j - 1]));
                }
            }
        }
        i = i + 1;
    }
    proof {
        lemma_permuted_grouped(v@, orig, perm, inv, all);
    }
}

/// Merges incoming hits into the papers: the hits already there and the new ones are grouped by
/// normalized title; in each paper the first hit of each source is kept, hits ordered catalog,
/// preprint server, bibliography server; papers ordered by year, newest first.
pub fn merge_to_papers(papers: &mut Vec<Paper>, hits: Vec<PaperHit>)
    ensures
        merged_from(final(papers)@, flatten(old(papers)@) + hits@),
{
    let mut taken: Vec<Paper> = Vec::new();
    core::mem::swap(papers, &mut taken);
    let mut all = take_hits(taken);
    let mut more = hits;
    all.append(&mut more);
    let ghost total = all@;
    let mut grouped_papers = group_hits(all);
    sort_by_year(&mut grouped_papers, Ghost(total));
    *papers = grouped_papers;
}

/// Merges hits into papers as `merge_to_papers` does, starting from none.
pub fn merge_papers(hits: Vec<PaperHit>) -> (r: Vec<Paper>)
    ensures
        merged_from(r@, hits@),
{
    let mut papers: Vec<Paper> = Vec::new();
    merge_to_papers(&mut papers, hits);
    proof {
        assert(flatten(Seq::<Paper>::empty()) + hits@ =~= hits@);
    }
    papers
}

/// Merging hits into papers never leaves two hits of one source in one paper, for any papers
/// and any incoming hits: a hit that arrives again, from the same source under the same
/// normalized title, is not added a second time.
pub proof fn lemma_merge_one_hit_per_source(papers: Seq<Paper>, incoming: Seq<PaperHit>, merged: Seq<Paper>)
    requires
        merged_from(merged, flatten(papers) + incoming),
    ensures
        forall|g: int, k: int, l: int|
            0 <= g < merged.len() && 0 <= k < merged[g].0@.len() && 0 <= l < merged[g].0@.len() && k
                != l ==> rank(#[trigger] merged[g].0@[k]) != rank(#[trigger] merged[g].0@[l]),
{
    assert forall|g: int, k: int, l: int|
        0 <= g < merged.len() && 0 <= k < merged[g].0@.len() && 0 <= l < merged[g].0@.len() && k
            != l implies rank(#[trigger] merged[g].0@[k]) != rank(#[trigger] merged[g].0@[l]) by {
        assert(group_ok(merged[g].0@));
    }
}

/// A merged paper that holds hits of the catalog, the preprint server and the bibliography
/// server holds exactly these three, in this order, whatever order they arrived in.
pub proof fn lemma_merge_source_order(
    papers: Seq<Paper>,
    incoming: Seq<PaperHit>,
    merged: Seq<Paper>,
    g: int,
)
    requires
        merged_from(merged, flatten(papers) + incoming),
        0 <= g < merged.len(),
        has_rank(merged[g].0@, 0),
        has_rank(merged[g].0@, 1),
        has_rank(merged[g].0@, 2),
    ensures
        merged[g].0@.len() == 3,
        rank(merged[g].0@[0]) == 0,
        rank(merged[g].0@[1]) == 1,
        rank(merged[g].0@[2]) == 2,
{
    let p = merged[g].0@;
    assert(group_ok(p));
    let k0 = choose|k: int| 0 <= k < p.len() && rank(#[trigger] p[k]) == 0;
    let k1 = choose|k: int| 0 <= k < p.len() && rank(#[trigger] p[k]) == 1;
    let k2 = choose|k: int| 0 <= k < p.len() && rank(#[trigger] p[k]) == 2;
    assert(k0 != k1 && k1 != k2 && k0 != k2);
    if p.len() > 3 {
        assert(rank(p[0]) < rank(p[1]) && rank(p[1]) < rank(p[2]) && rank(p[2]) < rank(p[3]));
        assert(rank(p[3]) <= 2);
    }
    assert(p.len() == 3);
    if k0 != 0 {
        assert(rank(p[0]) < rank(p[k0]));
    }
    assert(rank(p[0]) < rank(p[1]) && rank(p[1]) < rank(p[2]));
    assert(rank(p[2]) <= 2);
}

} // verus!
