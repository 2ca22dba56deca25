//! The nearest-palette matcher: for one pixel colour, the coloured palette
//! candidates are scored concurrently under the active metric and reduced
//! to the minimum truncated distance, with ties resolved deterministically
//! by the lowest palette enumeration index.

use vstd::prelude::*;
use crate::colour::Colour;
use crate::colour::metric_dist;
use crate::colour::par_distances;
use crate::config::ColourSpace;
use crate::palette::Blocks;
use crate::palette::palette;
use crate::palette::palette_spec;
use crate::palette::colour_spec;

verus! {

/// The coloured candidates among the first `k` palette entries, in
/// enumeration order, each paired with its reference colour. Variants
/// without a reference colour - the empty sentinel - are excluded.
pub open spec fn cands_upto(k: nat) -> Seq<(Blocks, Colour)>
    decreases k,
{
    if k == 0 {
        Seq::empty()
    } else {
        let prev = cands_upto((k - 1) as nat);
        match colour_spec(palette_spec()[k - 1]) {
            Some(c) => prev.push((palette_spec()[k - 1], c)),
            None => prev,
        }
    }
}

/// All coloured palette candidates, in palette enumeration order.
pub open spec fn cands() -> Seq<(Blocks, Colour)> {
    cands_upto(palette_spec().len())
}

/// Every candidate carries exactly the reference colour of its variant, so
/// no candidate is the colourless empty sentinel.
pub proof fn lemma_cands_upto_wf(k: nat)
    requires
        k <= palette_spec().len(),
    ensures
        forall|i: int| 0 <= i < cands_upto(k).len()
            ==> colour_spec((#[trigger] cands_upto(k)[i]).0) == Some(cands_upto(k)[i].1),
    decreases k,
{
    if k > 0 {
        lemma_cands_upto_wf((k - 1) as nat);
    }
}

/// Every coloured palette entry stands among the candidates, paired with
/// its reference colour.
pub proof fn lemma_cands_upto_complete(k: nat, j: int)
    requires
        0 <= j < k,
        k <= palette_spec().len(),
        colour_spec(palette_spec()[j]) is Some,
    ensures
        exists|i: int| 0 <= i < cands_upto(k).len()
            && #[trigger] cands_upto(k)[i] == (palette_spec()[j], colour_spec(palette_spec()[j]).unwrap()),
    decreases k,
{
    if j == k - 1 {
        let s = cands_upto(k);
        assert(s[s.len() - 1] == (palette_spec()[j], colour_spec(palette_spec()[j]).unwrap()));
    } else {
        lemma_cands_upto_complete((k - 1) as nat, j);
        let prev = cands_upto((k - 1) as nat);
        let i = choose|i: int| 0 <= i < prev.len()
            && #[trigger] prev[i] == (palette_spec()[j], colour_spec(palette_spec()[j]).unwrap());
        assert(cands_upto(k)[i] == prev[i]);
    }
}

/// The palette holds at least one coloured candidate; an empty candidate
/// set would be a broken palette, not a runtime condition.
pub proof fn lemma_cands_nonempty()
    ensures
        cands().len() >= 1,
{
    lemma_cands_upto_complete(palette_spec().len(), 1);
}

/// The index into `cands()` of the best match among the first `k`
/// candidates: minimum truncated distance to `c`, and on ties the lowest
/// index, hence the earliest palette entry.
pub open spec fn best_upto(m: ColourSpace, c: Colour, k: nat) -> int
    decreases k,
{
    if k <= 1 {
        0
    } else {
        let prev = best_upto(m, c, (k - 1) as nat);
        if metric_dist(m, cands()[k - 1].1, c) < metric_dist(m, cands()[prev].1, c) {
            k - 1
        } else {
            prev
        }
    }
}

/// The index into `cands()` of the chosen candidate for colour `c`.
pub open spec fn best_index(m: ColourSpace, c: Colour) -> int {
    best_upto(m, c, cands().len())
}

/// The block variant chosen for a non-transparent pixel of colour `c`.
pub open spec fn best_match(m: ColourSpace, c: Colour) -> Blocks {
    cands()[best_index(m, c)].0
}

pub proof fn lemma_best_upto_range(m: ColourSpace, c: Colour, k: nat)
    requires
        k >= 1,
    ensures
        0 <= best_upto(m, c, k) < k,
    decreases k,
{
    if k > 1 {
        lemma_best_upto_range(m, c, (k - 1) as nat);
    }
}

pub proof fn lemma_best_upto_minimal(m: ColourSpace, c: Colour, k: nat)
    requires
        1 <= k <= cands().len(),
    ensures
        0 <= best_upto(m, c, k) < k,
        forall|i: int| 0 <= i < k
            ==> metric_dist(m, cands()[best_upto(m, c, k)].1, c)
                <= metric_dist(m, #[trigger] cands()[i].1, c),
        forall|i: int| 0 <= i < best_upto(m, c, k)
            ==> metric_dist(m, #[trigger] cands()[i].1, c)
                > metric_dist(m, cands()[best_upto(m, c, k)].1, c),
    decreases k,
{
    lemma_best_upto_range(m, c, k);
    if k > 1 {
        lemma_best_upto_minimal(m, c, (k - 1) as nat);
    }
}

/// The chosen variant minimizes the truncated distance over all coloured
/// palette candidates, and no candidate of a lower palette index achieves
/// that minimum: the tie-break is deterministic, lowest index wins.
pub proof fn lemma_best_match_minimal(m: ColourSpace, c: Colour)
    ensures
        0 <= best_index(m, c) < cands().len(),
        cands()[best_index(m, c)].0 == best_match(m, c),
        forall|i: int| 0 <= i < cands().len()
            ==> metric_dist(m, cands()[best_index(m, c)].1, c)
                <= metric_dist(m, #[trigger] cands()[i].1, c),
        forall|i: int| 0 <= i < best_index(m, c)
            ==> metric_dist(m, #[trigger] cands()[i].1, c)
                > metric_dist(m, cands()[best_index(m, c)].1, c),
{
    lemma_cands_nonempty();
    lemma_best_upto_minimal(m, c, cands().len());
}

/// The chosen variant is never the empty sentinel: the sentinel has no
/// reference colour and is excluded from candidacy.
pub proof fn lemma_best_match_not_air(m: ColourSpace, c: Colour)
    ensures
        best_match(m, c) != Blocks::Air,
        colour_spec(best_match(m, c)) is Some,
{
    lemma_cands_nonempty();
    lemma_best_upto_range(m, c, cands().len());
    lemma_cands_upto_wf(palette_spec().len());
}

/// The coloured candidates as parallel lists of variants and reference
/// colours, in palette enumeration order.
pub fn candidate_lists() -> (r: (Vec<Blocks>, Vec<Colour>))
    ensures
        r.0@.len() == cands().len(),
        r.1@.len() == cands().len(),
        forall|i: int| 0 <= i < cands().len()
            ==> r.0@[i] == (#[trigger] cands()[i]).0 && r.1@[i] == cands()[i].1,
{
    let pal = palette();
    let mut bs: Vec<Blocks> = Vec::new();
    let mut cs: Vec<Colour> = Vec::new();
    let mut k: usize = 0;
    while k < pal.len()
        invariant
            pal@ == palette_spec(),
            k <= pal@.len(),
            bs@.len() == cands_upto(k as nat).len(),
            cs@.len() == cands_upto(k as nat).len(),
            forall|i: int| 0 <= i < cands_upto(k as nat).len()
                ==> bs@[i] == (#[trigger] cands_upto(k as nat)[i]).0
                    && cs@[i] == cands_upto(k as nat)[i].1,
        decreases pal@.len() - k,
    {
        let b = pal[k];
        match b.colour() {
            Some(c) => {
                bs.push(b);
                cs.push(c);
            }
            None => {}
        }
        k = k + 1;
        proof {
            assert(cands_upto(k as nat) == if colour_spec(palette_spec()[k - 1]) is Some {
                cands_upto((k - 1) as nat).push(
                    (palette_spec()[k - 1], colour_spec(palette_spec()[k - 1]).unwrap()),
                )
            } else {
                cands_upto((k - 1) as nat)
            });
        }
    }
    (bs, cs)
}

/// The chosen block for one non-transparent pixel colour: all candidates
/// are scored concurrently, then reduced sequentially to the minimum
/// truncated distance with the lowest-index tie-break.
pub fn best_block(m: &ColourSpace, c: &Colour, bs: &Vec<Blocks>, cs: &Vec<Colour>) -> (r: Blocks)
    requires
        bs@.len() == cands().len(),
        cs@.len() == cands().len(),
        forall|i: int| 0 <= i < cands().len()
            ==> bs@[i] == (#[trigger] cands()[i]).0 && cs@[i] == cands()[i].1,
    ensures
        r == best_match(*m, *c),
{
    proof {
        lemma_cands_nonempty();
    }
    let dists = par_distances(m, c, cs);
    let mut best_i: usize = 0;
    let mut i: usize = 1;
    while i < dists.len()
        invariant
            1 <= i <= dists@.len(),
            dists@.len() == cands().len(),
            bs@.len() == cands().len(),
            cs@.len() == cands().len(),
            forall|j: int| 0 <= j < cands().len()
                ==> bs@[j] == (#[trigger] cands()[j]).0 && cs@[j] == cands()[j].1,
            forall|j: int| 0 <= j < cands().len()
                ==> dists@[j] == metric_dist(*m, (#[trigger] cands()[j]).1, *c),
            0 <= best_i < i,
            best_i == best_upto(*m, *c, i as nat),
        decreases dists@.len() - i,
    {
        if dists[i] < dists[best_i] {
            best_i = i;
        }
        i = i + 1;
        proof {
            assert(best_upto(*m, *c, i as nat) == {
                let prev = best_upto(*m, *c, (i - 1) as nat);
                if metric_dist(*m, cands()[i - 1].1, *c) < metric_dist(*m, cands()[prev].1, *c) {
                    i - 1
                } else {
                    prev
                }
            });
        }
    }
    bs[best_i]
}

} // verus!
