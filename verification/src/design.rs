//! The conversion core: a `Design` is the grid of block variants matched
//! from a downsampled source image.
//!
//! A design is created in three steps: the requested build height is
//! validated against the build limit, the source is downsampled to a
//! working buffer whose width preserves the aspect ratio (rounded up so no
//! source column is dropped), and every working pixel is matched to the
//! nearest coloured palette variant under the configured metric. Fully
//! transparent pixels always take the empty sentinel.

use vstd::prelude::*;
use vstd::arithmetic::div_mod::lemma_fundamental_div_mod_converse;
use vstd::arithmetic::div_mod::lemma_div_is_ordered;
use crate::BUILD_LIMIT;
use crate::colour::Colour;
use crate::config::ColourSpace;
use crate::config::Config;
use crate::config::effective_config;
use crate::matcher::best_match;
use crate::matcher::best_block;
use crate::matcher::candidate_lists;
use crate::matcher::lemma_best_match_not_air;
use crate::palette::Blocks;
use crate::palette::palette;
use crate::palette::palette_spec;
use crate::palette::palette_index_spec;
use crate::palette::lemma_palette_index;
use crate::palette::lemma_palette_distinct;
use crate::raster::RgbaBuffer;
use crate::raster::channel_at;
use crate::raster::alpha_at;
use crate::raster::all_transparent;
use crate::raster::resampled;
use crate::raster::resize_rgba;

verus! {

/// The failures a conversion can surface to its caller.
#[derive(Clone, Copy, Debug, PartialEq, Eq, Structural)]
pub enum DesignError {
    /// The requested build height exceeds the build limit.
    InvalidInput,
    /// A palette-referenced sprite is missing or cannot be decoded.
    InvalidData,
}

impl DesignError {
    /// A human-readable description of the failure.
    pub fn message(&self) -> (r: &'static str)
        ensures
            *self == DesignError::InvalidInput ==> r@ == "height is greater than the build limit"@,
            *self == DesignError::InvalidData ==> r@ == "a palette sprite is missing or undecodable"@,
    {
        match self {
            DesignError::InvalidInput => "height is greater than the build limit",
            DesignError::InvalidData => "a palette sprite is missing or undecodable",
        }
    }
}

/// The variant a working pixel maps to: the empty sentinel where the pixel
/// is fully transparent, else the nearest coloured palette candidate.
pub open spec fn cell_spec(m: ColourSpace, r: u8, g: u8, b: u8, a: u8) -> Blocks {
    if a == 0 {
        Blocks::Air
    } else {
        best_match(m, Colour { r, g, b })
    }
}

/// The grid matched from a working buffer: cell `k` stands for the pixel
/// at `(k % w, k / w)`.
pub open spec fn matched(m: ColourSpace, data: Seq<u8>, w: int, h: int) -> Seq<Blocks> {
    Seq::new((w * h) as nat, |k: int| cell_spec(
        m,
        channel_at(data, w, k % w, k / w, 0),
        channel_at(data, w, k % w, k / w, 1),
        channel_at(data, w, k % w, k / w, 2),
        channel_at(data, w, k % w, k / w, 3),
    ))
}

/// The working width that preserves the source's aspect ratio at the given
/// target height, rounded up so no source column is dropped.
pub open spec fn target_width_spec(sw: int, sh: int, th: int) -> int {
    (sw * th + sh - 1) / sh
}

/// A finished design: the grid of block variants, row by row.
#[derive(Debug)]
pub struct Design {
    pub width: usize,
    pub height: usize,
    pub cells: Vec<Blocks>,
}

impl Design {
    /// A design is well formed when its grid is a non-empty rectangle with
    /// one variant per cell.
    pub open spec fn wf(self) -> bool {
        &&& self.width >= 1
        &&& self.height >= 1
        &&& self.cells@.len() == self.width * self.height
    }

    /// The variant of the cell at `(x, y)`.
    pub open spec fn cell(self, x: int, y: int) -> Blocks {
        self.cells@[y * self.width + x]
    }

    /// The dimensions of the design, as (width, height).
    pub fn dimensions(&self) -> (r: (usize, usize))
        ensures
            r.0 == self.width,
            r.1 == self.height,
    {
        (self.width, self.height)
    }
}

/// Matches every pixel of the working buffer to a block variant: a fully
/// transparent pixel takes the empty sentinel, and every other pixel takes
/// the coloured candidate with the minimum truncated distance, ties going
/// to the lowest palette index. A cell is the sentinel exactly where its
/// pixel's alpha is zero.
pub fn match_image(img: &RgbaBuffer, metric: &ColourSpace) -> (d: Design)
    requires
        img.wf(),
        img.width >= 1,
        img.height >= 1,
    ensures
        d.wf(),
        d.width as int == img.width as int,
        d.height as int == img.height as int,
        d.cells@ == matched(*metric, img.data@, img.width as int, img.height as int),
        forall|x: int, y: int| 0 <= x < img.width && 0 <= y < img.height
            ==> (d.cell(x, y) == Blocks::Air
                <==> alpha_at(img.data@, img.width as int, x, y) == 0),
{
    let lists = candidate_lists();
    let w: usize = img.width as usize;
    let h: usize = img.height as usize;
    let n: usize = img.data.len();
    proof {
        assert(n == 4 * (w as int) * (h as int));
        assert((w as int) * (h as int) <= 4 * (w as int) * (h as int)) by (nonlinear_arith);
    }
    let ghost cells_spec = matched(*metric, img.data@, w as int, h as int);
    let mut cells: Vec<Blocks> = Vec::new();
    let mut y: usize = 0;
    while y < h
        invariant
            img.wf(),
            w == img.width,
            h == img.height,
            w >= 1,
            h >= 1,
            n == img.data@.len(),
            y <= h,
            lists.0@.len() == crate::matcher::cands().len(),
            lists.1@.len() == crate::matcher::cands().len(),
            forall|i: int| 0 <= i < crate::matcher::cands().len()
                ==> lists.0@[i] == (#[trigger] crate::matcher::cands()[i]).0
                    && lists.1@[i] == crate::matcher::cands()[i].1,
            cells_spec == matched(*metric, img.data@, w as int, h as int),
            cells_spec.len() == (w as int) * (h as int),
            cells@.len() == y * w,
            forall|k: int| 0 <= k < y * w ==> cells@[k] == cells_spec[k],
        decreases h - y,
    {
        let mut x: usize = 0;
        proof {
            assert((y as int) * (w as int) + (w as int) <= (h as int) * (w as int)) by (nonlinear_arith)
                requires (y as int) < (h as int), (w as int) >= 1;
            assert((h as int) * (w as int) == (w as int) * (h as int)) by (nonlinear_arith);
        }
        while x < w
            invariant
                img.wf(),
                w == img.width,
                h == img.height,
                w >= 1,
                h >= 1,
                n == img.data@.len(),
                y < h,
                x <= w,
                (y as int) * (w as int) + (w as int) <= (w as int) * (h as int),
                lists.0@.len() == crate::matcher::cands().len(),
                lists.1@.len() == crate::matcher::cands().len(),
                forall|i: int| 0 <= i < crate::matcher::cands().len()
                    ==> lists.0@[i] == (#[trigger] crate::matcher::cands()[i]).0
                        && lists.1@[i] == crate::matcher::cands()[i].1,
                cells_spec == matched(*metric, img.data@, w as int, h as int),
                cells_spec.len() == (w as int) * (h as int),
                cells@.len() == y * w + x,
                forall|k: int| 0 <= k < y * w + x ==> cells@[k] == cells_spec[k],
            decreases w - x,
        {
            let ghost k = (y as int) * (w as int) + (x as int);
            proof {
                assert(k < (w as int) * (h as int));
                assert(4 * k + 3 < 4 * ((w as int) * (h as int))) by (nonlinear_arith)
                    requires k < (w as int) * (h as int);
                assert(4 * ((w as int) * (h as int)) == 4 * (w as int) * (h as int)) by (nonlinear_arith);
                lemma_fundamental_div_mod_converse(k, w as int, y as int, x as int);
            }
            let base: usize = 4 * (y * w + x);
            let a = img.data[base + 3];
            if a == 0 {
                cells.push(Blocks::Air);
            } else {
                let c = Colour { r: img.data[base], g: img.data[base + 1], b: img.data[base + 2] };
                let blk = best_block(metric, &c, &lists.0, &lists.1);
                cells.push(blk);
            }
            proof {
                assert(cells@[k] == cells_spec[k]);
            }
            x = x + 1;
        }
        y = y + 1;
        proof {
            assert((y as int) * (w as int) == (y - 1) * (w as int) + (w as int)) by (nonlinear_arith);
        }
    }
    let d = Design { width: w, height: h, cells };
    proof {
        assert((h as int) * (w as int) == (w as int) * (h as int)) by (nonlinear_arith);
        assert(d.cells@ =~= cells_spec);
        assert forall|x: int, y: int| 0 <= x < img.width && 0 <= y < img.height
            implies (d.cell(x, y) == Blocks::Air
                <==> alpha_at(img.data@, img.width as int, x, y) == 0) by {
            let k = y * (w as int) + x;
            assert(y * (w as int) + x < (w as int) * (h as int)) by (nonlinear_arith)
                requires 0 <= x < (w as int), 0 <= y < (h as int);
            lemma_fundamental_div_mod_converse(k, w as int, y, x);
            if alpha_at(img.data@, img.width as int, x, y) != 0 {
                let p = Colour {
                    r: channel_at(img.data@, w as int, x, y, 0),
                    g: channel_at(img.data@, w as int, x, y, 1),
                    b: channel_at(img.data@, w as int, x, y, 2),
                };
                lemma_best_match_not_air(*metric, p);
            }
        }
    }
    d
}

impl Design {
    /// Creates a design from a decoded source image.
    ///
    /// The requested height is validated against the build limit first: a
    /// height above it fails with `InvalidInput` before any pixel work.
    /// Otherwise the source is downsampled to the working resolution under
    /// the configured filter and every working pixel is matched against
    /// the palette under the configured metric; with no configuration the
    /// documented defaults apply. A fully transparent source yields a grid
    /// made only of the empty sentinel.
    pub fn new(image: &RgbaBuffer, build_height: u16, config: Option<Config>) -> (r: Result<
        Design,
        DesignError,
    >)
        requires
            image.wf(),
            image.width >= 1,
            image.height >= 1,
            build_height >= 1,
            target_width_spec(image.width as int, image.height as int, build_height as int)
                <= u32::MAX,
            4 * target_width_spec(image.width as int, image.height as int, build_height as int)
                * (build_height as int) <= usize::MAX,
        ensures
            r matches Ok(d) <==> build_height <= BUILD_LIMIT,
            r matches Err(e) ==> e == DesignError::InvalidInput && build_height > BUILD_LIMIT,
            r matches Ok(d) ==> {
                &&& d.wf()
                &&& d.width as int == target_width_spec(image.width as int, image.height as int, build_height as int)
                &&& d.height as int == build_height as int
                &&& d.cells@ == matched(
                    effective_config(config).colour_space,
                    resampled(
                        image.data@,
                        image.width as int,
                        image.height as int,
                        d.width as int,
                        build_height as int,
                        effective_config(config).downsampling,
                    ),
                    d.width as int,
                    build_height as int,
                )
                &&& (all_transparent(image.data@)
                    ==> forall|k: int| 0 <= k < d.cells@.len() ==> d.cells@[k] == Blocks::Air)
            },
    {
        if build_height > BUILD_LIMIT {
            return Err(DesignError::InvalidInput);
        }
        let cfg = match config {
            Some(c) => c,
            None => Config::default(),
        };
        let sw: u64 = image.width as u64;
        let sh: u64 = image.height as u64;
        let bh: u64 = build_height as u64;
        proof {
            assert(sw * bh + sh <= u64::MAX) by (nonlinear_arith)
                requires sw <= u32::MAX, sh <= u32::MAX, bh <= 320;
        }
        let tw64: u64 = (sw * bh + sh - 1) / sh;
        proof {
            assert(tw64 == target_width_spec(sw as int, sh as int, bh as int));
            assert(sh as int <= sw as int * bh as int + sh as int - 1) by (nonlinear_arith)
                requires sw >= 1, bh >= 1;
            lemma_div_is_ordered(sh as int, sw as int * bh as int + sh as int - 1, sh as int);
            assert(sh as int / sh as int == 1) by (nonlinear_arith) requires sh >= 1;
        }
        let tw: u32 = tw64 as u32;
        let working = resize_rgba(image, tw, build_height as u32, &cfg.downsampling);
        let d = match_image(&working, &cfg.colour_space);
        proof {
            if all_transparent(image.data@) {
                assert forall|k: int| 0 <= k < d.cells@.len() implies d.cells@[k] == Blocks::Air by {
                    let wi = tw as int;
                    let hi = build_height as int;
                    vstd::arithmetic::div_mod::lemma_fundamental_div_mod(k, wi);
                    assert((k / wi) * wi + k % wi == k) by (nonlinear_arith)
                        requires k == wi * (k / wi) + k % wi;
                    lemma_fundamental_div_mod_converse(4 * k + 3, 4, k, 3);
                    assert(4 * k + 3 < 4 * (wi * hi)) by (nonlinear_arith)
                        requires k < wi * hi;
                    assert(4 * (wi * hi) == 4 * wi * hi) by (nonlinear_arith);
                    assert(working.data@[4 * k + 3] == 0);
                    assert(channel_at(working.data@, wi, k % wi, k / wi, 3) == 0);
                }
            }
        }
        Ok(d)
    }
}

/// The number of cells of `s` that hold variant `b`.
pub open spec fn count_in(s: Seq<Blocks>, b: Blocks) -> nat
    decreases s.len(),
{
    if s.len() == 0 {
        0
    } else {
        count_in(s.drop_last(), b) + if s.last() == b { 1nat } else { 0nat }
    }
}

/// The sum of the per-variant counts of a tally.
pub open spec fn sum_counts(s: Seq<(Blocks, usize)>) -> int
    decreases s.len(),
{
    if s.len() == 0 {
        0
    } else {
        sum_counts(s.drop_last()) + s.last().1
    }
}

spec fn sum_usizes(s: Seq<usize>) -> int
    decreases s.len(),
{
    if s.len() == 0 {
        0
    } else {
        sum_usizes(s.drop_last()) + s.last()
    }
}

proof fn lemma_count_push(s: Seq<Blocks>, x: Blocks, b: Blocks)
    ensures
        count_in(s.push(x), b) == count_in(s, b) + if x == b { 1int } else { 0int },
{
    assert(s.push(x).drop_last() =~= s);
    assert(s.push(x).last() == x);
}

proof fn lemma_count_le_len(s: Seq<Blocks>, b: Blocks)
    ensures
        count_in(s, b) <= s.len(),
    decreases s.len(),
{
    if s.len() > 0 {
        lemma_count_le_len(s.drop_last(), b);
    }
}

proof fn lemma_sum_update(s: Seq<usize>, i: int, v: usize)
    requires
        0 <= i < s.len(),
    ensures
        sum_usizes(s.update(i, v)) == sum_usizes(s) - s[i] + v,
    decreases s.len(),
{
    if i == s.len() - 1 {
        assert(s.update(i, v).drop_last() =~= s.drop_last());
        assert(s.update(i, v).last() == v);
    } else {
        lemma_sum_update(s.drop_last(), i, v);
        assert(s.update(i, v).drop_last() =~= s.drop_last().update(i, v));
        assert(s.update(i, v).last() == s.last());
    }
}

impl Design {
    /// Tallies the variants present in the grid: each variant that occurs
    /// in at least one cell, paired with its occurrence count, in palette
    /// enumeration order and each at most once. The counts sum to
    /// `width * height` across all variants, the empty sentinel included;
    /// variants with no occurrence are omitted.
    pub fn count_blocks(&self) -> (r: Vec<(Blocks, usize)>)
        requires
            self.wf(),
        ensures
            forall|i: int| 0 <= i < r@.len()
                ==> (#[trigger] r@[i]).1 == count_in(self.cells@, r@[i].0) && r@[i].1 >= 1,
            forall|i: int, j: int| 0 <= i < j < r@.len() ==> r@[i].0 != r@[j].0,
            forall|b: Blocks| #[trigger] count_in(self.cells@, b) >= 1
                ==> exists|i: int| 0 <= i < r@.len() && (#[trigger] r@[i]).0 == b,
            sum_counts(r@) == self.width * self.height,
    {
        let pal = palette();
        let plen: usize = pal.len();
        let mut counts: Vec<usize> = Vec::new();
        let mut t: usize = 0;
        while t < plen
            invariant
                t <= plen,
                counts@.len() == t,
                forall|u: int| 0 <= u < t ==> counts@[u] == 0usize,
                sum_usizes(counts@) == 0,
            decreases plen - t,
        {
            let ghost before = counts@;
            counts.push(0usize);
            t = t + 1;
            proof {
                assert(counts@.drop_last() =~= before);
            }
        }
        proof {
            assert(self.cells@.take(0).len() == 0);
            assert forall|u: int| 0 <= u < palette_spec().len()
                implies counts@[u] == count_in(self.cells@.take(0), palette_spec()[u]) by {}
        }
        let mut k: usize = 0;
        while k < self.cells.len()
            invariant
                self.wf(),
                plen == palette_spec().len(),
                counts@.len() == plen,
                k <= self.cells@.len(),
                forall|u: int| 0 <= u < plen
                    ==> counts@[u] == count_in(self.cells@.take(k as int), palette_spec()[u]),
                sum_usizes(counts@) == k,
            decreases self.cells@.len() - k,
        {
            let b = self.cells[k];
            let idx = b.palette_index();
            proof {
                lemma_palette_index(b);
                lemma_count_le_len(self.cells@.take(k as int), palette_spec()[idx as int]);
            }
            let cur = counts[idx];
            let ghost before = counts@;
            counts.set(idx, cur + 1);
            k = k + 1;
            proof {
                lemma_sum_update(before, idx as int, (cur + 1) as usize);
                let prefix = self.cells@.take(k as int - 1);
                assert(self.cells@.take(k as int) =~= prefix.push(self.cells@[k as int - 1]));
                assert forall|u: int| 0 <= u < plen
                    implies counts@[u] == count_in(self.cells@.take(k as int), palette_spec()[u]) by {
                    lemma_count_push(prefix, b, palette_spec()[u]);
                    if u != idx as int {
                        lemma_palette_distinct(u, idx as int);
                    }
                }
            }
        }
        proof {
            assert(self.cells@.take(self.cells@.len() as int) =~= self.cells@);
        }
        let mut r: Vec<(Blocks, usize)> = Vec::new();
        let ghost mut ts: Seq<int> = Seq::empty();
        let mut t: usize = 0;
        proof {
            assert(counts@.take(0).len() == 0);
        }
        while t < plen
            invariant
                pal@ == palette_spec(),
                plen == palette_spec().len(),
                counts@.len() == plen,
                forall|u: int| 0 <= u < plen
                    ==> counts@[u] == count_in(self.cells@, palette_spec()[u]),
                t <= plen,
                ts.len() == r@.len(),
                forall|i: int| 0 <= i < ts.len() ==> 0 <= #[trigger] ts[i] < t,
                forall|i: int, j: int| 0 <= i < j < ts.len() ==> ts[i] < ts[j],
                forall|i: int| 0 <= i < r@.len()
                    ==> (#[trigger] r@[i]).0 == palette_spec()[ts[i]]
                        && r@[i].1 == counts@[ts[i]]
                        && r@[i].1 >= 1,
                forall|u: int| 0 <= u < t && counts@[u] >= 1
                    ==> exists|i: int| 0 <= i < ts.len() && #[trigger] ts[i] == u,
                sum_counts(r@) == sum_usizes(counts@.take(t as int)),
            decreases plen - t,
        {
            let c = counts[t];
            let ghost ts0 = ts;
            if c > 0 {
                let ghost before = r@;
                r.push((pal[t], c));
                proof {
                    ts = ts.push(t as int);
                    assert(r@.drop_last() =~= before);
                }
            }
            t = t + 1;
            proof {
                assert(counts@.take(t as int).drop_last() =~= counts@.take(t as int - 1));
                assert(counts@.take(t as int).last() == counts@[t as int - 1]);
                assert forall|u: int| 0 <= u < t && counts@[u] >= 1
                    implies exists|i: int| 0 <= i < ts.len() && #[trigger] ts[i] == u by {
                    if u == t - 1 {
                        assert(ts[ts.len() - 1] == u);
                    } else {
                        let i = choose|i: int| 0 <= i < ts0.len() && #[trigger] ts0[i] == u;
                        assert(ts[i] == u);
                    }
                }
            }
        }
        proof {
            assert(counts@.take(plen as int) =~= counts@);
            assert forall|i: int, j: int| 0 <= i < j < r@.len() implies r@[i].0 != r@[j].0 by {
                lemma_palette_distinct(ts[i], ts[j]);
            }
            assert forall|b: Blocks| #[trigger] count_in(self.cells@, b) >= 1
                implies exists|i: int| 0 <= i < r@.len() && (#[trigger] r@[i]).0 == b by {
                lemma_palette_index(b);
                let u = palette_index_spec(b);
                assert(counts@[u] >= 1);
                let i = choose|i: int| 0 <= i < ts.len() && #[trigger] ts[i] == u;
                assert(r@[i].0 == b);
            }
        }
        r
    }
}

} // verus!
