//! The raster renderer: composites each cell's sprite onto a transparent
//! canvas to preview a design.
//!
//! Sprites come from a read-only store handed to the renderer, one slot per
//! palette variant in enumeration order, each holding the variant's encoded
//! sprite bytes. Every sprite is a 16 x 16 texture, so the canvas measures
//! 16 times the grid in each direction. A missing or undecodable sprite for
//! a needed variant aborts the render with no partial canvas.

use vstd::prelude::*;
use vstd::arithmetic::div_mod::lemma_fundamental_div_mod_converse;
use crate::design::Design;
use crate::design::DesignError;
use crate::palette::Blocks;
use crate::palette::palette_spec;
use crate::palette::palette_index_spec;
use crate::palette::lemma_palette_index;
use crate::raster::RgbaBuffer;
use crate::raster::decoded_rgba;
use crate::raster::decode_rgba;
use crate::raster::overlaid;
use crate::raster::overlay_rgba;
use crate::raster::blank_canvas;

verus! {

/// The sprite assets, handed to the renderer as a read-only store: slot `i`
/// holds the encoded sprite bytes of the palette variant at enumeration
/// index `i`, or `None` where that variant has no sprite.
pub struct SpriteStore {
    pub entries: Vec<Option<Vec<u8>>>,
}

impl SpriteStore {
    /// A store is well formed when it has exactly one slot per palette
    /// variant.
    pub open spec fn wf(self) -> bool {
        self.entries@.len() == palette_spec().len()
    }

    /// The encoded sprite bytes stored for a variant.
    pub open spec fn entry_spec(self, b: Blocks) -> Option<Seq<u8>> {
        match self.entries@[palette_index_spec(b)] {
            Some(v) => Some(v@),
            None => None,
        }
    }
}

/// A variant that needs a sprite the store cannot supply: not the empty
/// sentinel, and its slot is empty or its bytes do not decode.
pub open spec fn sprite_missing(store: SpriteStore, b: Blocks) -> bool {
    b != Blocks::Air && match store.entry_spec(b) {
        None => true,
        Some(bytes) => decoded_rgba(bytes) is None,
    }
}

/// The canvas bytes after the first `k` cells are composited, in cell
/// order, onto the fully transparent canvas of a `w` by `h` grid: a
/// sentinel cell leaves the canvas untouched, and every other cell
/// composites its decoded sprite at the cell's scaled offset.
pub open spec fn render_cells(cells: Seq<Blocks>, w: int, h: int, store: SpriteStore, k: int) -> Seq<u8>
    decreases k,
{
    if k <= 0 {
        Seq::new((4 * (16 * w) * (16 * h)) as nat, |i: int| 0u8)
    } else {
        let prev = render_cells(cells, w, h, store, k - 1);
        let b = cells[k - 1];
        if b == Blocks::Air {
            prev
        } else {
            match store.entry_spec(b) {
                None => prev,
                Some(bytes) => match decoded_rgba(bytes) {
                    None => prev,
                    Some(v) => overlaid(
                        prev,
                        16 * w,
                        16 * h,
                        v.2,
                        v.0,
                        v.1,
                        16 * ((k - 1) % w),
                        16 * ((k - 1) / w),
                    ),
                },
            }
        }
    }
}

/// A grid made only of the empty sentinel composites nothing: the rendered
/// canvas is the blank, fully transparent canvas, whatever the store holds.
pub proof fn lemma_empty_grid_renders_blank(
    cells: Seq<Blocks>,
    w: int,
    h: int,
    store: SpriteStore,
    k: int,
)
    requires
        forall|i: int| 0 <= i < cells.len() ==> cells[i] == Blocks::Air,
        0 <= k <= cells.len(),
    ensures
        render_cells(cells, w, h, store, k)
            == Seq::new((4 * (16 * w) * (16 * h)) as nat, |i: int| 0u8),
    decreases k,
{
    if k > 0 {
        lemma_empty_grid_renders_blank(cells, w, h, store, k - 1);
    }
}

impl Design {
    /// Renders the design as a composite raster of 16 pixels per cell in
    /// each direction: every non-sentinel cell's sprite is composited with
    /// alpha blending onto an initially transparent canvas at the cell's
    /// scaled offset, in cell order; sentinel cells leave the canvas at its
    /// transparent background. Fails fast with `InvalidData`, returning no
    /// canvas, exactly where some cell's variant needs a sprite that is
    /// missing from the store or does not decode.
    pub fn draw_image(&self, sprites: &SpriteStore) -> (r: Result<RgbaBuffer, DesignError>)
        requires
            self.wf(),
            sprites.wf(),
            16 * self.width <= u32::MAX,
            16 * self.height <= u32::MAX,
            4 * (16 * self.width) * (16 * self.height) <= usize::MAX,
        ensures
            r matches Err(e) ==> e == DesignError::InvalidData,
            (r matches Err(e)) <==> exists|k: int| 0 <= k < self.cells@.len()
                && sprite_missing(*sprites, #[trigger] self.cells@[k]),
            r matches Ok(img) ==> {
                &&& img.wf()
                &&& img.width as int == 16 * self.width
                &&& img.height as int == 16 * self.height
                &&& img.data@ == render_cells(
                    self.cells@,
                    self.width as int,
                    self.height as int,
                    *sprites,
                    self.cells@.len() as int,
                )
            },
    {
        let w: usize = self.width;
        let h: usize = self.height;
        let n: usize = self.cells.len();
        let mut canvas = blank_canvas((16 * w) as u32, (16 * h) as u32);
        proof {
            assert(canvas.data@ == render_cells(self.cells@, w as int, h as int, *sprites, 0));
        }
        let mut y: usize = 0;
        while y < h
            invariant
                self.wf(),
                sprites.wf(),
                w == self.width,
                h == self.height,
                16 * w <= u32::MAX,
                16 * h <= u32::MAX,
                y <= h,
                n == self.cells@.len(),
                canvas.wf(),
                canvas.width as int == 16 * w,
                canvas.height as int == 16 * h,
                canvas.data@ == render_cells(self.cells@, w as int, h as int, *sprites, y * w),
                forall|k: int| 0 <= k < y * w
                    ==> !sprite_missing(*sprites, #[trigger] self.cells@[k]),
            decreases h - y,
        {
            let mut x: usize = 0;
            proof {
                assert((y as int) * (w as int) + (w as int) <= (h as int) * (w as int)) by (nonlinear_arith)
                    requires (y as int) < (h as int), (w as int) >= 1;
                assert((h as int) * (w as int) == (w as int) * (h as int)) by (nonlinear_arith);
            }
            while x < w
                invariant
                    self.wf(),
                    sprites.wf(),
                    w == self.width,
                    h == self.height,
                    16 * w <= u32::MAX,
                    16 * h <= u32::MAX,
                    y < h,
                    x <= w,
                    (y as int) * (w as int) + (w as int) <= (w as int) * (h as int),
                    n == self.cells@.len(),
                    canvas.wf(),
                    canvas.width as int == 16 * w,
                    canvas.height as int == 16 * h,
                    canvas.data@ == render_cells(self.cells@, w as int, h as int, *sprites, y * w + x),
                    forall|k: int| 0 <= k < y * w + x
                        ==> !sprite_missing(*sprites, #[trigger] self.cells@[k]),
                decreases w - x,
            {
                let ghost k = (y as int) * (w as int) + (x as int);
                proof {
                    assert(k < (w as int) * (h as int));
                    assert(k < n);
                    lemma_fundamental_div_mod_converse(k, w as int, y as int, x as int);
                }
                let b = self.cells[y * w + x];
                if !matches!(b, Blocks::Air) {
                    let idx = b.palette_index();
                    proof {
                        lemma_palette_index(b);
                    }
                    match sprites.entries[idx].as_ref() {
                        None => {
                            return Err(DesignError::InvalidData);
                        }
                        Some(bytes) => {
                            match decode_rgba(bytes) {
                                None => {
                                    return Err(DesignError::InvalidData);
                                }
                                Some(spr) => {
                                    overlay_rgba(&mut canvas, &spr, (16 * x) as u32, (16 * y) as u32);
                                }
                            }
                        }
                    }
                }
                x = x + 1;
                proof {
                    assert(render_cells(self.cells@, w as int, h as int, *sprites, k + 1) == {
                        let prev = render_cells(self.cells@, w as int, h as int, *sprites, k);
                        let b = self.cells@[k];
                        if b == Blocks::Air {
                            prev
                        } else {
                            match sprites.entry_spec(b) {
                                None => prev,
                                Some(bytes) => match decoded_rgba(bytes) {
                                    None => prev,
                                    Some(v) => overlaid(prev, 16 * (w as int), 16 * (h as int), v.2, v.0, v.1, 16 * (k % (w as int)), 16 * (k / (w as int))),
                                },
                            }
                        }
                    });
                }
            }
            y = y + 1;
            proof {
                assert((y as int) * (w as int) == (y - 1) * (w as int) + (w as int)) by (nonlinear_arith);
            }
        }
        proof {
            assert((h as int) * (w as int) == (w as int) * (h as int)) by (nonlinear_arith);
        }
        Ok(canvas)
    }
}

} // verus!
