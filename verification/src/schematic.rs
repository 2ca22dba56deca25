//! The 3-D placement exporter: a design becomes a single-region placement
//! structure, one cell deep, ready for an external voxel format to encode.
//!
//! The traversal is forward and unshifted: entry `k` of the region is cell
//! `k` of the grid, and the empty sentinel stands for "no block placed".

use vstd::prelude::*;
use crate::design::Design;
use crate::palette::Blocks;

verus! {

/// One region of block placements: a cuboid one cell deep, with one
/// placement entry per grid cell, in the grid's own row order.
pub struct Region {
    pub width: usize,
    pub height: usize,
    pub depth: usize,
    pub blocks: Vec<Blocks>,
}

/// A placement structure: a named single-region schematic whose entries
/// mirror the grid.
pub struct Schematic<'a> {
    pub name: &'a str,
    pub description: &'a str,
    pub author: &'a str,
    pub region: Region,
}

impl Design {
    /// Exports the design as a placement structure: a single region one
    /// block deep whose width and height equal the grid's, each entry set
    /// from its cell's variant in a forward, unshifted traversal. The
    /// metadata is attached as given, with an empty description and the
    /// author "mcpixel" as defaults; it carries no weight for the grid.
    pub fn litematica<'a>(
        &self,
        name: &'a str,
        description: Option<&'a str>,
        author: Option<&'a str>,
    ) -> (r: Schematic<'a>)
        requires
            self.wf(),
        ensures
            r.name@ == name@,
            r.description@ == match description {
                Some(d) => d@,
                None => ""@,
            },
            r.author@ == match author {
                Some(a) => a@,
                None => "mcpixel"@,
            },
            r.region.width == self.width,
            r.region.height == self.height,
            r.region.depth == 1,
            r.region.blocks@ == self.cells@,
    {
        let n: usize = self.cells.len();
        let mut blocks: Vec<Blocks> = Vec::new();
        let mut k: usize = 0;
        while k < n
            invariant
                n == self.cells@.len(),
                k <= n,
                blocks@.len() == k,
                forall|i: int| 0 <= i < k ==> blocks@[i] == self.cells@[i],
            decreases n - k,
        {
            blocks.push(self.cells[k]);
            k = k + 1;
        }
        proof {
            assert(blocks@ =~= self.cells@);
        }
        let description = match description {
            Some(d) => d,
            None => "",
        };
        let author = match author {
            Some(a) => a,
            None => "mcpixel",
        };
        Schematic {
            name,
            description,
            author,
            region: Region { width: self.width, height: self.height, depth: 1, blocks },
        }
    }
}

} // verus!
