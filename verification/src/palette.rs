//! The fixed block palette: a closed, enumerable set of block variants.
//!
//! Exactly one variant, `Air`, is the empty sentinel: it has no reference
//! colour, is never selected as a best match, and renders as an omitted
//! cell. Every other variant carries a reference colour (the average colour
//! of its texture) and a sprite slot in the palette's enumeration order.

use vstd::prelude::*;
use crate::colour::Colour;

verus! {

/// One member of the fixed block palette.
#[derive(Clone, Copy, Debug, PartialEq, Eq, Hash, Structural)]
pub enum Blocks {
    Air,
    WhiteWool,
    OrangeWool,
    MagentaWool,
    LightBlueWool,
    YellowWool,
    LimeWool,
    PinkWool,
    GrayWool,
    LightGrayWool,
    CyanWool,
    PurpleWool,
    BlueWool,
    BrownWool,
    GreenWool,
    RedWool,
    BlackWool,
}

/// The palette's stable enumeration order. `Air` is the empty sentinel and
/// stands first.
pub open spec fn palette_spec() -> Seq<Blocks> {
    seq![
        Blocks::Air,
        Blocks::WhiteWool,
        Blocks::OrangeWool,
        Blocks::MagentaWool,
        Blocks::LightBlueWool,
        Blocks::YellowWool,
        Blocks::LimeWool,
        Blocks::PinkWool,
        Blocks::GrayWool,
        Blocks::LightGrayWool,
        Blocks::CyanWool,
        Blocks::PurpleWool,
        Blocks::BlueWool,
        Blocks::BrownWool,
        Blocks::GreenWool,
        Blocks::RedWool,
        Blocks::BlackWool,
    ]
}

/// The reference colour of a variant: the average colour of its texture.
/// The empty sentinel has none and is never a match candidate.
pub open spec fn colour_spec(b: Blocks) -> Option<Colour> {
    match b {
        Blocks::Air => None,
        Blocks::WhiteWool => Some(Colour { r: 233, g: 236, b: 236 }),
        Blocks::OrangeWool => Some(Colour { r: 240, g: 118, b: 19 }),
        Blocks::MagentaWool => Some(Colour { r: 189, g: 68, b: 179 }),
        Blocks::LightBlueWool => Some(Colour { r: 58, g: 175, b: 217 }),
        Blocks::YellowWool => Some(Colour { r: 248, g: 197, b: 39 }),
        Blocks::LimeWool => Some(Colour { r: 112, g: 185, b: 25 }),
        Blocks::PinkWool => Some(Colour { r: 237, g: 141, b: 172 }),
        Blocks::GrayWool => Some(Colour { r: 62, g: 68, b: 71 }),
        Blocks::LightGrayWool => Some(Colour { r: 142, g: 142, b: 134 }),
        Blocks::CyanWool => Some(Colour { r: 21, g: 137, b: 145 }),
        Blocks::PurpleWool => Some(Colour { r: 121, g: 42, b: 172 }),
        Blocks::BlueWool => Some(Colour { r: 53, g: 57, b: 157 }),
        Blocks::BrownWool => Some(Colour { r: 114, g: 71, b: 40 }),
        Blocks::GreenWool => Some(Colour { r: 84, g: 109, b: 27 }),
        Blocks::RedWool => Some(Colour { r: 160, g: 39, b: 34 }),
        Blocks::BlackWool => Some(Colour { r: 20, g: 21, b: 25 }),
    }
}

/// The position of a variant in the palette's enumeration order.
pub open spec fn palette_index_spec(b: Blocks) -> int {
    match b {
        Blocks::Air => 0,
        Blocks::WhiteWool => 1,
        Blocks::OrangeWool => 2,
        Blocks::MagentaWool => 3,
        Blocks::LightBlueWool => 4,
        Blocks::YellowWool => 5,
        Blocks::LimeWool => 6,
        Blocks::PinkWool => 7,
        Blocks::GrayWool => 8,
        Blocks::LightGrayWool => 9,
        Blocks::CyanWool => 10,
        Blocks::PurpleWool => 11,
        Blocks::BlueWool => 12,
        Blocks::BrownWool => 13,
        Blocks::GreenWool => 14,
        Blocks::RedWool => 15,
        Blocks::BlackWool => 16,
    }
}

/// Every variant stands in the palette, at its enumeration index.
pub proof fn lemma_palette_index(b: Blocks)
    ensures
        0 <= palette_index_spec(b) < palette_spec().len(),
        palette_spec()[palette_index_spec(b)] == b,
{
}

/// The enumeration index determines the variant: the palette has no
/// duplicate entries.
pub proof fn lemma_palette_distinct(i: int, j: int)
    requires
        0 <= i < palette_spec().len(),
        0 <= j < palette_spec().len(),
        i != j,
    ensures
        palette_spec()[i] != palette_spec()[j],
{
    let b = palette_spec()[i];
    lemma_palette_index(b);
    assert(palette_index_spec(palette_spec()[i]) == i) by {
        assert(forall|k: int| 0 <= k < palette_spec().len()
            ==> palette_index_spec(#[trigger] palette_spec()[k]) == k);
    }
    assert(palette_index_spec(palette_spec()[j]) == j) by {
        assert(forall|k: int| 0 <= k < palette_spec().len()
            ==> palette_index_spec(#[trigger] palette_spec()[k]) == k);
    }
}

impl Blocks {
    /// The variant's reference colour, or `None` for the empty sentinel.
    pub fn colour(&self) -> (r: Option<Colour>)
        ensures
            r == colour_spec(*self),
    {
        match self {
            Blocks::Air => None,
            Blocks::WhiteWool => Some(Colour { r: 233, g: 236, b: 236 }),
            Blocks::OrangeWool => Some(Colour { r: 240, g: 118, b: 19 }),
            Blocks::MagentaWool => Some(Colour { r: 189, g: 68, b: 179 }),
            Blocks::LightBlueWool => Some(Colour { r: 58, g: 175, b: 217 }),
            Blocks::YellowWool => Some(Colour { r: 248, g: 197, b: 39 }),
            Blocks::LimeWool => Some(Colour { r: 112, g: 185, b: 25 }),
            Blocks::PinkWool => Some(Colour { r: 237, g: 141, b: 172 }),
            Blocks::GrayWool => Some(Colour { r: 62, g: 68, b: 71 }),
            Blocks::LightGrayWool => Some(Colour { r: 142, g: 142, b: 134 }),
            Blocks::CyanWool => Some(Colour { r: 21, g: 137, b: 145 }),
            Blocks::PurpleWool => Some(Colour { r: 121, g: 42, b: 172 }),
            Blocks::BlueWool => Some(Colour { r: 53, g: 57, b: 157 }),
            Blocks::BrownWool => Some(Colour { r: 114, g: 71, b: 40 }),
            Blocks::GreenWool => Some(Colour { r: 84, g: 109, b: 27 }),
            Blocks::RedWool => Some(Colour { r: 160, g: 39, b: 34 }),
            Blocks::BlackWool => Some(Colour { r: 20, g: 21, b: 25 }),
        }
    }

    /// The variant's position in the palette's enumeration order; used as
    /// its key into the sprite store.
    pub fn palette_index(&self) -> (r: usize)
        ensures
            r == palette_index_spec(*self),
            r < palette_spec().len(),
    {
        match self {
            Blocks::Air => 0,
            Blocks::WhiteWool => 1,
            Blocks::OrangeWool => 2,
            Blocks::MagentaWool => 3,
            Blocks::LightBlueWool => 4,
            Blocks::YellowWool => 5,
            Blocks::LimeWool => 6,
            Blocks::PinkWool => 7,
            Blocks::GrayWool => 8,
            Blocks::LightGrayWool => 9,
            Blocks::CyanWool => 10,
            Blocks::PurpleWool => 11,
            Blocks::BlueWool => 12,
            Blocks::BrownWool => 13,
            Blocks::GreenWool => 14,
            Blocks::RedWool => 15,
            Blocks::BlackWool => 16,
        }
    }
}

/// The palette's enumeration, in its stable order.
pub fn palette() -> (r: Vec<Blocks>)
    ensures
        r@ == palette_spec(),
{
    let r: Vec<Blocks> = vec![
        Blocks::Air,
        Blocks::WhiteWool,
        Blocks::OrangeWool,
        Blocks::MagentaWool,
        Blocks::LightBlueWool,
        Blocks::YellowWool,
        Blocks::LimeWool,
        Blocks::PinkWool,
        Blocks::GrayWool,
        Blocks::LightGrayWool,
        Blocks::CyanWool,
        Blocks::PurpleWool,
        Blocks::BlueWool,
        Blocks::BrownWool,
        Blocks::GreenWool,
        Blocks::RedWool,
        Blocks::BlackWool,
    ];
    proof {
        assert(r@ =~= palette_spec());
    }
    r
}

} // verus!
