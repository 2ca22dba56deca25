//! Colours and the pluggable perceptual distance metrics.
//!
//! A distance is always used truncated to an integer unit of the metric's
//! scale: candidates within the same unit count as equally good. The four
//! strategies come from the `color_space` crate; each truncated distance is
//! a pure function of the two colours and is named by an uninterpreted spec
//! function here.

use vstd::prelude::*;
use crate::config::ColourSpace;
use rayon::iter::IntoParallelRefIterator;
use rayon::iter::ParallelIterator;

verus! {

/// An RGB colour with 8-bit components.
#[derive(Clone, Copy, Debug, PartialEq, Eq, Structural)]
pub struct Colour {
    pub r: u8,
    pub g: u8,
    pub b: u8,
}

/// The truncated Euclidean distance between two RGB colours.
pub uninterp spec fn euclidean_dist(ar: u8, ag: u8, ab: u8, br: u8, bg: u8, bb: u8) -> nat;

/// The truncated CIE 1976 distance between two RGB colours.
pub uninterp spec fn cie1976_dist(ar: u8, ag: u8, ab: u8, br: u8, bg: u8, bb: u8) -> nat;

/// The truncated CIE 2000 distance between two RGB colours.
pub uninterp spec fn cie2000_dist(ar: u8, ag: u8, ab: u8, br: u8, bg: u8, bb: u8) -> nat;

/// The truncated CMC l:c distance between two RGB colours.
pub uninterp spec fn cmc_dist(ar: u8, ag: u8, ab: u8, br: u8, bg: u8, bb: u8) -> nat;

/// The truncated distance from `a` to `b` under metric `m`. The order of the
/// arguments matters: a candidate's reference colour goes first, the pixel's
/// colour second, as some metrics are asymmetric.
pub open spec fn metric_dist(m: ColourSpace, a: Colour, b: Colour) -> nat {
    match m {
        ColourSpace::Cie2000 => cie2000_dist(a.r, a.g, a.b, b.r, b.g, b.b),
        ColourSpace::Cie1976 => cie1976_dist(a.r, a.g, a.b, b.r, b.g, b.b),
        ColourSpace::Cmc => cmc_dist(a.r, a.g, a.b, b.r, b.g, b.b),
        ColourSpace::Euclidean => euclidean_dist(a.r, a.g, a.b, b.r, b.g, b.b),
    }
}

/// Relies on color_space's CompareEuclidean::compare_euclidean: the RGB
/// straight-line distance, a pure function of the two colours; on equal
/// colours every component difference is zero and the result is zero.
#[verifier::external_body]
fn compare_euclidean_floor(a: &Colour, b: &Colour) -> (r: usize)
    ensures
        r == euclidean_dist(a.r, a.g, a.b, b.r, b.g, b.b),
        a == b ==> r == 0,
{
    let x = color_space::Rgb::new(a.r.into(), a.g.into(), a.b.into());
    let y = color_space::Rgb::new(b.r.into(), b.g.into(), b.b.into());
    color_space::CompareEuclidean::compare_euclidean(&x, &y).floor() as usize
}

/// Relies on color_space's CompareCie1976::compare_cie1976: the Euclidean
/// distance in Lab space, a pure function of the two colours; equal colours
/// convert to the same Lab point, so the distance is zero.
#[verifier::external_body]
fn compare_cie1976_floor(a: &Colour, b: &Colour) -> (r: usize)
    ensures
        r == cie1976_dist(a.r, a.g, a.b, b.r, b.g, b.b),
        a == b ==> r == 0,
{
    let x = color_space::Rgb::new(a.r.into(), a.g.into(), a.b.into());
    let y = color_space::Rgb::new(b.r.into(), b.g.into(), b.b.into());
    color_space::CompareCie1976::compare_cie1976(&x, &y).floor() as usize
}

/// Relies on color_space's CompareCie2000::compare_cie2000: the CIEDE2000
/// difference, a pure function of the two colours; on equal colours every
/// delta term of the formula is zero, so the result is zero.
#[verifier::external_body]
fn compare_cie2000_floor(a: &Colour, b: &Colour) -> (r: usize)
    ensures
        r == cie2000_dist(a.r, a.g, a.b, b.r, b.g, b.b),
        a == b ==> r == 0,
{
    let x = color_space::Rgb::new(a.r.into(), a.g.into(), a.b.into());
    let y = color_space::Rgb::new(b.r.into(), b.g.into(), b.b.into());
    color_space::CompareCie2000::compare_cie2000(&x, &y).floor() as usize
}

/// Relies on color_space's CompareCmc::compare_cmc: the CMC l:c difference,
/// a pure function of the two colours; on equal colours every delta term of
/// the formula is zero, so the result is zero.
#[verifier::external_body]
fn compare_cmc_floor(a: &Colour, b: &Colour) -> (r: usize)
    ensures
        r == cmc_dist(a.r, a.g, a.b, b.r, b.g, b.b),
        a == b ==> r == 0,
{
    let x = color_space::Rgb::new(a.r.into(), a.g.into(), a.b.into());
    let y = color_space::Rgb::new(b.r.into(), b.g.into(), b.b.into());
    color_space::CompareCmc::compare_cmc(&x, &y).floor() as usize
}

/// The truncated distance from `a` to `b` under metric `m`. The distance of
/// a colour to itself is zero under every metric, and as a natural number it
/// is non-negative for all inputs.
pub fn metric_distance(m: &ColourSpace, a: &Colour, b: &Colour) -> (r: usize)
    ensures
        r == metric_dist(*m, *a, *b),
        a == b ==> r == 0,
{
    match m {
        ColourSpace::Cie2000 => compare_cie2000_floor(a, b),
        ColourSpace::Cie1976 => compare_cie1976_floor(a, b),
        ColourSpace::Cmc => compare_cmc_floor(a, b),
        ColourSpace::Euclidean => compare_euclidean_floor(a, b),
    }
}

/// Distances are natural numbers: non-negative for all inputs and metrics.
pub proof fn lemma_distance_nonnegative(m: ColourSpace, a: Colour, b: Colour)
    ensures
        metric_dist(m, a, b) >= 0,
{
}

/// Relies on rayon: `par_iter().map(..).collect()` into a `Vec` yields
/// exactly the per-element results of the closure, in the input's order,
/// whatever order the scoring work ran in. The closure only calls the
/// verified `metric_distance`.
#[verifier::external_body]
pub(crate) fn par_distances(m: &ColourSpace, target: &Colour, cands: &Vec<Colour>) -> (r: Vec<usize>)
    ensures
        r@.len() == cands@.len(),
        forall|i: int| 0 <= i < cands@.len() ==> r@[i] == metric_dist(*m, cands@[i], *target),
{
    cands.par_iter().map(|c| metric_distance(m, c, target)).collect()
}

} // verus!
