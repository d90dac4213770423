//! Paper kinds and their sizes.

use vstd::prelude::*;
use crate::calculator::spec_mm_to_px;
use crate::calculator::spec_px_to_mm;
use crate::calculator::DimensionCalculator;
use crate::calculator::A4_HEIGHT_MICROMETERS;
use crate::calculator::A4_WIDTH_MICROMETERS;

verus! {

/// Width of an A4 sheet in pixels at 300 dots per inch.
pub const A4_WIDTH_PX: u32 = 2480;

/// Height of an A4 sheet in pixels at 300 dots per inch.
pub const A4_HEIGHT_PX: u32 = 3508;

/// A kind of paper.
#[derive(Clone, Copy, Debug, PartialEq, Eq, Structural)]
pub enum Paper {
    A4,
}

/// Pixel size of a sheet at 300 dots per inch, as `(width, height)`.
pub open spec fn spec_paper_dimensions_px(paper: Paper) -> (u32, u32) {
    match paper {
        Paper::A4 => (A4_WIDTH_PX, A4_HEIGHT_PX),
    }
}

/// Pixel size of a sheet at 300 dots per inch, as `(width, height)`.
pub fn get_paper_dimensions_px(paper: &Paper) -> (size: (u32, u32))
    ensures
        size == spec_paper_dimensions_px(*paper),
{
    match paper {
        Paper::A4 => (A4_WIDTH_PX, A4_HEIGHT_PX),
    }
}

/// The size, in micrometers, that the pixels of a sheet cover at `dpi` dots
/// per inch, as `(width, height)`.
pub fn get_paper_dimensions_mm(paper: &Paper, dpi: u32) -> (size: (u64, u64))
    requires
        dpi > 0,
    ensures
        size.0 == spec_px_to_mm(spec_paper_dimensions_px(*paper).0 as nat, dpi as nat),
        size.1 == spec_px_to_mm(spec_paper_dimensions_px(*paper).1 as nat, dpi as nat),
{
    let (width, height) = get_paper_dimensions_px(paper);
    let calculator = DimensionCalculator::new();
    (calculator.px_to_mm(width, dpi), calculator.px_to_mm(height, dpi))
}

/// Physical size of a sheet in micrometers, as `(width, height)`.
pub open spec fn spec_paper_size(paper: Paper) -> (u32, u32) {
    match paper {
        Paper::A4 => (A4_WIDTH_MICROMETERS, A4_HEIGHT_MICROMETERS),
    }
}

/// Pixel size of a sheet at `dpi` dots per inch, as `(width, height)`.
pub open spec fn spec_paper_px(paper: Paper, dpi: nat) -> (nat, nat) {
    (
        spec_mm_to_px(spec_paper_size(paper).0 as nat, dpi),
        spec_mm_to_px(spec_paper_size(paper).1 as nat, dpi),
    )
}

/// Pixel size of a sheet at `dpi` dots per inch, as `(width, height)`: its
/// physical size turned into pixels.
pub fn paper_px(paper: &Paper, dpi: u32) -> (size: (u32, u32))
    ensures
        size.0 == spec_paper_px(*paper, dpi as nat).0,
        size.1 == spec_paper_px(*paper, dpi as nat).1,
{
    let calculator = DimensionCalculator::new();
    match paper {
        Paper::A4 => (
            calculator.mm_to_px(A4_WIDTH_MICROMETERS, dpi),
            calculator.mm_to_px(A4_HEIGHT_MICROMETERS, dpi),
        ),
    }
}

/// At 300 dots per inch a sheet has its reference size in pixels: an A4
/// sheet 2480 by 3508.
pub proof fn lemma_paper_at_reference_resolution(paper: Paper)
    ensures
        spec_paper_px(paper, 300).0 == spec_paper_dimensions_px(paper).0,
        spec_paper_px(paper, 300).1 == spec_paper_dimensions_px(paper).1,
{
    vstd::arithmetic::div_mod::lemma_fundamental_div_mod_converse(126_025_400, 50_800, 2480, 41_400);
    vstd::arithmetic::div_mod::lemma_fundamental_div_mod_converse(178_225_400, 50_800, 3508, 19_000);
}

} // verus!
