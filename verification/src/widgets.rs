//! The block widget's data half, written out as the compiler generates it:
//! one public field per property, a constructor that evaluates the default
//! expressions, and the convenience builder.

use vstd::prelude::*;
use crate::theme::{ThemeBorder, ThemeColor};

verus! {

/// A themed rectangular block.
#[derive(Clone, Copy, Debug, PartialEq, Eq, Structural)]
pub struct Block {
    /// Background color role.
    pub bg: ThemeColor,
    /// Border specification.
    pub border: ThemeBorder,
    /// Corner rounding override, in whole pixels.
    pub round: Option<u32>,
}

impl Block {
    /// Every property carries a default, so construction takes no
    /// arguments.
    pub fn new() -> (b: Block)
        ensures
            b.bg == ThemeColor::Base,
            b.border == ThemeBorder::Bare,
            b.round is None,
    {
        Block { bg: ThemeColor::Base, border: ThemeBorder::Bare, round: None }
    }

    /// A block over a chosen background color role, otherwise default.
    pub fn bg(bg: ThemeColor) -> (b: Block)
        ensures
            b.bg == bg,
            b.border == ThemeBorder::Bare,
            b.round is None,
    {
        let mut block = Block::new();
        block.bg = bg;
        block
    }
}

} // verus!
