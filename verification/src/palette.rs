//! Color palettes selectable for the video framebuffer.

use vstd::prelude::*;

use crate::opt::EnumValues;

verus! {

#[derive(Clone, Copy, PartialEq, Eq, Structural, Debug)]
pub enum ColorPalette {
    Exp,
    Linear,
    Gray,
    InvGray,
}

impl EnumValues for ColorPalette {
    open spec fn labels() -> Seq<Seq<char>> {
        seq!["exp"@, "linear"@, "gray"@, "inv-gray"@]
    }

    open spec fn index_of(self) -> int {
        match self {
            ColorPalette::Exp => 0,
            ColorPalette::Linear => 1,
            ColorPalette::Gray => 2,
            ColorPalette::InvGray => 3,
        }
    }

    proof fn index_in_range(self) {
    }

    fn count() -> usize {
        4
    }

    fn index(self) -> usize {
        match self {
            ColorPalette::Exp => 0,
            ColorPalette::Linear => 1,
            ColorPalette::Gray => 2,
            ColorPalette::InvGray => 3,
        }
    }

    fn from_index(i: usize) -> Self {
        if i == 0 {
            ColorPalette::Exp
        } else if i == 1 {
            ColorPalette::Linear
        } else if i == 2 {
            ColorPalette::Gray
        } else {
            ColorPalette::InvGray
        }
    }

    fn label(self) -> &'static str {
        match self {
            ColorPalette::Exp => "exp",
            ColorPalette::Linear => "linear",
            ColorPalette::Gray => "gray",
            ColorPalette::InvGray => "inv-gray",
        }
    }
}

} // verus!
