//! The font: which segments draw each character the display can show.
use vstd::prelude::*;

use crate::display::{DisplayError, Segment};

verus! {

/// The segments that draw each character the display can show: the digits,
/// the capital letters, the space, the minus sign and the question mark.
pub open spec fn glyph_of(c: char) -> Option<Seq<Segment>> {
    if c == '0' {
        Some(seq![Segment::TopHorizontal, Segment::TopRightVertical, Segment::BottomRightVertical, Segment::BottomHorizontal, Segment::BottomLeftVertical, Segment::TopLeftVertical])
    } else if c == '1' {
        Some(seq![Segment::TopRightVertical, Segment::BottomRightVertical])
    } else if c == '2' {
        Some(seq![Segment::TopHorizontal, Segment::TopRightVertical, Segment::MiddleLeft, Segment::MiddleRight, Segment::BottomLeftVertical, Segment::BottomHorizontal])
    } else if c == '3' {
        Some(seq![Segment::TopHorizontal, Segment::TopRightVertical, Segment::MiddleRight, Segment::BottomRightVertical, Segment::BottomHorizontal])
    } else if c == '4' {
        Some(seq![Segment::TopLeftVertical, Segment::MiddleLeft, Segment::MiddleRight, Segment::TopRightVertical, Segment::BottomRightVertical])
    } else if c == '5' {
        Some(seq![Segment::TopHorizontal, Segment::TopLeftVertical, Segment::MiddleLeft, Segment::MiddleRight, Segment::BottomRightVertical, Segment::BottomHorizontal])
    } else if c == '6' {
        Some(seq![Segment::TopHorizontal, Segment::TopLeftVertical, Segment::BottomLeftVertical, Segment::BottomHorizontal, Segment::BottomRightVertical, Segment::MiddleLeft, Segment::MiddleRight])
    } else if c == '7' {
        Some(seq![Segment::TopHorizontal, Segment::TopRightVertical, Segment::BottomRightVertical])
    } else if c == '8' {
        Some(seq![Segment::TopHorizontal, Segment::TopRightVertical, Segment::BottomRightVertical, Segment::BottomHorizontal, Segment::BottomLeftVertical, Segment::TopLeftVertical, Segment::MiddleLeft, Segment::MiddleRight])
    } else if c == '9' {
        Some(seq![Segment::TopHorizontal, Segment::TopRightVertical, Segment::BottomRightVertical, Segment::BottomHorizontal, Segment::TopLeftVertical, Segment::MiddleLeft, Segment::MiddleRight])
    } else if c == 'A' {
        Some(seq![Segment::TopHorizontal, Segment::TopRightVertical, Segment::BottomRightVertical, Segment::BottomLeftVertical, Segment::TopLeftVertical, Segment::MiddleLeft, Segment::MiddleRight])
    } else if c == 'B' {
        Some(seq![Segment::TopHorizontal, Segment::TopRightVertical, Segment::BottomRightVertical, Segment::BottomHorizontal, Segment::MiddleRight, Segment::TopMiddleVertical, Segment::BottomMiddleVertical])
    } else if c == 'C' {
        Some(seq![Segment::TopHorizontal, Segment::BottomHorizontal, Segment::BottomLeftVertical, Segment::TopLeftVertical])
    } else if c == 'D' {
        Some(seq![Segment::TopHorizontal, Segment::TopRightVertical, Segment::BottomRightVertical, Segment::BottomHorizontal, Segment::TopMiddleVertical, Segment::BottomMiddleVertical])
    } else if c == 'E' {
        Some(seq![Segment::TopHorizontal, Segment::BottomHorizontal, Segment::BottomLeftVertical, Segment::TopLeftVertical, Segment::MiddleLeft])
    } else if c == 'F' {
        Some(seq![Segment::TopHorizontal, Segment::BottomLeftVertical, Segment::TopLeftVertical, Segment::MiddleLeft])
    } else if c == 'G' {
        Some(seq![Segment::TopHorizontal, Segment::BottomRightVertical, Segment::BottomHorizontal, Segment::BottomLeftVertical, Segment::TopLeftVertical, Segment::MiddleRight])
    } else if c == 'H' {
        Some(seq![Segment::TopRightVertical, Segment::BottomRightVertical, Segment::BottomLeftVertical, Segment::TopLeftVertical, Segment::MiddleLeft, Segment::MiddleRight])
    } else if c == 'I' {
        Some(seq![Segment::TopHorizontal, Segment::BottomHorizontal, Segment::TopMiddleVertical, Segment::BottomMiddleVertical])
    } else if c == 'J' {
        Some(seq![Segment::TopRightVertical, Segment::BottomRightVertical, Segment::BottomHorizontal, Segment::BottomLeftVertical])
    } else if c == 'K' {
        Some(seq![Segment::BottomLeftVertical, Segment::TopLeftVertical, Segment::MiddleLeft, Segment::TopRightDiagonal, Segment::BottomRightDiagonal])
    } else if c == 'L' {
        Some(seq![Segment::BottomHorizontal, Segment::BottomLeftVertical, Segment::TopLeftVertical])
    } else if c == 'M' {
        Some(seq![Segment::TopRightVertical, Segment::BottomRightVertical, Segment::BottomLeftVertical, Segment::TopLeftVertical, Segment::TopLeftDiagonal, Segment::TopRightDiagonal])
    } else if c == 'N' {
        Some(seq![Segment::TopRightVertical, Segment::BottomRightVertical, Segment::BottomLeftVertical, Segment::TopLeftVertical, Segment::TopLeftDiagonal, Segment::BottomRightDiagonal])
    } else if c == 'O' {
        Some(seq![Segment::TopHorizontal, Segment::TopRightVertical, Segment::BottomRightVertical, Segment::BottomHorizontal, Segment::BottomLeftVertical, Segment::TopLeftVertical])
    } else if c == 'P' {
        Some(seq![Segment::TopHorizontal, Segment::TopRightVertical, Segment::BottomLeftVertical, Segment::TopLeftVertical, Segment::MiddleLeft, Segment::MiddleRight])
    } else if c == 'Q' {
        Some(seq![Segment::TopHorizontal, Segment::TopRightVertical, Segment::BottomRightVertical, Segment::BottomHorizontal, Segment::BottomLeftVertical, Segment::TopLeftVertical, Segment::BottomRightDiagonal])
    } else if c == 'R' {
        Some(seq![Segment::TopHorizontal, Segment::TopRightVertical, Segment::BottomLeftVertical, Segment::TopLeftVertical, Segment::MiddleLeft, Segment::MiddleRight, Segment::BottomRightDiagonal])
    } else if c == 'S' {
        Some(seq![Segment::TopHorizontal, Segment::BottomRightVertical, Segment::BottomHorizontal, Segment::TopLeftVertical, Segment::MiddleLeft, Segment::MiddleRight])
    } else if c == 'T' {
        Some(seq![Segment::TopHorizontal, Segment::TopMiddleVertical, Segment::BottomMiddleVertical])
    } else if c == 'U' {
        Some(seq![Segment::TopRightVertical, Segment::BottomRightVertical, Segment::BottomHorizontal, Segment::BottomLeftVertical, Segment::TopLeftVertical])
    } else if c == 'V' {
        Some(seq![Segment::BottomLeftVertical, Segment::TopLeftVertical, Segment::BottomLeftDiagonal, Segment::TopRightDiagonal])
    } else if c == 'W' {
        Some(seq![Segment::TopRightVertical, Segment::BottomRightVertical, Segment::BottomLeftVertical, Segment::TopLeftVertical, Segment::BottomLeftDiagonal, Segment::BottomRightDiagonal])
    } else if c == 'X' {
        Some(seq![Segment::TopLeftDiagonal, Segment::TopRightDiagonal, Segment::BottomLeftDiagonal, Segment::BottomRightDiagonal])
    } else if c == 'Y' {
        Some(seq![Segment::TopLeftDiagonal, Segment::TopRightDiagonal, Segment::BottomMiddleVertical])
    } else if c == 'Z' {
        Some(seq![Segment::TopHorizontal, Segment::BottomHorizontal, Segment::TopRightDiagonal, Segment::BottomLeftDiagonal])
    } else if c == '-' {
        Some(seq![Segment::MiddleLeft, Segment::MiddleRight])
    } else if c == ' ' {
        Some(Seq::<Segment>::empty())
    } else if c == '?' {
        Some(seq![Segment::TopHorizontal, Segment::TopRightVertical, Segment::MiddleRight, Segment::BottomMiddleVertical])
    } else {
        None
    }
}

/// The segments that draw `c` on one character of the display, or
/// `UnknownGlyph(c)` for a character that has no glyph.
pub fn glyph(c: char) -> (r: Result<&'static [Segment], DisplayError>)
    ensures
        r is Ok <==> glyph_of(c) is Some,
        r matches Ok(g) ==> glyph_of(c) == Some(g@),
        r matches Err(e) ==> e == DisplayError::UnknownGlyph(c),
{
    match c {
        '0' => {
            let g: &'static [Segment] = &[Segment::TopHorizontal, Segment::TopRightVertical, Segment::BottomRightVertical, Segment::BottomHorizontal, Segment::BottomLeftVertical, Segment::TopLeftVertical];
            assert(g@ =~= seq![Segment::TopHorizontal, Segment::TopRightVertical, Segment::BottomRightVertical, Segment::BottomHorizontal, Segment::BottomLeftVertical, Segment::TopLeftVertical]);
            Ok(g)
        },
        '1' => {
            let g: &'static [Segment] = &[Segment::TopRightVertical, Segment::BottomRightVertical];
            assert(g@ =~= seq![Segment::TopRightVertical, Segment::BottomRightVertical]);
            Ok(g)
        },
        '2' => {
            let g: &'static [Segment] = &[Segment::TopHorizontal, Segment::TopRightVertical, Segment::MiddleLeft, Segment::MiddleRight, Segment::BottomLeftVertical, Segment::BottomHorizontal];
            assert(g@ =~= seq![Segment::TopHorizontal, Segment::TopRightVertical, Segment::MiddleLeft, Segment::MiddleRight, Segment::BottomLeftVertical, Segment::BottomHorizontal]);
            Ok(g)
        },
        '3' => {
            let g: &'static [Segment] = &[Segment::TopHorizontal, Segment::TopRightVertical, Segment::MiddleRight, Segment::BottomRightVertical, Segment::BottomHorizontal];
            assert(g@ =~= seq![Segment::TopHorizontal, Segment::TopRightVertical, Segment::MiddleRight, Segment::BottomRightVertical, Segment::BottomHorizontal]);
            Ok(g)
        },
        '4' => {
            let g: &'static [Segment] = &[Segment::TopLeftVertical, Segment::MiddleLeft, Segment::MiddleRight, Segment::TopRightVertical, Segment::BottomRightVertical];
            assert(g@ =~= seq![Segment::TopLeftVertical, Segment::MiddleLeft, Segment::MiddleRight, Segment::TopRightVertical, Segment::BottomRightVertical]);
            Ok(g)
        },
        '5' => {
            let g: &'static [Segment] = &[Segment::TopHorizontal, Segment::TopLeftVertical, Segment::MiddleLeft, Segment::MiddleRight, Segment::BottomRightVertical, Segment::BottomHorizontal];
            assert(g@ =~= seq![Segment::TopHorizontal, Segment::TopLeftVertical, Segment::MiddleLeft, Segment::MiddleRight, Segment::BottomRightVertical, Segment::BottomHorizontal]);
            Ok(g)
        },
        '6' => {
            let g: &'static [Segment] = &[Segment::TopHorizontal, Segment::TopLeftVertical, Segment::BottomLeftVertical, Segment::BottomHorizontal, Segment::BottomRightVertical, Segment::MiddleLeft, Segment::MiddleRight];
            assert(g@ =~= seq![Segment::TopHorizontal, Segment::TopLeftVertical, Segment::BottomLeftVertical, Segment::BottomHorizontal, Segment::BottomRightVertical, Segment::MiddleLeft, Segment::MiddleRight]);
            Ok(g)
        },
        '7' => {
            let g: &'static [Segment] = &[Segment::TopHorizontal, Segment::TopRightVertical, Segment::BottomRightVertical];
            assert(g@ =~= seq![Segment::TopHorizontal, Segment::TopRightVertical, Segment::BottomRightVertical]);
            Ok(g)
        },
        '8' => {
            let g: &'static [Segment] = &[Segment::TopHorizontal, Segment::TopRightVertical, Segment::BottomRightVertical, Segment::BottomHorizontal, Segment::BottomLeftVertical, Segment::TopLeftVertical, Segment::MiddleLeft, Segment::MiddleRight];
            assert(g@ =~= seq![Segment::TopHorizontal, Segment::TopRightVertical, Segment::BottomRightVertical, Segment::BottomHorizontal, Segment::BottomLeftVertical, Segment::TopLeftVertical, Segment::MiddleLeft, Segment::MiddleRight]);
            Ok(g)
        },
        '9' => {
            let g: &'static [Segment] = &[Segment::TopHorizontal, Segment::TopRightVertical, Segment::BottomRightVertical, Segment::BottomHorizontal, Segment::TopLeftVertical, Segment::MiddleLeft, Segment::MiddleRight];
            assert(g@ =~= seq![Segment::TopHorizontal, Segment::TopRightVertical, Segment::BottomRightVertical, Segment::BottomHorizontal, Segment::TopLeftVertical, Segment::MiddleLeft, Segment::MiddleRight]);
            Ok(g)
        },
        'A' => {
            let g: &'static [Segment] = &[Segment::TopHorizontal, Segment::TopRightVertical, Segment::BottomRightVertical, Segment::BottomLeftVertical, Segment::TopLeftVertical, Segment::MiddleLeft, Segment::MiddleRight];
            assert(g@ =~= seq![Segment::TopHorizontal, Segment::TopRightVertical, Segment::BottomRightVertical, Segment::BottomLeftVertical, Segment::TopLeftVertical, Segment::MiddleLeft, Segment::MiddleRight]);
            Ok(g)
        },
        'B' => {
            let g: &'static [Segment] = &[Segment::TopHorizontal, Segment::TopRightVertical, Segment::BottomRightVertical, Segment::BottomHorizontal, Segment::MiddleRight, Segment::TopMiddleVertical, Segment::BottomMiddleVertical];
            assert(g@ =~= seq![Segment::TopHorizontal, Segment::TopRightVertical, Segment::BottomRightVertical, Segment::BottomHorizontal, Segment::MiddleRight, Segment::TopMiddleVertical, Segment::BottomMiddleVertical]);
            Ok(g)
        },
        'C' => {
            let g: &'static [Segment] = &[Segment::TopHorizontal, Segment::BottomHorizontal, Segment::BottomLeftVertical, Segment::TopLeftVertical];
            assert(g@ =~= seq![Segment::TopHorizontal, Segment::BottomHorizontal, Segment::BottomLeftVertical, Segment::TopLeftVertical]);
            Ok(g)
        },
        'D' => {
            let g: &'static [Segment] = &[Segment::TopHorizontal, Segment::TopRightVertical, Segment::BottomRightVertical, Segment::BottomHorizontal, Segment::TopMiddleVertical, Segment::BottomMiddleVertical];
            assert(g@ =~= seq![Segment::TopHorizontal, Segment::TopRightVertical, Segment::BottomRightVertical, Segment::BottomHorizontal, Segment::TopMiddleVertical, Segment::BottomMiddleVertical]);
            Ok(g)
        },
        'E' => {
            let g: &'static [Segment] = &[Segment::TopHorizontal, Segment::BottomHorizontal, Segment::BottomLeftVertical, Segment::TopLeftVertical, Segment::MiddleLeft];
            assert(g@ =~= seq![Segment::TopHorizontal, Segment::BottomHorizontal, Segment::BottomLeftVertical, Segment::TopLeftVertical, Segment::MiddleLeft]);
            Ok(g)
        },
        'F' => {
            let g: &'static [Segment] = &[Segment::TopHorizontal, Segment::BottomLeftVertical, Segment::TopLeftVertical, Segment::MiddleLeft];
            assert(g@ =~= seq![Segment::TopHorizontal, Segment::BottomLeftVertical, Segment::TopLeftVertical, Segment::MiddleLeft]);
            Ok(g)
        },
        'G' => {
            let g: &'static [Segment] = &[Segment::TopHorizontal, Segment::BottomRightVertical, Segment::BottomHorizontal, Segment::BottomLeftVertical, Segment::TopLeftVertical, Segment::MiddleRight];
            assert(g@ =~= seq![Segment::TopHorizontal, Segment::BottomRightVertical, Segment::BottomHorizontal, Segment::BottomLeftVertical, Segment::TopLeftVertical, Segment::MiddleRight]);
            Ok(g)
        },
        'H' => {
            let g: &'static [Segment] = &[Segment::TopRightVertical, Segment::BottomRightVertical, Segment::BottomLeftVertical, Segment::TopLeftVertical, Segment::MiddleLeft, Segment::MiddleRight];
            assert(g@ =~= seq![Segment::TopRightVertical, Segment::BottomRightVertical, Segment::BottomLeftVertical, Segment::TopLeftVertical, Segment::MiddleLeft, Segment::MiddleRight]);
            Ok(g)
        },
        'I' => {
            let g: &'static [Segment] = &[Segment::TopHorizontal, Segment::BottomHorizontal, Segment::TopMiddleVertical, Segment::BottomMiddleVertical];
            assert(g@ =~= seq![Segment::TopHorizontal, Segment::BottomHorizontal, Segment::TopMiddleVertical, Segment::BottomMiddleVertical]);
            Ok(g)
        },
        'J' => {
            let g: &'static [Segment] = &[Segment::TopRightVertical, Segment::BottomRightVertical, Segment::BottomHorizontal, Segment::BottomLeftVertical];
            assert(g@ =~= seq![Segment::TopRightVertical, Segment::BottomRightVertical, Segment::BottomHorizontal, Segment::BottomLeftVertical]);
            Ok(g)
        },
        'K' => {
            let g: &'static [Segment] = &[Segment::BottomLeftVertical, Segment::TopLeftVertical, Segment::MiddleLeft, Segment::TopRightDiagonal, Segment::BottomRightDiagonal];
            assert(g@ =~= seq![Segment::BottomLeftVertical, Segment::TopLeftVertical, Segment::MiddleLeft, Segment::TopRightDiagonal, Segment::BottomRightDiagonal]);
            Ok(g)
        },
        'L' => {
            let g: &'static [Segment] = &[Segment::BottomHorizontal, Segment::BottomLeftVertical, Segment::TopLeftVertical];
            assert(g@ =~= seq![Segment::BottomHorizontal, Segment::BottomLeftVertical, Segment::TopLeftVertical]);
            Ok(g)
        },
        'M' => {
            let g: &'static [Segment] = &[Segment::TopRightVertical, Segment::BottomRightVertical, Segment::BottomLeftVertical, Segment::TopLeftVertical, Segment::TopLeftDiagonal, Segment::TopRightDiagonal];
            assert(g@ =~= seq![Segment::TopRightVertical, Segment::BottomRightVertical, Segment::BottomLeftVertical, Segment::TopLeftVertical, Segment::TopLeftDiagonal, Segment::TopRightDiagonal]);
            Ok(g)
        },
        'N' => {
            let g: &'static [Segment] = &[Segment::TopRightVertical, Segment::BottomRightVertical, Segment::BottomLeftVertical, Segment::TopLeftVertical, Segment::TopLeftDiagonal, Segment::BottomRightDiagonal];
            assert(g@ =~= seq![Segment::TopRightVertical, Segment::BottomRightVertical, Segment::BottomLeftVertical, Segment::TopLeftVertical, Segment::TopLeftDiagonal, Segment::BottomRightDiagonal]);
            Ok(g)
        },
        'O' => {
            let g: &'static [Segment] = &[Segment::TopHorizontal, Segment::TopRightVertical, Segment::BottomRightVertical, Segment::BottomHorizontal, Segment::BottomLeftVertical, Segment::TopLeftVertical];
            assert(g@ =~= seq![Segment::TopHorizontal, Segment::TopRightVertical, Segment::BottomRightVertical, Segment::BottomHorizontal, Segment::BottomLeftVertical, Segment::TopLeftVertical]);
            Ok(g)
        },
        'P' => {
            let g: &'static [Segment] = &[Segment::TopHorizontal, Segment::TopRightVertical, Segment::BottomLeftVertical, Segment::TopLeftVertical, Segment::MiddleLeft, Segment::MiddleRight];
            assert(g@ =~= seq![Segment::TopHorizontal, Segment::TopRightVertical, Segment::BottomLeftVertical, Segment::TopLeftVertical, Segment::MiddleLeft, Segment::MiddleRight]);
            Ok(g)
        },
        'Q' => {
            let g: &'static [Segment] = &[Segment::TopHorizontal, Segment::TopRightVertical, Segment::BottomRightVertical, Segment::BottomHorizontal, Segment::BottomLeftVertical, Segment::TopLeftVertical, Segment::BottomRightDiagonal];
            assert(g@ =~= seq![Segment::TopHorizontal, Segment::TopRightVertical, Segment::BottomRightVertical, Segment::BottomHorizontal, Segment::BottomLeftVertical, Segment::TopLeftVertical, Segment::BottomRightDiagonal]);
            Ok(g)
        },
        'R' => {
            let g: &'static [Segment] = &[Segment::TopHorizontal, Segment::TopRightVertical, Segment::BottomLeftVertical, Segment::TopLeftVertical, Segment::MiddleLeft, Segment::MiddleRight, Segment::BottomRightDiagonal];
            assert(g@ =~= seq![Segment::TopHorizontal, Segment::TopRightVertical, Segment::BottomLeftVertical, Segment::TopLeftVertical, Segment::MiddleLeft, Segment::MiddleRight, Segment::BottomRightDiagonal]);
            Ok(g)
        },
        'S' => {
            let g: &'static [Segment] = &[Segment::TopHorizontal, Segment::BottomRightVertical, Segment::BottomHorizontal, Segment::TopLeftVertical, Segment::MiddleLeft, Segment::MiddleRight];
            assert(g@ =~= seq![Segment::TopHorizontal, Segment::BottomRightVertical, Segment::BottomHorizontal, Segment::TopLeftVertical, Segment::MiddleLeft, Segment::MiddleRight]);
            Ok(g)
        },
        'T' => {
            let g: &'static [Segment] = &[Segment::TopHorizontal, Segment::TopMiddleVertical, Segment::BottomMiddleVertical];
            assert(g@ =~= seq![Segment::TopHorizontal, Segment::TopMiddleVertical, Segment::BottomMiddleVertical]);
            Ok(g)
        },
        'U' => {
            let g: &'static [Segment] = &[Segment::TopRightVertical, Segment::BottomRightVertical, Segment::BottomHorizontal, Segment::BottomLeftVertical, Segment::TopLeftVertical];
            assert(g@ =~= seq![Segment::TopRightVertical, Segment::BottomRightVertical, Segment::BottomHorizontal, Segment::BottomLeftVertical, Segment::TopLeftVertical]);
            Ok(g)
        },
        'V' => {
            let g: &'static [Segment] = &[Segment::BottomLeftVertical, Segment::TopLeftVertical, Segment::BottomLeftDiagonal, Segment::TopRightDiagonal];
            assert(g@ =~= seq![Segment::BottomLeftVertical, Segment::TopLeftVertical, Segment::BottomLeftDiagonal, Segment::TopRightDiagonal]);
            Ok(g)
        },
        'W' => {
            let g: &'static [Segment] = &[Segment::TopRightVertical, Segment::BottomRightVertical, Segment::BottomLeftVertical, Segment::TopLeftVertical, Segment::BottomLeftDiagonal, Segment::BottomRightDiagonal];
            assert(g@ =~= seq![Segment::TopRightVertical, Segment::BottomRightVertical, Segment::BottomLeftVertical, Segment::TopLeftVertical, Segment::BottomLeftDiagonal, Segment::BottomRightDiagonal]);
            Ok(g)
        },
        'X' => {
            let g: &'static [Segment] = &[Segment::TopLeftDiagonal, Segment::TopRightDiagonal, Segment::BottomLeftDiagonal, Segment::BottomRightDiagonal];
            assert(g@ =~= seq![Segment::TopLeftDiagonal, Segment::TopRightDiagonal, Segment::BottomLeftDiagonal, Segment::BottomRightDiagonal]);
            Ok(g)
        },
        'Y' => {
            let g: &'static [Segment] = &[Segment::TopLeftDiagonal, Segment::TopRightDiagonal, Segment::BottomMiddleVertical];
            assert(g@ =~= seq![Segment::TopLeftDiagonal, Segment::TopRightDiagonal, Segment::BottomMiddleVertical]);
            Ok(g)
        },
        'Z' => {
            let g: &'static [Segment] = &[Segment::TopHorizontal, Segment::BottomHorizontal, Segment::TopRightDiagonal, Segment::BottomLeftDiagonal];
            assert(g@ =~= seq![Segment::TopHorizontal, Segment::BottomHorizontal, Segment::TopRightDiagonal, Segment::BottomLeftDiagonal]);
            Ok(g)
        },
        '-' => {
            let g: &'static [Segment] = &[Segment::MiddleLeft, Segment::MiddleRight];
            assert(g@ =~= seq![Segment::MiddleLeft, Segment::MiddleRight]);
            Ok(g)
        },
        ' ' => {
            let g: &'static [Segment] = &[];
            assert(g@ =~= Seq::<Segment>::empty());
            Ok(g)
        },
        '?' => {
            let g: &'static [Segment] = &[Segment::TopHorizontal, Segment::TopRightVertical, Segment::MiddleRight, Segment::BottomMiddleVertical];
            assert(g@ =~= seq![Segment::TopHorizontal, Segment::TopRightVertical, Segment::MiddleRight, Segment::BottomMiddleVertical]);
            Ok(g)
        },
        _ => Err(DisplayError::UnknownGlyph(c)),
    }
}

/// Every glyph lights at most the fourteen segments of a character.
pub proof fn lemma_glyphs_fit(c: char)
    ensures
        glyph_of(c) matches Some(g) ==> g.len() <= 14,
{
}

} // verus!
