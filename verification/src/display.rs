//! The fourteen-segment display: which frame byte and bit light each segment.
//!
//! A frame is 17 bytes. Bytes 3 to 10 hold two bytes per character (bytes 3 and
//! 4 for the first character, 5 and 6 for the second, and so on). Bytes 11 and
//! 12 hold the right diagonals of all four characters, which did not fit into
//! the per-character bytes.
use vstd::prelude::*;

use crate::fixed_capacity::{
    character_list, characters_into_array, new_character_list, new_segment_list, push_character,
    push_segment, segment_list, segment_slice,
};
use crate::text;

verus! {

/// Number of bytes in a display frame.
pub const FRAME_LEN: usize = 17;

/// The four character cells of the display, left to right.
#[derive(Clone, Copy, Debug, PartialEq, Eq, Structural)]
pub enum CharacterIndex {
    One,
    Two,
    Three,
    Four,
}

/// The fourteen segments of one character.
#[derive(Clone, Copy, Debug, PartialEq, Eq, Structural)]
pub enum Segment {
    TopHorizontal,
    TopLeftVertical,
    TopLeftDiagonal,
    TopMiddleVertical,
    TopRightDiagonal,
    TopRightVertical,
    MiddleLeft,
    MiddleRight,
    BottomLeftVertical,
    BottomLeftDiagonal,
    BottomMiddleVertical,
    BottomRightDiagonal,
    BottomRightVertical,
    BottomHorizontal,
}

/// Errors while building a display frame.
#[derive(Debug)]
pub enum DisplayError {
    /// A character that no glyph exists for.
    UnknownGlyph(char),
}

impl CharacterIndex {
    /// Position of the character cell, 0 for the leftmost.
    pub open spec fn position(self) -> int {
        match self {
            CharacterIndex::One => 0,
            CharacterIndex::Two => 1,
            CharacterIndex::Three => 2,
            CharacterIndex::Four => 3,
        }
    }

    /// The character cell at a position, if the position is one of the four.
    pub open spec fn at_position(i: int) -> Option<CharacterIndex> {
        if i == 0 {
            Some(CharacterIndex::One)
        } else if i == 1 {
            Some(CharacterIndex::Two)
        } else if i == 2 {
            Some(CharacterIndex::Three)
        } else if i == 3 {
            Some(CharacterIndex::Four)
        } else {
            None
        }
    }

    /// Index of the first of the two frame bytes that belong to this character.
    pub fn first_byte_index(&self) -> (r: usize)
        ensures
            r == 3 + 2 * self.position(),
    {
        match self {
            CharacterIndex::One => 3,
            CharacterIndex::Two => 5,
            CharacterIndex::Three => 7,
            CharacterIndex::Four => 9,
        }
    }
}

/// The character cell at a position: the first four positions name the four
/// cells, and no other does.
impl TryFrom<usize> for CharacterIndex {
    type Error = ();

    fn try_from(index: usize) -> (r: Result<Self, ()>) {
        match index {
            0 => Ok(CharacterIndex::One),
            1 => Ok(CharacterIndex::Two),
            2 => Ok(CharacterIndex::Three),
            3 => Ok(CharacterIndex::Four),
            _ => Err(()),
        }
    }
}

impl vstd::std_specs::convert::TryFromSpecImpl<usize> for CharacterIndex {
    open spec fn obeys_try_from_spec() -> bool {
        true
    }

    open spec fn try_from_spec(index: usize) -> Result<Self, ()> {
        match CharacterIndex::at_position(index as int) {
            Some(c) => Ok(c),
            None => Err(()),
        }
    }
}

/// The frame byte and the bit mask that light `segment` of character `c`.
pub open spec fn segment_bit(c: CharacterIndex, segment: Segment) -> (usize, u8) {
    let first = (3 + 2 * c.position()) as usize;
    let second = (4 + 2 * c.position()) as usize;
    match segment {
        Segment::TopHorizontal => (first, 0b00010000u8),
        Segment::TopLeftVertical => (second, 0b01000000u8),
        Segment::TopLeftDiagonal => (first, 0b10000000u8),
        Segment::TopMiddleVertical => (second, 0b00100000u8),
        Segment::TopRightDiagonal => match c {
            CharacterIndex::One => (11usize, 0b00010000u8),
            CharacterIndex::Two => (11usize, 0b01000000u8),
            CharacterIndex::Three => (11usize, 0b00100000u8),
            CharacterIndex::Four => (12usize, 0b00000100u8),
        },
        Segment::TopRightVertical => (first, 0b01000000u8),
        Segment::MiddleLeft => (second, 0b00000010u8),
        Segment::MiddleRight => (second, 0b00000001u8),
        Segment::BottomLeftVertical => (first, 0b00001000u8),
        Segment::BottomLeftDiagonal => (second, 0b00010000u8),
        Segment::BottomMiddleVertical => (second, 0b00001000u8),
        Segment::BottomRightDiagonal => match c {
            CharacterIndex::One => (11usize, 0b00001000u8),
            CharacterIndex::Two => (12usize, 0b01000000u8),
            CharacterIndex::Three => (12usize, 0b00000010u8),
            CharacterIndex::Four => (12usize, 0b00000001u8),
        },
        Segment::BottomRightVertical => (first, 0b00100000u8),
        Segment::BottomHorizontal => (second, 0b00000100u8),
    }
}

/// `mask` has exactly one bit set.
pub open spec fn is_single_bit(mask: u8) -> bool {
    mask == 1u8 || mask == 2u8 || mask == 4u8 || mask == 8u8 || mask == 16u8 || mask == 32u8
        || mask == 64u8 || mask == 128u8
}

/// The frame byte and the bit mask that light `segment` of the character at
/// `character_index`. Never fails.
pub fn segment_to_frame_byte(character_index: CharacterIndex, segment: Segment) -> (r: Result<
    (usize, u8),
    DisplayError,
>)
    ensures
        r == Ok::<(usize, u8), DisplayError>(segment_bit(character_index, segment)),
        r matches Ok((index, mask)) ==> 3 <= index <= 12 && is_single_bit(mask),
{
    let char_first_byte_index = character_index.first_byte_index();
    let top_right_diagonal_bitmask: u8 = match character_index {
        CharacterIndex::One => 0b00010000,
        CharacterIndex::Two => 0b01000000,
        CharacterIndex::Three => 0b00100000,
        CharacterIndex::Four => 0b00000100,
    };
    let bottom_right_diagonal_bitmask: u8 = match character_index {
        CharacterIndex::One => 0b00001000,
        CharacterIndex::Two => 0b01000000,
        CharacterIndex::Three => 0b00000010,
        CharacterIndex::Four => 0b00000001,
    };
    Ok(
        match segment {
            Segment::TopHorizontal => (char_first_byte_index, 0b00010000),
            Segment::TopLeftVertical => (char_first_byte_index + 1, 0b01000000),
            Segment::TopLeftDiagonal => (char_first_byte_index, 0b10000000),
            Segment::TopMiddleVertical => (char_first_byte_index + 1, 0b00100000),
            Segment::TopRightDiagonal => (
                if character_index == CharacterIndex::Four {
                    12
                } else {
                    11
                },
                top_right_diagonal_bitmask,
            ),
            Segment::TopRightVertical => (char_first_byte_index, 0b01000000),
            Segment::MiddleLeft => (char_first_byte_index + 1, 0b00000010),
            Segment::MiddleRight => (char_first_byte_index + 1, 0b00000001),
            Segment::BottomLeftVertical => (char_first_byte_index, 0b00001000),
            Segment::BottomLeftDiagonal => (char_first_byte_index + 1, 0b00010000),
            Segment::BottomMiddleVertical => (char_first_byte_index + 1, 0b00001000),
            Segment::BottomRightDiagonal => (
                if character_index == CharacterIndex::One {
                    11
                } else {
                    12
                },
                bottom_right_diagonal_bitmask,
            ),
            Segment::BottomRightVertical => (char_first_byte_index, 0b00100000),
            Segment::BottomHorizontal => (char_first_byte_index + 1, 0b00000100),
        },
    )
}


/// `frame` with the bit that lights `segment` of character `c` set.
pub open spec fn light(frame: Seq<u8>, c: CharacterIndex, segment: Segment) -> Seq<u8> {
    let (index, mask) = segment_bit(c, segment);
    frame.update(index as int, frame[index as int] | mask)
}

/// The frame that lights the listed segments, starting from a dark frame.
pub open spec fn render(lit: Seq<(CharacterIndex, Segment)>) -> Seq<u8>
    decreases lit.len(),
{
    if lit.len() == 0 {
        Seq::new(FRAME_LEN as nat, |i: int| 0u8)
    } else {
        light(render(lit.drop_last()), lit.last().0, lit.last().1)
    }
}

/// Bit `k` of `x` is set.
pub open spec fn bit_is_set(x: u8, k: u8) -> bool {
    x & (1u8 << k) != 0
}

/// Some listed segment is lit by bit `k` of frame byte `b`.
pub open spec fn lights_bit(lit: Seq<(CharacterIndex, Segment)>, b: int, k: u8) -> bool {
    exists|i: int|
        0 <= i < lit.len() && #[trigger] segment_bit(lit[i].0, lit[i].1) == (b as usize, 1u8 << k)
}

proof fn lemma_or_single_bit(x: u8, m: u8, k: u8)
    requires
        k < 8,
        is_single_bit(m),
    ensures
        bit_is_set(x | m, k) <==> (bit_is_set(x, k) || m == 1u8 << k),
{
    assert((x | m) & (1u8 << k) != 0 <==> (x & (1u8 << k) != 0 || m == 1u8 << k)) by (bit_vector)
        requires
            k < 8,
            m == 1u8 || m == 2u8 || m == 4u8 || m == 8u8 || m == 16u8 || m == 32u8 || m == 64u8
                || m == 128u8,
    ;
}

/// Every segment has its own frame byte between 3 and 12 and its own single bit
/// there.
pub proof fn lemma_segment_bit_in_frame(c: CharacterIndex, segment: Segment)
    ensures
        3 <= segment_bit(c, segment).0 <= 12,
        is_single_bit(segment_bit(c, segment).1),
{
}

/// Two different segments, of the same character or of two characters, never
/// share a bit of the frame.
pub proof fn lemma_segment_bits_distinct(
    c1: CharacterIndex,
    s1: Segment,
    c2: CharacterIndex,
    s2: Segment,
)
    requires
        c1 != c2 || s1 != s2,
    ensures
        segment_bit(c1, s1) != segment_bit(c2, s2),
{
}

/// The frame layout of the segments: each character owns two frame bytes, the
/// first at `3 + 2 * position`. The first byte holds the top bar (bit 4), the
/// top-left diagonal (bit 7), the top-right and bottom-right verticals (bits 6
/// and 5) and the bottom-left vertical (bit 3); the second holds the top-left
/// and top-middle verticals (bits 6 and 5), the two middle bars (bits 1 and 0),
/// the bottom-left diagonal (bit 4), the bottom-middle vertical (bit 3) and the
/// bottom bar (bit 2). The right diagonals of all four characters share bytes 11
/// and 12.
pub proof fn lemma_segment_layout(c: CharacterIndex)
    ensures
        segment_bit(c, Segment::TopHorizontal) == ((3 + 2 * c.position()) as usize, 0x10u8),
        segment_bit(c, Segment::TopLeftDiagonal) == ((3 + 2 * c.position()) as usize, 0x80u8),
        segment_bit(c, Segment::TopRightVertical) == ((3 + 2 * c.position()) as usize, 0x40u8),
        segment_bit(c, Segment::BottomRightVertical) == ((3 + 2 * c.position()) as usize, 0x20u8),
        segment_bit(c, Segment::BottomLeftVertical) == ((3 + 2 * c.position()) as usize, 0x08u8),
        segment_bit(c, Segment::TopLeftVertical) == ((4 + 2 * c.position()) as usize, 0x40u8),
        segment_bit(c, Segment::TopMiddleVertical) == ((4 + 2 * c.position()) as usize, 0x20u8),
        segment_bit(c, Segment::MiddleLeft) == ((4 + 2 * c.position()) as usize, 0x02u8),
        segment_bit(c, Segment::MiddleRight) == ((4 + 2 * c.position()) as usize, 0x01u8),
        segment_bit(c, Segment::BottomLeftDiagonal) == ((4 + 2 * c.position()) as usize, 0x10u8),
        segment_bit(c, Segment::BottomMiddleVertical) == ((4 + 2 * c.position()) as usize, 0x08u8),
        segment_bit(c, Segment::BottomHorizontal) == ((4 + 2 * c.position()) as usize, 0x04u8),
        segment_bit(CharacterIndex::One, Segment::TopRightDiagonal) == (11usize, 0x10u8),
        segment_bit(CharacterIndex::Two, Segment::TopRightDiagonal) == (11usize, 0x40u8),
        segment_bit(CharacterIndex::Three, Segment::TopRightDiagonal) == (11usize, 0x20u8),
        segment_bit(CharacterIndex::Four, Segment::TopRightDiagonal) == (12usize, 0x04u8),
        segment_bit(CharacterIndex::One, Segment::BottomRightDiagonal) == (11usize, 0x08u8),
        segment_bit(CharacterIndex::Two, Segment::BottomRightDiagonal) == (12usize, 0x40u8),
        segment_bit(CharacterIndex::Three, Segment::BottomRightDiagonal) == (12usize, 0x02u8),
        segment_bit(CharacterIndex::Four, Segment::BottomRightDiagonal) == (12usize, 0x01u8),
{
}

/// Every segment but the right diagonals is drawn the same way in each
/// character: the same bit, in a byte two further along for each character to
/// the right.
pub proof fn lemma_segment_shift(c1: CharacterIndex, c2: CharacterIndex, segment: Segment)
    requires
        segment != Segment::TopRightDiagonal,
        segment != Segment::BottomRightDiagonal,
    ensures
        segment_bit(c1, segment).1 == segment_bit(c2, segment).1,
        segment_bit(c2, segment).0 - segment_bit(c1, segment).0 == 2 * (c2.position()
            - c1.position()),
{
}

/// A rendered frame has the frame's length.
pub proof fn lemma_render_len(lit: Seq<(CharacterIndex, Segment)>)
    ensures
        render(lit).len() == FRAME_LEN,
    decreases lit.len(),
{
    if lit.len() > 0 {
        lemma_render_len(lit.drop_last());
        lemma_segment_bit_in_frame(lit.last().0, lit.last().1);
    }
}

/// A bit of a rendered frame is set exactly when one of the listed segments is
/// lit by that bit: rendering lights the listed segments and nothing else.
pub proof fn lemma_rendered_bits(lit: Seq<(CharacterIndex, Segment)>, b: int, k: u8)
    requires
        0 <= b < FRAME_LEN,
        k < 8,
    ensures
        bit_is_set(render(lit)[b], k) <==> lights_bit(lit, b, k),
    decreases lit.len(),
{
    lemma_render_len(lit);
    if lit.len() == 0 {
        assert(bit_is_set(0u8, k) == false) by (bit_vector)
            requires
                k < 8,
        ;
    } else {
        let prev = lit.drop_last();
        let (c, s) = lit.last();
        lemma_rendered_bits(prev, b, k);
        lemma_render_len(prev);
        lemma_segment_bit_in_frame(c, s);
        let (index, mask) = segment_bit(c, s);
        if index as int == b {
            lemma_or_single_bit(render(prev)[b], mask, k);
        }
        if lights_bit(lit, b, k) && !lights_bit(prev, b, k) {
            let i = choose|i: int|
                0 <= i < lit.len() && #[trigger] segment_bit(lit[i].0, lit[i].1) == (
                    b as usize,
                    1u8 << k,
                );
            if i < lit.len() - 1 {
                assert(prev[i] == lit[i]);
                assert(segment_bit(prev[i].0, prev[i].1) == (b as usize, 1u8 << k));
            }
        }
        if lights_bit(prev, b, k) {
            let i = choose|i: int|
                0 <= i < prev.len() && #[trigger] segment_bit(prev[i].0, prev[i].1) == (
                    b as usize,
                    1u8 << k,
                );
            assert(lit[i] == prev[i]);
        }
        if index as int == b && mask == 1u8 << k {
            assert(segment_bit(lit[lit.len() - 1].0, lit[lit.len() - 1].1) == (b as usize, 1u8 << k));
        }
    }
}


/// One character cell and the segments its glyph lights.
#[derive(Debug)]
pub struct Character {
    pub index: CharacterIndex,
    pub segments: heapless::Vec<Segment, 14>,
}

/// The four characters of the display.
pub struct Display {
    pub characters: [Character; 4],
}

/// The segments a character lights, as pairs of its cell and the segment.
pub open spec fn character_lit(c: Character) -> Seq<(CharacterIndex, Segment)> {
    segment_list(c.segments).map_values(|s: Segment| (c.index, s))
}

/// The segments a display lights, character by character.
pub open spec fn display_lit(d: Display) -> Seq<(CharacterIndex, Segment)> {
    character_lit(d.characters[0]) + character_lit(d.characters[1]) + character_lit(
        d.characters[2],
    ) + character_lit(d.characters[3])
}

/// The first `n` characters of `d` light these segments.
pub open spec fn display_lit_upto(d: Display, n: int) -> Seq<(CharacterIndex, Segment)>
    decreases n,
{
    if n <= 0 {
        Seq::empty()
    } else {
        display_lit_upto(d, n - 1) + character_lit(d.characters[n - 1])
    }
}

/// Character `i` of `d` is a cell at position `i` that lights what the glyph
/// lookup `glyph` gave for `ch`.
pub open spec fn shows_glyph<G: Fn(char) -> Result<&'static [Segment], DisplayError>>(
    c: Character,
    i: int,
    ch: char,
    glyph: G,
) -> bool {
    &&& c.index.position() == i
    &&& exists|g: &'static [Segment]|
        call_ensures(glyph, (ch,), Ok(g)) && #[trigger] segment_list(c.segments) == g@
}

/// The glyph lookup `glyph` can answer `ch` with segments.
pub open spec fn glyph_answered<G: Fn(char) -> Result<&'static [Segment], DisplayError>>(
    glyph: G,
    ch: char,
) -> bool {
    exists|g: &'static [Segment]| call_ensures(glyph, (ch,), Ok(g))
}

/// The glyph lookup `glyph` never fails for `ch`.
pub open spec fn glyph_found<G: Fn(char) -> Result<&'static [Segment], DisplayError>>(
    glyph: G,
    ch: char,
) -> bool {
    forall|res: Result<&'static [Segment], DisplayError>|
        call_ensures(glyph, (ch,), res) ==> res is Ok
}

/// The glyph lookup `glyph` always fails for `ch`.
pub open spec fn glyph_missing<G: Fn(char) -> Result<&'static [Segment], DisplayError>>(
    glyph: G,
    ch: char,
) -> bool {
    forall|res: Result<&'static [Segment], DisplayError>|
        call_ensures(glyph, (ch,), res) ==> res is Err
}

proof fn lemma_render_push(lit: Seq<(CharacterIndex, Segment)>, x: (CharacterIndex, Segment))
    ensures
        render(lit.push(x)) == light(render(lit), x.0, x.1),
{
    assert(lit.push(x).drop_last() == lit);
}

impl Display {
    /// The display that shows the first four characters of `s`, with the
    /// segments of each character's glyph as `glyph` looks them up; the first
    /// glyph that cannot be found is the error.
    pub fn from_str<G: Fn(char) -> Result<&'static [Segment], DisplayError>>(s: &str, glyph: G) -> (r:
        Result<Self, DisplayError>)
        requires
            forall|ch: char| call_requires(glyph, (ch,)),
            forall|ch: char, g: &'static [Segment]|
                call_ensures(glyph, (ch,), Ok(g)) ==> g@.len() <= 14,
            s@.len() >= 4 || exists|i: int| 0 <= i < s@.len() && glyph_missing(glyph, s@[i]),
        ensures
            r matches Ok(d) ==> s@.len() >= 4 && forall|i: int|
                0 <= i < 4 ==> shows_glyph(#[trigger] d.characters[i], i, s@[i], glyph),
            r matches Err(e) ==> exists|i: int|
                0 <= i < 4 && i < s@.len() && (forall|j: int|
                    0 <= j < i ==> glyph_answered(glyph, #[trigger] s@[j])) && call_ensures(
                    glyph,
                    (s@[i],),
                    Err(e),
                ),
            s@.len() >= 4 && (forall|i: int| 0 <= i < 4 ==> glyph_found(glyph, #[trigger] s@[i]))
                ==> r is Ok,
    {
        let chars = text::chars_of(s);
        let n: usize = if chars.len() < 4 {
            chars.len()
        } else {
            4
        };
        let mut built = new_character_list();
        let mut i: usize = 0;
        while i < n
            invariant
                chars@ == s@,
                n <= 4,
                n == s@.len() || n == 4,
                n <= s@.len(),
                i <= n,
                character_list(built).len() == i,
                forall|ch: char| call_requires(glyph, (ch,)),
                forall|ch: char, g: &'static [Segment]|
                    call_ensures(glyph, (ch,), Ok(g)) ==> g@.len() <= 14,
                forall|j: int|
                    0 <= j < i ==> shows_glyph(#[trigger] character_list(built)[j], j, s@[j], glyph),
            decreases n - i,
        {
            let g = match glyph(chars[i]) {
                Ok(g) => g,
                Err(e) => {
                    proof {
                        assert forall|j: int| 0 <= j < i implies glyph_answered(
                            glyph,
                            #[trigger] s@[j],
                        ) by {
                            assert(shows_glyph(character_list(built)[j], j, s@[j], glyph));
                        }
                    }
                    return Err(e);
                },
            };
            let mut segments = new_segment_list();
            let mut k: usize = 0;
            while k < g.len()
                invariant
                    g@.len() <= 14,
                    k <= g@.len(),
                    segment_list(segments) == g@.take(k as int),
                decreases g@.len() - k,
            {
                let pushed = push_segment(&mut segments, g[k]);
                assert(pushed is Ok);
                assert(g@.take(k + 1) == g@.take(k as int).push(g@[k as int]));
                k = k + 1;
            }
            assert(g@.take(k as int) == g@);
            let index = match CharacterIndex::try_from(i) {
                Ok(c) => c,
                Err(_) => vstd::pervasive::unreached(),
            };
            let ghost before = character_list(built);
            let pushed = push_character(&mut built, Character { index, segments });
            assert(pushed is Ok);
            proof {
                assert(character_list(built)[i as int] == character_list(built).last());
                assert forall|j: int| 0 <= j < i + 1 implies shows_glyph(
                    #[trigger] character_list(built)[j],
                    j,
                    s@[j],
                    glyph,
                ) by {
                    if j < i {
                        assert(character_list(built)[j] == before[j]);
                    }
                }
            }
            i = i + 1;
        }
        if n < 4 {
            proof {
                let j = choose|j: int| 0 <= j < s@.len() && glyph_missing(glyph, s@[j]);
                let c = character_list(built)[j];
                assert(shows_glyph(c, j, s@[j], glyph));
                let g = choose|g: &'static [Segment]|
                    call_ensures(glyph, (s@[j],), Ok(g)) && #[trigger] segment_list(c.segments)
                        == g@;
                assert(call_ensures(glyph, (s@[j],), Ok(g)));
            }
            return vstd::pervasive::unreached();
        }
        let characters = match characters_into_array(built) {
            Ok(a) => a,
            Err(_) => vstd::pervasive::unreached(),
        };
        let d = Display { characters };
        assert(shows_glyph(d.characters[0], 0, s@[0], glyph));
        assert(shows_glyph(d.characters[1], 1, s@[1], glyph));
        assert(shows_glyph(d.characters[2], 2, s@[2], glyph));
        assert(shows_glyph(d.characters[3], 3, s@[3], glyph));
        Ok(d)
    }

    /// The frame that lights the segments of all four characters. Never fails.
    pub fn to_frame(&self) -> (r: Result<[u8; 17], DisplayError>)
        ensures
            r matches Ok(frame) && frame@ == render(display_lit(*self)),
    {
        let mut frame = [0u8; 17];
        let ghost mut lit: Seq<(CharacterIndex, Segment)> = Seq::empty();
        assert(frame@ == render(lit));
        let mut ci: usize = 0;
        while ci < 4
            invariant
                ci <= 4,
                lit == display_lit_upto(*self, ci as int),
                frame@ == render(lit),
            decreases 4 - ci,
        {
            let character = &self.characters[ci];
            let segments = segment_slice(&character.segments);
            let ghost start = lit;
            let mut k: usize = 0;
            while k < segments.len()
                invariant
                    k <= segments@.len(),
                    segments@ == segment_list(character.segments),
                    lit == start + character_lit(*character).take(k as int),
                    frame@ == render(lit),
                decreases segments@.len() - k,
            {
                let (index, mask) = segment_to_frame_byte(character.index, segments[k])?;
                proof {
                    lemma_render_len(lit);
                    lemma_render_push(lit, (character.index, segments@[k as int]));
                    assert(character_lit(*character).take(k + 1) == character_lit(
                        *character,
                    ).take(k as int).push((character.index, segments@[k as int])));
                    lit = lit.push((character.index, segments@[k as int]));
                }
                frame[index] = frame[index] | mask;
                k = k + 1;
            }
            assert(character_lit(*character).take(k as int) == character_lit(*character));
            ci = ci + 1;
        }
        assert(display_lit_upto(*self, 4) == display_lit(*self)) by {
            reveal_with_fuel(display_lit_upto, 5);
        }
        Ok(frame)
    }
}

} // verus!
