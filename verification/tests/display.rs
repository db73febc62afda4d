use weather_display::glyph::glyph;
use weather_display::animation::{
    build_frame_bytes, cloudy_anim, fog_anim, frame_index, lightning_anim, loading_anim,
    partially_cloudy_anim, question_marks_anim, rain_anim, snow_anim, sunshine_anim, Animation,
};
use weather_display::display::{
    segment_to_frame_byte, CharacterIndex, Display, DisplayError, Segment,
};

const ALL_SEGMENTS: [Segment; 14] = [
    Segment::TopHorizontal,
    Segment::TopLeftVertical,
    Segment::TopLeftDiagonal,
    Segment::TopMiddleVertical,
    Segment::TopRightDiagonal,
    Segment::TopRightVertical,
    Segment::MiddleLeft,
    Segment::MiddleRight,
    Segment::BottomLeftVertical,
    Segment::BottomLeftDiagonal,
    Segment::BottomMiddleVertical,
    Segment::BottomRightDiagonal,
    Segment::BottomRightVertical,
    Segment::BottomHorizontal,
];

const ALL_CHARACTERS: [CharacterIndex; 4] = [
    CharacterIndex::One,
    CharacterIndex::Two,
    CharacterIndex::Three,
    CharacterIndex::Four,
];

fn bit(c: CharacterIndex, s: Segment) -> (usize, u8) {
    match segment_to_frame_byte(c, s) {
        Ok(p) => p,
        Err(_) => panic!("segment_to_frame_byte failed"),
    }
}

#[test]
fn first_byte_index_of_each_character() {
    assert_eq!(CharacterIndex::One.first_byte_index(), 3);
    assert_eq!(CharacterIndex::Two.first_byte_index(), 5);
    assert_eq!(CharacterIndex::Three.first_byte_index(), 7);
    assert_eq!(CharacterIndex::Four.first_byte_index(), 9);
}

#[test]
fn character_index_from_position() {
    assert_eq!(CharacterIndex::try_from(0usize), Ok(CharacterIndex::One));
    assert_eq!(CharacterIndex::try_from(1usize), Ok(CharacterIndex::Two));
    assert_eq!(CharacterIndex::try_from(2usize), Ok(CharacterIndex::Three));
    assert_eq!(CharacterIndex::try_from(3usize), Ok(CharacterIndex::Four));
    assert_eq!(CharacterIndex::try_from(4usize), Err(()));
    assert_eq!(CharacterIndex::try_from(usize::MAX), Err(()));
}

#[test]
fn segment_bits_of_first_character() {
    let c = CharacterIndex::One;
    assert_eq!(bit(c, Segment::TopHorizontal), (3, 0b0001_0000));
    assert_eq!(bit(c, Segment::TopLeftVertical), (4, 0b0100_0000));
    assert_eq!(bit(c, Segment::TopLeftDiagonal), (3, 0b1000_0000));
    assert_eq!(bit(c, Segment::TopMiddleVertical), (4, 0b0010_0000));
    assert_eq!(bit(c, Segment::TopRightDiagonal), (11, 0b0001_0000));
    assert_eq!(bit(c, Segment::TopRightVertical), (3, 0b0100_0000));
    assert_eq!(bit(c, Segment::MiddleLeft), (4, 0b0000_0010));
    assert_eq!(bit(c, Segment::MiddleRight), (4, 0b0000_0001));
    assert_eq!(bit(c, Segment::BottomLeftVertical), (3, 0b0000_1000));
    assert_eq!(bit(c, Segment::BottomLeftDiagonal), (4, 0b0001_0000));
    assert_eq!(bit(c, Segment::BottomMiddleVertical), (4, 0b0000_1000));
    assert_eq!(bit(c, Segment::BottomRightDiagonal), (11, 0b0000_1000));
    assert_eq!(bit(c, Segment::BottomRightVertical), (3, 0b0010_0000));
    assert_eq!(bit(c, Segment::BottomHorizontal), (4, 0b0000_0100));
}

#[test]
fn right_diagonals_live_in_bytes_eleven_and_twelve() {
    assert_eq!(bit(CharacterIndex::Two, Segment::TopRightDiagonal), (11, 0b0100_0000));
    assert_eq!(bit(CharacterIndex::Three, Segment::TopRightDiagonal), (11, 0b0010_0000));
    assert_eq!(bit(CharacterIndex::Four, Segment::TopRightDiagonal), (12, 0b0000_0100));
    assert_eq!(bit(CharacterIndex::Two, Segment::BottomRightDiagonal), (12, 0b0100_0000));
    assert_eq!(bit(CharacterIndex::Three, Segment::BottomRightDiagonal), (12, 0b0000_0010));
    assert_eq!(bit(CharacterIndex::Four, Segment::BottomRightDiagonal), (12, 0b0000_0001));
    assert_eq!(bit(CharacterIndex::Four, Segment::BottomHorizontal), (10, 0b0000_0100));
    assert_eq!(bit(CharacterIndex::Three, Segment::TopHorizontal), (7, 0b0001_0000));
}

#[test]
fn every_segment_has_its_own_bit() {
    let mut seen: Vec<(usize, u8)> = Vec::new();
    for c in ALL_CHARACTERS {
        for s in ALL_SEGMENTS {
            let (index, mask) = bit(c, s);
            assert!((3..=12).contains(&index));
            assert_eq!(mask.count_ones(), 1);
            assert!(!seen.contains(&(index, mask)));
            seen.push((index, mask));
        }
    }
    assert_eq!(seen.len(), 56);
}

fn test_glyph(c: char) -> Result<&'static [Segment], DisplayError> {
    match c {
        '1' => Ok(&[Segment::TopRightVertical, Segment::BottomRightVertical]),
        '-' => Ok(&[Segment::MiddleLeft, Segment::MiddleRight]),
        ' ' => Ok(&[]),
        '8' => Ok(&[
            Segment::TopHorizontal,
            Segment::TopLeftVertical,
            Segment::TopRightVertical,
            Segment::MiddleLeft,
            Segment::MiddleRight,
            Segment::BottomLeftVertical,
            Segment::BottomRightVertical,
            Segment::BottomHorizontal,
        ]),
        _ => Err(DisplayError::UnknownGlyph(c)),
    }
}

#[test]
fn display_from_str_takes_the_first_four_characters() {
    let d = match Display::from_str("1- 8xyz", test_glyph) {
        Ok(d) => d,
        Err(e) => panic!("unexpected error {:?}", e),
    };
    assert_eq!(d.characters[0].index, CharacterIndex::One);
    assert_eq!(d.characters[3].index, CharacterIndex::Four);
    assert_eq!(d.characters[0].segments.len(), 2);
    assert_eq!(d.characters[1].segments.len(), 2);
    assert_eq!(d.characters[2].segments.len(), 0);
    assert_eq!(d.characters[3].segments.len(), 8);
}

#[test]
fn display_from_str_reports_the_first_unknown_glyph() {
    match Display::from_str("1?Z8", test_glyph) {
        Err(DisplayError::UnknownGlyph(c)) => assert_eq!(c, '?'),
        Ok(_) => panic!("expected an error"),
    }
    match Display::from_str("1Q", test_glyph) {
        Err(DisplayError::UnknownGlyph(c)) => assert_eq!(c, 'Q'),
        Ok(_) => panic!("expected an error"),
    }
}

#[test]
fn display_to_frame_lights_each_glyph() {
    let d = match Display::from_str("1- 8", test_glyph) {
        Ok(d) => d,
        Err(_) => panic!("unexpected error"),
    };
    let frame = match d.to_frame() {
        Ok(f) => f,
        Err(_) => panic!("to_frame failed"),
    };
    let mut expected = [0u8; 17];
    // '1' on the first character
    expected[3] |= 0b0100_0000 | 0b0010_0000;
    // '-' on the second character
    expected[6] |= 0b0000_0010 | 0b0000_0001;
    // '8' on the fourth character
    expected[9] |= 0b0001_0000 | 0b0100_0000 | 0b0000_1000 | 0b0010_0000;
    expected[10] |= 0b0100_0000 | 0b0000_0010 | 0b0000_0001 | 0b0000_0100;
    assert_eq!(frame, expected);
}

fn frame_bytes(a: &Animation, i: usize) -> [u8; 17] {
    match build_frame_bytes(a, i) {
        Ok(b) => b,
        Err(_) => panic!("build_frame_bytes failed"),
    }
}

#[test]
fn loading_animation_runs_round_the_border() {
    let a = loading_anim();
    assert_eq!(a.duration, 500);
    assert_eq!(a.frames.len(), 12);
    let mut first = [0u8; 17];
    first[3] = 0b0001_0000;
    assert_eq!(frame_bytes(&a, 0), first);
    let mut fifth = [0u8; 17];
    fifth[9] = 0b0100_0000;
    assert_eq!(frame_bytes(&a, 4), fifth);
    let mut last = [0u8; 17];
    last[4] = 0b0100_0000;
    assert_eq!(frame_bytes(&a, 11), last);
}

#[test]
fn animation_durations_and_frame_counts() {
    let cases: Vec<(Animation, u64, usize)> = vec![
        (snow_anim(false), 250, 2),
        (snow_anim(true), 150, 2),
        (rain_anim(false), 500, 6),
        (rain_anim(true), 500, 6),
        (loading_anim(), 500, 12),
        (sunshine_anim(), 750, 5),
        (lightning_anim(), 500, 9),
        (cloudy_anim(), 1500, 8),
        (partially_cloudy_anim(), 750, 5),
        (fog_anim(), 2500, 9),
        (question_marks_anim(), 1000, 8),
    ];
    for (a, duration, frames) in cases {
        assert_eq!(a.duration, duration);
        assert_eq!(a.frames.len(), frames);
        assert!(a.duration >= a.frames.len() as u64);
    }
}

#[test]
fn heavy_snow_falls_on_all_four_characters() {
    let heavy = snow_anim(true);
    let light = snow_anim(false);
    let h = frame_bytes(&heavy, 0);
    let l = frame_bytes(&light, 0);
    // light snow: first and third characters only
    assert_eq!(l[4], 0b0010_0000 | 0b0000_0010 | 0b0000_0001 | 0b0000_1000);
    assert_eq!(l[6], 0);
    assert_eq!(l[8], l[4]);
    assert_eq!(l[10], 0);
    assert_eq!(h[4], l[4]);
    assert_eq!(h[6], l[4]);
    assert_eq!(h[10], l[4]);
}

#[test]
fn empty_lightning_frames_are_dark() {
    let a = lightning_anim();
    assert_eq!(frame_bytes(&a, 7), [0u8; 17]);
    assert_eq!(frame_bytes(&a, 8), [0u8; 17]);
    let b = frame_bytes(&a, 1);
    let mut expected = [0u8; 17];
    expected[3] = 0b1000_0000;
    expected[4] = 0b0000_0001;
    assert_eq!(b, expected);
}

#[test]
fn frame_index_steps_through_the_frames() {
    let a = loading_anim();
    // 500 ms over 12 frames: a new frame every 41 ms
    assert_eq!(frame_index(&a, 0), 0);
    assert_eq!(frame_index(&a, 40), 0);
    assert_eq!(frame_index(&a, 41), 1);
    assert_eq!(frame_index(&a, 41 * 12), 0);
    assert_eq!(frame_index(&a, 41 * 13 + 5), 1);
    let c = cloudy_anim();
    assert_eq!(frame_index(&c, 187 * 3), 3);
}

#[test]
fn font_glyphs() {
    assert_eq!(glyph('1').ok(), Some(&[Segment::TopRightVertical, Segment::BottomRightVertical][..]));
    assert_eq!(glyph(' ').ok(), Some(&[][..]));
    assert_eq!(glyph('-').ok(), Some(&[Segment::MiddleLeft, Segment::MiddleRight][..]));
    assert_eq!(glyph('8').map(|g| g.len()).ok(), Some(8));
    assert!(matches!(glyph('a'), Err(DisplayError::UnknownGlyph('a'))));
    assert!(matches!(glyph('\u{b0}'), Err(DisplayError::UnknownGlyph('\u{b0}'))));
    for c in "0123456789ABCDEFGHIJKLMNOPQRSTUVWXYZ -?".chars() {
        let g = glyph(c).ok().unwrap();
        assert!(g.len() <= 14);
    }
}

#[test]
fn display_with_the_font() {
    let d = Display::from_str("RE05", glyph).ok().unwrap();
    let frame = d.to_frame().ok().unwrap();
    assert_ne!(frame, [0u8; 17]);
    assert_eq!(frame[0], 0);
    assert_eq!(frame[13], 0);
    match Display::from_str("re05", glyph) {
        Err(DisplayError::UnknownGlyph(c)) => assert_eq!(c, 'r'),
        Ok(_) => panic!("expected an error"),
    }
    // the first unknown character is the one reported
    match Display::from_str("Ab?x", glyph) {
        Err(DisplayError::UnknownGlyph(c)) => assert_eq!(c, 'b'),
        Ok(_) => panic!("expected an error"),
    }
}
