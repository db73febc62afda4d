//! Animations for the weather conditions, and the frames they are drawn from.
use vstd::prelude::*;

use crate::display::{self, render, CharacterIndex, DisplayError, Segment};

verus! {

/// One lit segment of one character.
#[derive(Clone, Copy, Debug)]
pub struct CharacterSegment {
    pub character: CharacterIndex,
    pub segment: Segment,
}

/// The segments lit in one frame of an animation.
pub struct AnimationFrame {
    pub character_segments: Vec<CharacterSegment>,
}

/// A looping animation: `frames` shown one after the other over `duration`
/// milliseconds.
pub struct Animation {
    pub duration: u64,
    pub frames: Vec<AnimationFrame>,
}

/// A lit segment as a pair of its character and segment.
pub open spec fn pair_of(cs: CharacterSegment) -> (CharacterIndex, Segment) {
    (cs.character, cs.segment)
}

/// The lit segments as pairs of character and segment.
pub open spec fn pairs_of(lit: Seq<CharacterSegment>) -> Seq<(CharacterIndex, Segment)> {
    lit.map_values(|cs: CharacterSegment| pair_of(cs))
}

/// Segments `segments` of character `c`.
pub open spec fn lit(c: CharacterIndex, segments: Seq<Segment>) -> Seq<CharacterSegment> {
    segments.map_values(|s: Segment| CharacterSegment { character: c, segment: s })
}

impl View for AnimationFrame {
    type V = Seq<CharacterSegment>;

    open spec fn view(&self) -> Seq<CharacterSegment> {
        self.character_segments@
    }
}

impl View for Animation {
    type V = (u64, Seq<Seq<CharacterSegment>>);

    open spec fn view(&self) -> (u64, Seq<Seq<CharacterSegment>>) {
        (self.duration, self.frames@.map_values(|f: AnimationFrame| f@))
    }
}

/// Appends segments `segments` of character `c` to a frame under construction.
fn add_lit(frame: &mut Vec<CharacterSegment>, c: CharacterIndex, segments: &[Segment])
    ensures
        final(frame)@ == old(frame)@ + lit(c, segments@),
{
    let ghost start = frame@;
    let mut i: usize = 0;
    while i < segments.len()
        invariant
            i <= segments@.len(),
            frame@ == start + lit(c, segments@.take(i as int)),
        decreases segments@.len() - i,
    {
        frame.push(CharacterSegment { character: c, segment: segments[i] });
        proof {
            assert(segments@.take(i + 1) == segments@.take(i as int).push(segments@[i as int]));
            assert(lit(c, segments@.take(i + 1)) == lit(c, segments@.take(i as int)).push(
                CharacterSegment { character: c, segment: segments@[i as int] },
            ));
        }
        i = i + 1;
    }
    assert(segments@.take(i as int) == segments@);
}

/// The animation can be drawn: it has frames, and each frame lasts at least one
/// millisecond.
pub open spec fn drawable(a: (u64, Seq<Seq<CharacterSegment>>)) -> bool {
    a.1.len() > 0 && a.0 >= a.1.len()
}

/// The frame of `animation` to show at `now_ms`: frames follow each other every
/// `duration / frames` milliseconds, round and round.
pub open spec fn frame_at(a: (u64, Seq<Seq<CharacterSegment>>), now_ms: u64) -> int {
    ((now_ms / (a.0 / (a.1.len() as u64))) as usize) as int % a.1.len() as int
}

/// The frame of `animation` to show at `now_ms`.
pub fn frame_index(animation: &Animation, now_ms: u64) -> (r: usize)
    requires
        drawable(animation@),
    ensures
        r == frame_at(animation@, now_ms),
        r < animation@.1.len(),
{
    let n = animation.frames.len();
    let d = animation.duration;
    let m = n as u64;
    assert(animation@.1.len() == n);
    assert(d / m >= 1) by (nonlinear_arith)
        requires
            d >= m,
            m >= 1,
    ;
    let period = d / m;
    ((now_ms / period) as usize) % n
}

/// An animation moves on by one frame every `duration / frames` milliseconds,
/// and comes back to its first frame after the last.
pub proof fn lemma_frame_advances(a: (u64, Seq<Seq<CharacterSegment>>), now_ms: u64)
    requires
        drawable(a),
        now_ms + a.0 / (a.1.len() as u64) <= u64::MAX,
        now_ms / (a.0 / (a.1.len() as u64)) + 1 <= usize::MAX,
    ensures
        frame_at(a, (now_ms + a.0 / (a.1.len() as u64)) as u64) == (frame_at(a, now_ms) + 1)
            % a.1.len() as int,
{
    let n = a.1.len() as int;
    let p = (a.0 / (a.1.len() as u64)) as int;
    let t = now_ms as int;
    assert(p >= 1) by (nonlinear_arith)
        requires
            a.0 >= n,
            n >= 1,
            p == a.0 as int / n,
    ;
    assert((t + p) / p == t / p + 1) by (nonlinear_arith)
        requires
            p >= 1,
            t >= 0,
    ;
    let q = t / p;
    assert((q + 1) % n == (q % n + 1) % n) by (nonlinear_arith)
        requires
            n >= 1,
            q >= 0,
    ;
}

/// The frame bytes of frame `frame_index` of `animation`. Never fails.
pub fn build_frame_bytes(animation: &Animation, frame_index: usize) -> (r: Result<
    [u8; 17],
    DisplayError,
>)
    requires
        frame_index < animation.frames@.len(),
    ensures
        r matches Ok(bytes) && bytes@ == render(pairs_of(animation@.1[frame_index as int])),
{
    let mut frame_bytes = [0u8; 17];
    let segments = &animation.frames[frame_index].character_segments;
    let ghost lit = pairs_of(segments@);
    assert(frame_bytes@ == render(lit.take(0)));
    let mut i: usize = 0;
    while i < segments.len()
        invariant
            i <= segments@.len(),
            lit == pairs_of(segments@),
            frame_bytes@ == render(lit.take(i as int)),
        decreases segments@.len() - i,
    {
        let character_segment = segments[i];
        let (byte_index, byte) = display::segment_to_frame_byte(
            character_segment.character,
            character_segment.segment,
        )?;
        proof {
            display::lemma_render_len(lit.take(i as int));
            assert(lit.take(i + 1).drop_last() == lit.take(i as int));
        }
        frame_bytes[byte_index] = frame_bytes[byte_index] | byte;
        i = i + 1;
    }
    assert(lit.take(i as int) == lit);
    Ok(frame_bytes)
}

/// Frames of the snow animation: heavy snow falls on all four characters, light
/// snow on the first and the third.
pub open spec fn snow_frames(heavy: bool) -> Seq<Seq<CharacterSegment>> {
    if heavy {
        seq![
            lit(CharacterIndex::One, seq![Segment::TopMiddleVertical, Segment::MiddleLeft, Segment::MiddleRight, Segment::BottomMiddleVertical])
                + lit(CharacterIndex::Two, seq![Segment::TopMiddleVertical, Segment::MiddleLeft, Segment::MiddleRight, Segment::BottomMiddleVertical])
                + lit(CharacterIndex::Three, seq![Segment::TopMiddleVertical, Segment::MiddleLeft, Segment::MiddleRight, Segment::BottomMiddleVertical])
                + lit(CharacterIndex::Four, seq![Segment::TopMiddleVertical, Segment::MiddleLeft, Segment::MiddleRight, Segment::BottomMiddleVertical]),
            lit(CharacterIndex::One, seq![Segment::TopLeftDiagonal, Segment::TopRightDiagonal, Segment::BottomLeftDiagonal, Segment::BottomRightDiagonal])
                + lit(CharacterIndex::Two, seq![Segment::TopLeftDiagonal, Segment::TopRightDiagonal, Segment::BottomLeftDiagonal, Segment::BottomRightDiagonal])
                + lit(CharacterIndex::Three, seq![Segment::TopLeftDiagonal, Segment::TopRightDiagonal, Segment::BottomLeftDiagonal, Segment::BottomRightDiagonal])
                + lit(CharacterIndex::Four, seq![Segment::TopLeftDiagonal, Segment::TopRightDiagonal, Segment::BottomLeftDiagonal, Segment::BottomRightDiagonal]),
        ]
    } else {
        seq![
            lit(CharacterIndex::One, seq![Segment::TopMiddleVertical, Segment::MiddleLeft, Segment::MiddleRight, Segment::BottomMiddleVertical])
                + lit(CharacterIndex::Three, seq![Segment::TopMiddleVertical, Segment::MiddleLeft, Segment::MiddleRight, Segment::BottomMiddleVertical]),
            lit(CharacterIndex::One, seq![Segment::TopLeftDiagonal, Segment::TopRightDiagonal, Segment::BottomLeftDiagonal, Segment::BottomRightDiagonal])
                + lit(CharacterIndex::Three, seq![Segment::TopLeftDiagonal, Segment::TopRightDiagonal, Segment::BottomLeftDiagonal, Segment::BottomRightDiagonal]),
        ]
    }
}

/// The snow animation; heavy snow is faster.
pub fn snow_anim(heavy: bool) -> (a: Animation)
    ensures
        a@ == (if heavy { 150u64 } else { 250u64 }, snow_frames(heavy)),
{
    if heavy {
        let mut frames: Vec<AnimationFrame> = Vec::new();
        let mut f: Vec<CharacterSegment> = Vec::new();
        add_lit(&mut f, CharacterIndex::One, &[Segment::TopMiddleVertical, Segment::MiddleLeft, Segment::MiddleRight, Segment::BottomMiddleVertical]);
        add_lit(&mut f, CharacterIndex::Two, &[Segment::TopMiddleVertical, Segment::MiddleLeft, Segment::MiddleRight, Segment::BottomMiddleVertical]);
        add_lit(&mut f, CharacterIndex::Three, &[Segment::TopMiddleVertical, Segment::MiddleLeft, Segment::MiddleRight, Segment::BottomMiddleVertical]);
        add_lit(&mut f, CharacterIndex::Four, &[Segment::TopMiddleVertical, Segment::MiddleLeft, Segment::MiddleRight, Segment::BottomMiddleVertical]);
        assert(f@ =~= snow_frames(heavy)[0]);
        frames.push(AnimationFrame { character_segments: f });
        let mut f: Vec<CharacterSegment> = Vec::new();
        add_lit(&mut f, CharacterIndex::One, &[Segment::TopLeftDiagonal, Segment::TopRightDiagonal, Segment::BottomLeftDiagonal, Segment::BottomRightDiagonal]);
        add_lit(&mut f, CharacterIndex::Two, &[Segment::TopLeftDiagonal, Segment::TopRightDiagonal, Segment::BottomLeftDiagonal, Segment::BottomRightDiagonal]);
        add_lit(&mut f, CharacterIndex::Three, &[Segment::TopLeftDiagonal, Segment::TopRightDiagonal, Segment::BottomLeftDiagonal, Segment::BottomRightDiagonal]);
        add_lit(&mut f, CharacterIndex::Four, &[Segment::TopLeftDiagonal, Segment::TopRightDiagonal, Segment::BottomLeftDiagonal, Segment::BottomRightDiagonal]);
        assert(f@ =~= snow_frames(heavy)[1]);
        frames.push(AnimationFrame { character_segments: f });
        let a = Animation { duration: 150, frames };
        assert(a@.1 =~= snow_frames(heavy));
        a
    } else {
        let mut frames: Vec<AnimationFrame> = Vec::new();
        let mut f: Vec<CharacterSegment> = Vec::new();
        add_lit(&mut f, CharacterIndex::One, &[Segment::TopMiddleVertical, Segment::MiddleLeft, Segment::MiddleRight, Segment::BottomMiddleVertical]);
        add_lit(&mut f, CharacterIndex::Three, &[Segment::TopMiddleVertical, Segment::MiddleLeft, Segment::MiddleRight, Segment::BottomMiddleVertical]);
        assert(f@ =~= snow_frames(heavy)[0]);
        frames.push(AnimationFrame { character_segments: f });
        let mut f: Vec<CharacterSegment> = Vec::new();
        add_lit(&mut f, CharacterIndex::One, &[Segment::TopLeftDiagonal, Segment::TopRightDiagonal, Segment::BottomLeftDiagonal, Segment::BottomRightDiagonal]);
        add_lit(&mut f, CharacterIndex::Three, &[Segment::TopLeftDiagonal, Segment::TopRightDiagonal, Segment::BottomLeftDiagonal, Segment::BottomRightDiagonal]);
        assert(f@ =~= snow_frames(heavy)[1]);
        frames.push(AnimationFrame { character_segments: f });
        let a = Animation { duration: 250, frames };
        assert(a@.1 =~= snow_frames(heavy));
        a
    }
}

/// Frames of the rain animation: drops run diagonally across the display.
pub open spec fn rain_frames() -> Seq<Seq<CharacterSegment>> {
    seq![
        lit(CharacterIndex::One, seq![Segment::TopLeftDiagonal])
            + lit(CharacterIndex::Four, seq![Segment::BottomRightDiagonal]),
        lit(CharacterIndex::One, seq![Segment::TopLeftDiagonal, Segment::BottomRightDiagonal])
            + lit(CharacterIndex::Three, seq![Segment::TopLeftDiagonal]),
        lit(CharacterIndex::One, seq![Segment::BottomRightDiagonal])
            + lit(CharacterIndex::Three, seq![Segment::TopLeftDiagonal, Segment::BottomRightDiagonal]),
        lit(CharacterIndex::Two, seq![Segment::TopLeftDiagonal])
            + lit(CharacterIndex::Three, seq![Segment::BottomRightDiagonal]),
        lit(CharacterIndex::Two, seq![Segment::TopLeftDiagonal, Segment::BottomRightDiagonal])
            + lit(CharacterIndex::Four, seq![Segment::TopLeftDiagonal]),
        lit(CharacterIndex::Two, seq![Segment::BottomRightDiagonal])
            + lit(CharacterIndex::Four, seq![Segment::TopLeftDiagonal, Segment::BottomRightDiagonal]),
    ]
}

/// The rain animation; light and heavy rain look and run the same.
pub fn rain_anim(heavy: bool) -> (a: Animation)
    ensures
        a@ == (500u64, rain_frames()),
{
    let mut frames: Vec<AnimationFrame> = Vec::new();
    let mut f: Vec<CharacterSegment> = Vec::new();
    add_lit(&mut f, CharacterIndex::One, &[Segment::TopLeftDiagonal]);
    add_lit(&mut f, CharacterIndex::Four, &[Segment::BottomRightDiagonal]);
    assert(f@ =~= rain_frames()[0]);
    frames.push(AnimationFrame { character_segments: f });
    let mut f: Vec<CharacterSegment> = Vec::new();
    add_lit(&mut f, CharacterIndex::One, &[Segment::TopLeftDiagonal, Segment::BottomRightDiagonal]);
    add_lit(&mut f, CharacterIndex::Three, &[Segment::TopLeftDiagonal]);
    assert(f@ =~= rain_frames()[1]);
    frames.push(AnimationFrame { character_segments: f });
    let mut f: Vec<CharacterSegment> = Vec::new();
    add_lit(&mut f, CharacterIndex::One, &[Segment::BottomRightDiagonal]);
    add_lit(&mut f, CharacterIndex::Three, &[Segment::TopLeftDiagonal, Segment::BottomRightDiagonal]);
    assert(f@ =~= rain_frames()[2]);
    frames.push(AnimationFrame { character_segments: f });
    let mut f: Vec<CharacterSegment> = Vec::new();
    add_lit(&mut f, CharacterIndex::Two, &[Segment::TopLeftDiagonal]);
    add_lit(&mut f, CharacterIndex::Three, &[Segment::BottomRightDiagonal]);
    assert(f@ =~= rain_frames()[3]);
    frames.push(AnimationFrame { character_segments: f });
    let mut f: Vec<CharacterSegment> = Vec::new();
    add_lit(&mut f, CharacterIndex::Two, &[Segment::TopLeftDiagonal, Segment::BottomRightDiagonal]);
    add_lit(&mut f, CharacterIndex::Four, &[Segment::TopLeftDiagonal]);
    assert(f@ =~= rain_frames()[4]);
    frames.push(AnimationFrame { character_segments: f });
    let mut f: Vec<CharacterSegment> = Vec::new();
    add_lit(&mut f, CharacterIndex::Two, &[Segment::BottomRightDiagonal]);
    add_lit(&mut f, CharacterIndex::Four, &[Segment::TopLeftDiagonal, Segment::BottomRightDiagonal]);
    assert(f@ =~= rain_frames()[5]);
    frames.push(AnimationFrame { character_segments: f });
    let a = Animation {
        duration: if heavy {
            500
        } else {
            500
        },
        frames,
    };
    assert(a@.1 =~= rain_frames());
    a
}

/// Frames of the loading animation: one segment runs around the display's border.
pub open spec fn loading_frames() -> Seq<Seq<CharacterSegment>> {
    seq![
        lit(CharacterIndex::One, seq![Segment::TopHorizontal]),
        lit(CharacterIndex::Two, seq![Segment::TopHorizontal]),
        lit(CharacterIndex::Three, seq![Segment::TopHorizontal]),
        lit(CharacterIndex::Four, seq![Segment::TopHorizontal]),
        lit(CharacterIndex::Four, seq![Segment::TopRightVertical]),
        lit(CharacterIndex::Four, seq![Segment::BottomRightVertical]),
        lit(CharacterIndex::Four, seq![Segment::BottomHorizontal]),
        lit(CharacterIndex::Three, seq![Segment::BottomHorizontal]),
        lit(CharacterIndex::Two, seq![Segment::BottomHorizontal]),
        lit(CharacterIndex::One, seq![Segment::BottomHorizontal]),
        lit(CharacterIndex::One, seq![Segment::BottomLeftVertical]),
        lit(CharacterIndex::One, seq![Segment::TopLeftVertical]),
    ]
}

/// The animation shown while no weather has been fetched yet.
pub fn loading_anim() -> (a: Animation)
    ensures
        a@ == (500u64, loading_frames()),
{
    let mut frames: Vec<AnimationFrame> = Vec::new();
    let mut f: Vec<CharacterSegment> = Vec::new();
    add_lit(&mut f, CharacterIndex::One, &[Segment::TopHorizontal]);
    assert(f@ =~= loading_frames()[0]);
    frames.push(AnimationFrame { character_segments: f });
    let mut f: Vec<CharacterSegment> = Vec::new();
    add_lit(&mut f, CharacterIndex::Two, &[Segment::TopHorizontal]);
    assert(f@ =~= loading_frames()[1]);
    frames.push(AnimationFrame { character_segments: f });
    let mut f: Vec<CharacterSegment> = Vec::new();
    add_lit(&mut f, CharacterIndex::Three, &[Segment::TopHorizontal]);
    assert(f@ =~= loading_frames()[2]);
    frames.push(AnimationFrame { character_segments: f });
    let mut f: Vec<CharacterSegment> = Vec::new();
    add_lit(&mut f, CharacterIndex::Four, &[Segment::TopHorizontal]);
    assert(f@ =~= loading_frames()[3]);
    frames.push(AnimationFrame { character_segments: f });
    let mut f: Vec<CharacterSegment> = Vec::new();
    add_lit(&mut f, CharacterIndex::Four, &[Segment::TopRightVertical]);
    assert(f@ =~= loading_frames()[4]);
    frames.push(AnimationFrame { character_segments: f });
    let mut f: Vec<CharacterSegment> = Vec::new();
    add_lit(&mut f, CharacterIndex::Four, &[Segment::BottomRightVertical]);
    assert(f@ =~= loading_frames()[5]);
    frames.push(AnimationFrame { character_segments: f });
    let mut f: Vec<CharacterSegment> = Vec::new();
    add_lit(&mut f, CharacterIndex::Four, &[Segment::BottomHorizontal]);
    assert(f@ =~= loading_frames()[6]);
    frames.push(AnimationFrame { character_segments: f });
    let mut f: Vec<CharacterSegment> = Vec::new();
    add_lit(&mut f, CharacterIndex::Three, &[Segment::BottomHorizontal]);
    assert(f@ =~= loading_frames()[7]);
    frames.push(AnimationFrame { character_segments: f });
    let mut f: Vec<CharacterSegment> = Vec::new();
    add_lit(&mut f, CharacterIndex::Two, &[Segment::BottomHorizontal]);
    assert(f@ =~= loading_frames()[8]);
    frames.push(AnimationFrame { character_segments: f });
    let mut f: Vec<CharacterSegment> = Vec::new();
    add_lit(&mut f, CharacterIndex::One, &[Segment::BottomHorizontal]);
    assert(f@ =~= loading_frames()[9]);
    frames.push(AnimationFrame { character_segments: f });
    let mut f: Vec<CharacterSegment> = Vec::new();
    add_lit(&mut f, CharacterIndex::One, &[Segment::BottomLeftVertical]);
    assert(f@ =~= loading_frames()[10]);
    frames.push(AnimationFrame { character_segments: f });
    let mut f: Vec<CharacterSegment> = Vec::new();
    add_lit(&mut f, CharacterIndex::One, &[Segment::TopLeftVertical]);
    assert(f@ =~= loading_frames()[11]);
    frames.push(AnimationFrame { character_segments: f });
    let a = Animation { duration: 500, frames };
    assert(a@.1 =~= loading_frames());
    a
}

/// Frames of the sunshine animation: a sun whose ray sweeps out.
pub open spec fn sunshine_frames() -> Seq<Seq<CharacterSegment>> {
    seq![
        lit(CharacterIndex::One, seq![Segment::TopHorizontal, Segment::TopLeftVertical, Segment::TopMiddleVertical, Segment::TopLeftDiagonal, Segment::TopRightDiagonal, Segment::MiddleLeft]),
        lit(CharacterIndex::One, seq![Segment::TopHorizontal, Segment::TopLeftVertical, Segment::TopMiddleVertical, Segment::TopLeftDiagonal, Segment::TopRightDiagonal, Segment::MiddleLeft])
            + lit(CharacterIndex::Two, seq![Segment::TopHorizontal]),
        lit(CharacterIndex::One, seq![Segment::TopHorizontal, Segment::TopLeftVertical, Segment::TopMiddleVertical, Segment::TopLeftDiagonal, Segment::TopRightDiagonal, Segment::MiddleLeft])
            + lit(CharacterIndex::Two, seq![Segment::MiddleLeft]),
        lit(CharacterIndex::One, seq![Segment::TopHorizontal, Segment::TopLeftVertical, Segment::TopMiddleVertical, Segment::TopLeftDiagonal, Segment::TopRightDiagonal, Segment::MiddleLeft, Segment::BottomRightDiagonal]),
        lit(CharacterIndex::One, seq![Segment::TopHorizontal, Segment::TopLeftVertical, Segment::TopMiddleVertical, Segment::TopLeftDiagonal, Segment::TopRightDiagonal, Segment::MiddleLeft, Segment::BottomLeftVertical]),
    ]
}

/// The animation for sunny weather.
pub fn sunshine_anim() -> (a: Animation)
    ensures
        a@ == (750u64, sunshine_frames()),
{
    let mut frames: Vec<AnimationFrame> = Vec::new();
    let mut f: Vec<CharacterSegment> = Vec::new();
    add_lit(&mut f, CharacterIndex::One, &[Segment::TopHorizontal, Segment::TopLeftVertical, Segment::TopMiddleVertical, Segment::TopLeftDiagonal, Segment::TopRightDiagonal, Segment::MiddleLeft]);
    assert(f@ =~= sunshine_frames()[0]);
    frames.push(AnimationFrame { character_segments: f });
    let mut f: Vec<CharacterSegment> = Vec::new();
    add_lit(&mut f, CharacterIndex::One, &[Segment::TopHorizontal, Segment::TopLeftVertical, Segment::TopMiddleVertical, Segment::TopLeftDiagonal, Segment::TopRightDiagonal, Segment::MiddleLeft]);
    add_lit(&mut f, CharacterIndex::Two, &[Segment::TopHorizontal]);
    assert(f@ =~= sunshine_frames()[1]);
    frames.push(AnimationFrame { character_segments: f });
    let mut f: Vec<CharacterSegment> = Vec::new();
    add_lit(&mut f, CharacterIndex::One, &[Segment::TopHorizontal, Segment::TopLeftVertical, Segment::TopMiddleVertical, Segment::TopLeftDiagonal, Segment::TopRightDiagonal, Segment::MiddleLeft]);
    add_lit(&mut f, CharacterIndex::Two, &[Segment::MiddleLeft]);
    assert(f@ =~= sunshine_frames()[2]);
    frames.push(AnimationFrame { character_segments: f });
    let mut f: Vec<CharacterSegment> = Vec::new();
    add_lit(&mut f, CharacterIndex::One, &[Segment::TopHorizontal, Segment::TopLeftVertical, Segment::TopMiddleVertical, Segment::TopLeftDiagonal, Segment::TopRightDiagonal, Segment::MiddleLeft, Segment::BottomRightDiagonal]);
    assert(f@ =~= sunshine_frames()[3]);
    frames.push(AnimationFrame { character_segments: f });
    let mut f: Vec<CharacterSegment> = Vec::new();
    add_lit(&mut f, CharacterIndex::One, &[Segment::TopHorizontal, Segment::TopLeftVertical, Segment::TopMiddleVertical, Segment::TopLeftDiagonal, Segment::TopRightDiagonal, Segment::MiddleLeft, Segment::BottomLeftVertical]);
    assert(f@ =~= sunshine_frames()[4]);
    frames.push(AnimationFrame { character_segments: f });
    let a = Animation { duration: 750, frames };
    assert(a@.1 =~= sunshine_frames());
    a
}

/// Frames of the lightning animation: a bolt drawn stroke by stroke, then darkness.
pub open spec fn lightning_frames() -> Seq<Seq<CharacterSegment>> {
    seq![
        lit(CharacterIndex::One, seq![Segment::TopLeftDiagonal]),
        lit(CharacterIndex::One, seq![Segment::TopLeftDiagonal, Segment::MiddleRight]),
        lit(CharacterIndex::One, seq![Segment::TopLeftDiagonal, Segment::MiddleRight])
            + lit(CharacterIndex::Two, seq![Segment::MiddleLeft]),
        lit(CharacterIndex::One, seq![Segment::TopLeftDiagonal, Segment::MiddleRight])
            + lit(CharacterIndex::Two, seq![Segment::MiddleLeft, Segment::BottomRightDiagonal]),
        lit(CharacterIndex::One, seq![Segment::TopLeftDiagonal, Segment::MiddleRight])
            + lit(CharacterIndex::Two, seq![Segment::MiddleLeft, Segment::BottomRightDiagonal, Segment::BottomRightVertical, Segment::BottomHorizontal]),
        lit(CharacterIndex::One, seq![Segment::TopLeftDiagonal, Segment::MiddleRight])
            + lit(CharacterIndex::Two, seq![Segment::MiddleLeft, Segment::BottomRightDiagonal, Segment::BottomRightVertical, Segment::BottomHorizontal]),
        lit(CharacterIndex::Two, seq![Segment::MiddleLeft, Segment::BottomRightDiagonal, Segment::BottomRightVertical, Segment::BottomHorizontal]),
        Seq::<CharacterSegment>::empty(),
        Seq::<CharacterSegment>::empty(),
    ]
}

/// The animation for thundery weather.
pub fn lightning_anim() -> (a: Animation)
    ensures
        a@ == (500u64, lightning_frames()),
{
    let mut frames: Vec<AnimationFrame> = Vec::new();
    let mut f: Vec<CharacterSegment> = Vec::new();
    add_lit(&mut f, CharacterIndex::One, &[Segment::TopLeftDiagonal]);
    assert(f@ =~= lightning_frames()[0]);
    frames.push(AnimationFrame { character_segments: f });
    let mut f: Vec<CharacterSegment> = Vec::new();
    add_lit(&mut f, CharacterIndex::One, &[Segment::TopLeftDiagonal, Segment::MiddleRight]);
    assert(f@ =~= lightning_frames()[1]);
    frames.push(AnimationFrame { character_segments: f });
    let mut f: Vec<CharacterSegment> = Vec::new();
    add_lit(&mut f, CharacterIndex::One, &[Segment::TopLeftDiagonal, Segment::MiddleRight]);
    add_lit(&mut f, CharacterIndex::Two, &[Segment::MiddleLeft]);
    assert(f@ =~= lightning_frames()[2]);
    frames.push(AnimationFrame { character_segments: f });
    let mut f: Vec<CharacterSegment> = Vec::new();
    add_lit(&mut f, CharacterIndex::One, &[Segment::TopLeftDiagonal, Segment::MiddleRight]);
    add_lit(&mut f, CharacterIndex::Two, &[Segment::MiddleLeft, Segment::BottomRightDiagonal]);
    assert(f@ =~= lightning_frames()[3]);
    frames.push(AnimationFrame { character_segments: f });
    let mut f: Vec<CharacterSegment> = Vec::new();
    add_lit(&mut f, CharacterIndex::One, &[Segment::TopLeftDiagonal, Segment::MiddleRight]);
    add_lit(&mut f, CharacterIndex::Two, &[Segment::MiddleLeft, Segment::BottomRightDiagonal, Segment::BottomRightVertical, Segment::BottomHorizontal]);
    assert(f@ =~= lightning_frames()[4]);
    frames.push(AnimationFrame { character_segments: f });
    let mut f: Vec<CharacterSegment> = Vec::new();
    add_lit(&mut f, CharacterIndex::One, &[Segment::TopLeftDiagonal, Segment::MiddleRight]);
    add_lit(&mut f, CharacterIndex::Two, &[Segment::MiddleLeft, Segment::BottomRightDiagonal, Segment::BottomRightVertical, Segment::BottomHorizontal]);
    assert(f@ =~= lightning_frames()[5]);
    frames.push(AnimationFrame { character_segments: f });
    let mut f: Vec<CharacterSegment> = Vec::new();
    add_lit(&mut f, CharacterIndex::Two, &[Segment::MiddleLeft, Segment::BottomRightDiagonal, Segment::BottomRightVertical, Segment::BottomHorizontal]);
    assert(f@ =~= lightning_frames()[6]);
    frames.push(AnimationFrame { character_segments: f });
    let mut f: Vec<CharacterSegment> = Vec::new();
    assert(f@ =~= lightning_frames()[7]);
    frames.push(AnimationFrame { character_segments: f });
    let mut f: Vec<CharacterSegment> = Vec::new();
    assert(f@ =~= lightning_frames()[8]);
    frames.push(AnimationFrame { character_segments: f });
    let a = Animation { duration: 500, frames };
    assert(a@.1 =~= lightning_frames());
    a
}

/// Frames of the cloudy animation: a cloud drifting across the display.
pub open spec fn cloudy_frames() -> Seq<Seq<CharacterSegment>> {
    seq![
        lit(CharacterIndex::One, seq![Segment::BottomLeftDiagonal, Segment::MiddleRight, Segment::BottomHorizontal])
            + lit(CharacterIndex::Two, seq![Segment::MiddleLeft, Segment::TopRightDiagonal, Segment::BottomRightDiagonal, Segment::BottomHorizontal])
            + lit(CharacterIndex::Three, seq![Segment::TopHorizontal, Segment::BottomHorizontal])
            + lit(CharacterIndex::Four, seq![Segment::TopLeftDiagonal, Segment::BottomRightDiagonal, Segment::BottomHorizontal]),
        lit(CharacterIndex::Two, seq![Segment::BottomLeftDiagonal, Segment::MiddleRight, Segment::BottomHorizontal])
            + lit(CharacterIndex::Three, seq![Segment::MiddleLeft, Segment::TopRightDiagonal, Segment::BottomRightDiagonal, Segment::BottomHorizontal])
            + lit(CharacterIndex::Four, seq![Segment::TopHorizontal, Segment::BottomHorizontal]),
        lit(CharacterIndex::Three, seq![Segment::BottomLeftDiagonal, Segment::MiddleRight, Segment::BottomHorizontal])
            + lit(CharacterIndex::Four, seq![Segment::MiddleLeft, Segment::TopRightDiagonal, Segment::BottomRightDiagonal, Segment::BottomHorizontal]),
        lit(CharacterIndex::Four, seq![Segment::BottomLeftDiagonal, Segment::MiddleRight, Segment::BottomHorizontal]),
        Seq::<CharacterSegment>::empty(),
        lit(CharacterIndex::One, seq![Segment::TopLeftDiagonal, Segment::BottomRightDiagonal, Segment::BottomHorizontal]),
        lit(CharacterIndex::One, seq![Segment::TopHorizontal, Segment::BottomHorizontal])
            + lit(CharacterIndex::Two, seq![Segment::TopLeftDiagonal, Segment::BottomRightDiagonal, Segment::BottomHorizontal]),
        lit(CharacterIndex::One, seq![Segment::MiddleLeft, Segment::TopRightDiagonal, Segment::BottomRightDiagonal, Segment::BottomHorizontal])
            + lit(CharacterIndex::Two, seq![Segment::TopHorizontal, Segment::BottomHorizontal])
            + lit(CharacterIndex::Three, seq![Segment::TopLeftDiagonal, Segment::BottomRightDiagonal, Segment::BottomHorizontal]),
    ]
}

/// The animation for cloudy weather.
pub fn cloudy_anim() -> (a: Animation)
    ensures
        a@ == (1500u64, cloudy_frames()),
{
    let mut frames: Vec<AnimationFrame> = Vec::new();
    let mut f: Vec<CharacterSegment> = Vec::new();
    add_lit(&mut f, CharacterIndex::One, &[Segment::BottomLeftDiagonal, Segment::MiddleRight, Segment::BottomHorizontal]);
    add_lit(&mut f, CharacterIndex::Two, &[Segment::MiddleLeft, Segment::TopRightDiagonal, Segment::BottomRightDiagonal, Segment::BottomHorizontal]);
    add_lit(&mut f, CharacterIndex::Three, &[Segment::TopHorizontal, Segment::BottomHorizontal]);
    add_lit(&mut f, CharacterIndex::Four, &[Segment::TopLeftDiagonal, Segment::BottomRightDiagonal, Segment::BottomHorizontal]);
    assert(f@ =~= cloudy_frames()[0]);
    frames.push(AnimationFrame { character_segments: f });
    let mut f: Vec<CharacterSegment> = Vec::new();
    add_lit(&mut f, CharacterIndex::Two, &[Segment::BottomLeftDiagonal, Segment::MiddleRight, Segment::BottomHorizontal]);
    add_lit(&mut f, CharacterIndex::Three, &[Segment::MiddleLeft, Segment::TopRightDiagonal, Segment::BottomRightDiagonal, Segment::BottomHorizontal]);
    add_lit(&mut f, CharacterIndex::Four, &[Segment::TopHorizontal, Segment::BottomHorizontal]);
    assert(f@ =~= cloudy_frames()[1]);
    frames.push(AnimationFrame { character_segments: f });
    let mut f: Vec<CharacterSegment> = Vec::new();
    add_lit(&mut f, CharacterIndex::Three, &[Segment::BottomLeftDiagonal, Segment::MiddleRight, Segment::BottomHorizontal]);
    add_lit(&mut f, CharacterIndex::Four, &[Segment::MiddleLeft, Segment::TopRightDiagonal, Segment::BottomRightDiagonal, Segment::BottomHorizontal]);
    assert(f@ =~= cloudy_frames()[2]);
    frames.push(AnimationFrame { character_segments: f });
    let mut f: Vec<CharacterSegment> = Vec::new();
    add_lit(&mut f, CharacterIndex::Four, &[Segment::BottomLeftDiagonal, Segment::MiddleRight, Segment::BottomHorizontal]);
    assert(f@ =~= cloudy_frames()[3]);
    frames.push(AnimationFrame { character_segments: f });
    let mut f: Vec<CharacterSegment> = Vec::new();
    assert(f@ =~= cloudy_frames()[4]);
    frames.push(AnimationFrame { character_segments: f });
    let mut f: Vec<CharacterSegment> = Vec::new();
    add_lit(&mut f, CharacterIndex::One, &[Segment::TopLeftDiagonal, Segment::BottomRightDiagonal, Segment::BottomHorizontal]);
    assert(f@ =~= cloudy_frames()[5]);
    frames.push(AnimationFrame { character_segments: f });
    let mut f: Vec<CharacterSegment> = Vec::new();
    add_lit(&mut f, CharacterIndex::One, &[Segment::TopHorizontal, Segment::BottomHorizontal]);
    add_lit(&mut f, CharacterIndex::Two, &[Segment::TopLeftDiagonal, Segment::BottomRightDiagonal, Segment::BottomHorizontal]);
    assert(f@ =~= cloudy_frames()[6]);
    frames.push(AnimationFrame { character_segments: f });
    let mut f: Vec<CharacterSegment> = Vec::new();
    add_lit(&mut f, CharacterIndex::One, &[Segment::MiddleLeft, Segment::TopRightDiagonal, Segment::BottomRightDiagonal, Segment::BottomHorizontal]);
    add_lit(&mut f, CharacterIndex::Two, &[Segment::TopHorizontal, Segment::BottomHorizontal]);
    add_lit(&mut f, CharacterIndex::Three, &[Segment::TopLeftDiagonal, Segment::BottomRightDiagonal, Segment::BottomHorizontal]);
    assert(f@ =~= cloudy_frames()[7]);
    frames.push(AnimationFrame { character_segments: f });
    let a = Animation { duration: 1500, frames };
    assert(a@.1 =~= cloudy_frames());
    a
}

/// Frames of the partly cloudy animation: a sun beside a cloud.
pub open spec fn partially_cloudy_frames() -> Seq<Seq<CharacterSegment>> {
    seq![
        lit(CharacterIndex::One, seq![Segment::TopHorizontal, Segment::TopLeftVertical, Segment::TopMiddleVertical, Segment::TopLeftDiagonal, Segment::TopRightDiagonal, Segment::MiddleLeft])
            + lit(CharacterIndex::Three, seq![Segment::BottomLeftDiagonal, Segment::MiddleRight, Segment::BottomHorizontal])
            + lit(CharacterIndex::Four, seq![Segment::MiddleLeft, Segment::BottomRightDiagonal, Segment::BottomHorizontal]),
        lit(CharacterIndex::One, seq![Segment::TopHorizontal, Segment::TopLeftVertical, Segment::TopMiddleVertical, Segment::TopLeftDiagonal, Segment::TopRightDiagonal, Segment::MiddleLeft])
            + lit(CharacterIndex::Two, seq![Segment::TopHorizontal])
            + lit(CharacterIndex::Three, seq![Segment::BottomLeftDiagonal, Segment::MiddleRight, Segment::BottomHorizontal])
            + lit(CharacterIndex::Four, seq![Segment::MiddleLeft, Segment::BottomRightDiagonal, Segment::BottomHorizontal]),
        lit(CharacterIndex::One, seq![Segment::TopHorizontal, Segment::TopLeftVertical, Segment::TopMiddleVertical, Segment::TopLeftDiagonal, Segment::TopRightDiagonal, Segment::MiddleLeft])
            + lit(CharacterIndex::Two, seq![Segment::MiddleLeft])
            + lit(CharacterIndex::Three, seq![Segment::BottomLeftDiagonal, Segment::MiddleRight, Segment::BottomHorizontal])
            + lit(CharacterIndex::Four, seq![Segment::MiddleLeft, Segment::BottomRightDiagonal, Segment::BottomHorizontal]),
        lit(CharacterIndex::One, seq![Segment::TopHorizontal, Segment::TopLeftVertical, Segment::TopMiddleVertical, Segment::TopLeftDiagonal, Segment::TopRightDiagonal, Segment::MiddleLeft, Segment::BottomRightDiagonal])
            + lit(CharacterIndex::Three, seq![Segment::BottomLeftDiagonal, Segment::MiddleRight, Segment::BottomHorizontal])
            + lit(CharacterIndex::Four, seq![Segment::MiddleLeft, Segment::BottomRightDiagonal, Segment::BottomHorizontal]),
        lit(CharacterIndex::One, seq![Segment::TopHorizontal, Segment::TopLeftVertical, Segment::TopMiddleVertical, Segment::TopLeftDiagonal, Segment::TopRightDiagonal, Segment::MiddleLeft, Segment::BottomLeftVertical])
            + lit(CharacterIndex::Three, seq![Segment::BottomLeftDiagonal, Segment::MiddleRight, Segment::BottomHorizontal])
            + lit(CharacterIndex::Four, seq![Segment::MiddleLeft, Segment::BottomRightDiagonal, Segment::BottomHorizontal]),
    ]
}

/// The animation for partly cloudy weather.
pub fn partially_cloudy_anim() -> (a: Animation)
    ensures
        a@ == (750u64, partially_cloudy_frames()),
{
    let mut frames: Vec<AnimationFrame> = Vec::new();
    let mut f: Vec<CharacterSegment> = Vec::new();
    add_lit(&mut f, CharacterIndex::One, &[Segment::TopHorizontal, Segment::TopLeftVertical, Segment::TopMiddleVertical, Segment::TopLeftDiagonal, Segment::TopRightDiagonal, Segment::MiddleLeft]);
    add_lit(&mut f, CharacterIndex::Three, &[Segment::BottomLeftDiagonal, Segment::MiddleRight, Segment::BottomHorizontal]);
    add_lit(&mut f, CharacterIndex::Four, &[Segment::MiddleLeft, Segment::BottomRightDiagonal, Segment::BottomHorizontal]);
    assert(f@ =~= partially_cloudy_frames()[0]);
    frames.push(AnimationFrame { character_segments: f });
    let mut f: Vec<CharacterSegment> = Vec::new();
    add_lit(&mut f, CharacterIndex::One, &[Segment::TopHorizontal, Segment::TopLeftVertical, Segment::TopMiddleVertical, Segment::TopLeftDiagonal, Segment::TopRightDiagonal, Segment::MiddleLeft]);
    add_lit(&mut f, CharacterIndex::Two, &[Segment::TopHorizontal]);
    add_lit(&mut f, CharacterIndex::Three, &[Segment::BottomLeftDiagonal, Segment::MiddleRight, Segment::BottomHorizontal]);
    add_lit(&mut f, CharacterIndex::Four, &[Segment::MiddleLeft, Segment::BottomRightDiagonal, Segment::BottomHorizontal]);
    assert(f@ =~= partially_cloudy_frames()[1]);
    frames.push(AnimationFrame { character_segments: f });
    let mut f: Vec<CharacterSegment> = Vec::new();
    add_lit(&mut f, CharacterIndex::One, &[Segment::TopHorizontal, Segment::TopLeftVertical, Segment::TopMiddleVertical, Segment::TopLeftDiagonal, Segment::TopRightDiagonal, Segment::MiddleLeft]);
    add_lit(&mut f, CharacterIndex::Two, &[Segment::MiddleLeft]);
    add_lit(&mut f, CharacterIndex::Three, &[Segment::BottomLeftDiagonal, Segment::MiddleRight, Segment::BottomHorizontal]);
    add_lit(&mut f, CharacterIndex::Four, &[Segment::MiddleLeft, Segment::BottomRightDiagonal, Segment::BottomHorizontal]);
    assert(f@ =~= partially_cloudy_frames()[2]);
    frames.push(AnimationFrame { character_segments: f });
    let mut f: Vec<CharacterSegment> = Vec::new();
    add_lit(&mut f, CharacterIndex::One, &[Segment::TopHorizontal, Segment::TopLeftVertical, Segment::TopMiddleVertical, Segment::TopLeftDiagonal, Segment::TopRightDiagonal, Segment::MiddleLeft, Segment::BottomRightDiagonal]);
    add_lit(&mut f, CharacterIndex::Three, &[Segment::BottomLeftDiagonal, Segment::MiddleRight, Segment::BottomHorizontal]);
    add_lit(&mut f, CharacterIndex::Four, &[Segment::MiddleLeft, Segment::BottomRightDiagonal, Segment::BottomHorizontal]);
    assert(f@ =~= partially_cloudy_frames()[3]);
    frames.push(AnimationFrame { character_segments: f });
    let mut f: Vec<CharacterSegment> = Vec::new();
    add_lit(&mut f, CharacterIndex::One, &[Segment::TopHorizontal, Segment::TopLeftVertical, Segment::TopMiddleVertical, Segment::TopLeftDiagonal, Segment::TopRightDiagonal, Segment::MiddleLeft, Segment::BottomLeftVertical]);
    add_lit(&mut f, CharacterIndex::Three, &[Segment::BottomLeftDiagonal, Segment::MiddleRight, Segment::BottomHorizontal]);
    add_lit(&mut f, CharacterIndex::Four, &[Segment::MiddleLeft, Segment::BottomRightDiagonal, Segment::BottomHorizontal]);
    assert(f@ =~= partially_cloudy_frames()[4]);
    frames.push(AnimationFrame { character_segments: f });
    let a = Animation { duration: 750, frames };
    assert(a@.1 =~= partially_cloudy_frames());
    a
}

/// Frames of the fog animation: layers of fog thickening and thinning.
pub open spec fn fog_frames() -> Seq<Seq<CharacterSegment>> {
    seq![
        lit(CharacterIndex::One, seq![Segment::TopHorizontal])
            + lit(CharacterIndex::Three, seq![Segment::BottomLeftDiagonal, Segment::MiddleRight, Segment::BottomHorizontal])
            + lit(CharacterIndex::Four, seq![Segment::MiddleLeft, Segment::BottomRightDiagonal, Segment::BottomHorizontal]),
        lit(CharacterIndex::One, seq![Segment::TopHorizontal])
            + lit(CharacterIndex::Two, seq![Segment::TopHorizontal])
            + lit(CharacterIndex::Three, seq![Segment::BottomLeftDiagonal, Segment::MiddleRight, Segment::BottomHorizontal])
            + lit(CharacterIndex::Four, seq![Segment::MiddleLeft, Segment::BottomRightDiagonal, Segment::BottomHorizontal, Segment::MiddleRight]),
        lit(CharacterIndex::One, seq![Segment::TopHorizontal, Segment::BottomHorizontal])
            + lit(CharacterIndex::Two, seq![Segment::TopHorizontal])
            + lit(CharacterIndex::Three, seq![Segment::BottomLeftDiagonal, Segment::MiddleRight, Segment::BottomHorizontal, Segment::TopHorizontal, Segment::MiddleLeft])
            + lit(CharacterIndex::Four, seq![Segment::MiddleLeft, Segment::BottomRightDiagonal, Segment::BottomHorizontal, Segment::MiddleRight]),
        lit(CharacterIndex::One, seq![Segment::BottomHorizontal])
            + lit(CharacterIndex::Two, seq![Segment::TopHorizontal, Segment::BottomHorizontal, Segment::MiddleLeft, Segment::MiddleRight])
            + lit(CharacterIndex::Three, seq![Segment::BottomLeftDiagonal, Segment::MiddleRight, Segment::BottomHorizontal, Segment::TopHorizontal, Segment::MiddleLeft])
            + lit(CharacterIndex::Four, seq![Segment::MiddleLeft, Segment::BottomRightDiagonal, Segment::BottomHorizontal, Segment::TopHorizontal, Segment::MiddleRight]),
        lit(CharacterIndex::One, seq![Segment::BottomHorizontal, Segment::MiddleLeft, Segment::MiddleRight])
            + lit(CharacterIndex::Two, seq![Segment::BottomHorizontal, Segment::MiddleLeft, Segment::MiddleRight])
            + lit(CharacterIndex::Three, seq![Segment::BottomLeftDiagonal, Segment::MiddleRight, Segment::BottomHorizontal, Segment::TopHorizontal, Segment::MiddleLeft])
            + lit(CharacterIndex::Four, seq![Segment::MiddleLeft, Segment::BottomRightDiagonal, Segment::BottomHorizontal, Segment::TopHorizontal]),
        lit(CharacterIndex::One, seq![Segment::MiddleLeft, Segment::MiddleRight])
            + lit(CharacterIndex::Two, seq![Segment::BottomHorizontal, Segment::MiddleLeft, Segment::MiddleRight])
            + lit(CharacterIndex::Three, seq![Segment::BottomLeftDiagonal, Segment::MiddleRight, Segment::BottomHorizontal])
            + lit(CharacterIndex::Four, seq![Segment::MiddleLeft, Segment::BottomRightDiagonal, Segment::BottomHorizontal, Segment::TopHorizontal]),
        lit(CharacterIndex::One, seq![Segment::MiddleLeft, Segment::MiddleRight])
            + lit(CharacterIndex::Three, seq![Segment::BottomLeftDiagonal, Segment::MiddleRight, Segment::BottomHorizontal])
            + lit(CharacterIndex::Four, seq![Segment::MiddleLeft, Segment::BottomRightDiagonal, Segment::BottomHorizontal]),
        lit(CharacterIndex::Three, seq![Segment::BottomLeftDiagonal, Segment::MiddleRight, Segment::BottomHorizontal])
            + lit(CharacterIndex::Four, seq![Segment::MiddleLeft, Segment::BottomRightDiagonal, Segment::BottomHorizontal]),
        lit(CharacterIndex::Three, seq![Segment::BottomLeftDiagonal, Segment::MiddleRight, Segment::BottomHorizontal])
            + lit(CharacterIndex::Four, seq![Segment::MiddleLeft, Segment::BottomRightDiagonal, Segment::BottomHorizontal]),
    ]
}

/// The animation for fog.
pub fn fog_anim() -> (a: Animation)
    ensures
        a@ == (2500u64, fog_frames()),
{
    let mut frames: Vec<AnimationFrame> = Vec::new();
    let mut f: Vec<CharacterSegment> = Vec::new();
    add_lit(&mut f, CharacterIndex::One, &[Segment::TopHorizontal]);
    add_lit(&mut f, CharacterIndex::Three, &[Segment::BottomLeftDiagonal, Segment::MiddleRight, Segment::BottomHorizontal]);
    add_lit(&mut f, CharacterIndex::Four, &[Segment::MiddleLeft, Segment::BottomRightDiagonal, Segment::BottomHorizontal]);
    assert(f@ =~= fog_frames()[0]);
    frames.push(AnimationFrame { character_segments: f });
    let mut f: Vec<CharacterSegment> = Vec::new();
    add_lit(&mut f, CharacterIndex::One, &[Segment::TopHorizontal]);
    add_lit(&mut f, CharacterIndex::Two, &[Segment::TopHorizontal]);
    add_lit(&mut f, CharacterIndex::Three, &[Segment::BottomLeftDiagonal, Segment::MiddleRight, Segment::BottomHorizontal]);
    add_lit(&mut f, CharacterIndex::Four, &[Segment::MiddleLeft, Segment::BottomRightDiagonal, Segment::BottomHorizontal, Segment::MiddleRight]);
    assert(f@ =~= fog_frames()[1]);
    frames.push(AnimationFrame { character_segments: f });
    let mut f: Vec<CharacterSegment> = Vec::new();
    add_lit(&mut f, CharacterIndex::One, &[Segment::TopHorizontal, Segment::BottomHorizontal]);
    add_lit(&mut f, CharacterIndex::Two, &[Segment::TopHorizontal]);
    add_lit(&mut f, CharacterIndex::Three, &[Segment::BottomLeftDiagonal, Segment::MiddleRight, Segment::BottomHorizontal, Segment::TopHorizontal, Segment::MiddleLeft]);
    add_lit(&mut f, CharacterIndex::Four, &[Segment::MiddleLeft, Segment::BottomRightDiagonal, Segment::BottomHorizontal, Segment::MiddleRight]);
    assert(f@ =~= fog_frames()[2]);
    frames.push(AnimationFrame { character_segments: f });
    let mut f: Vec<CharacterSegment> = Vec::new();
    add_lit(&mut f, CharacterIndex::One, &[Segment::BottomHorizontal]);
    add_lit(&mut f, CharacterIndex::Two, &[Segment::TopHorizontal, Segment::BottomHorizontal, Segment::MiddleLeft, Segment::MiddleRight]);
    add_lit(&mut f, CharacterIndex::Three, &[Segment::BottomLeftDiagonal, Segment::MiddleRight, Segment::BottomHorizontal, Segment::TopHorizontal, Segment::MiddleLeft]);
    add_lit(&mut f, CharacterIndex::Four, &[Segment::MiddleLeft, Segment::BottomRightDiagonal, Segment::BottomHorizontal, Segment::TopHorizontal, Segment::MiddleRight]);
    assert(f@ =~= fog_frames()[3]);
    frames.push(AnimationFrame { character_segments: f });
    let mut f: Vec<CharacterSegment> = Vec::new();
    add_lit(&mut f, CharacterIndex::One, &[Segment::BottomHorizontal, Segment::MiddleLeft, Segment::MiddleRight]);
    add_lit(&mut f, CharacterIndex::Two, &[Segment::BottomHorizontal, Segment::MiddleLeft, Segment::MiddleRight]);
    add_lit(&mut f, CharacterIndex::Three, &[Segment::BottomLeftDiagonal, Segment::MiddleRight, Segment::BottomHorizontal, Segment::TopHorizontal, Segment::MiddleLeft]);
    add_lit(&mut f, CharacterIndex::Four, &[Segment::MiddleLeft, Segment::BottomRightDiagonal, Segment::BottomHorizontal, Segment::TopHorizontal]);
    assert(f@ =~= fog_frames()[4]);
    frames.push(AnimationFrame { character_segments: f });
    let mut f: Vec<CharacterSegment> = Vec::new();
    add_lit(&mut f, CharacterIndex::One, &[Segment::MiddleLeft, Segment::MiddleRight]);
    add_lit(&mut f, CharacterIndex::Two, &[Segment::BottomHorizontal, Segment::MiddleLeft, Segment::MiddleRight]);
    add_lit(&mut f, CharacterIndex::Three, &[Segment::BottomLeftDiagonal, Segment::MiddleRight, Segment::BottomHorizontal]);
    add_lit(&mut f, CharacterIndex::Four, &[Segment::MiddleLeft, Segment::BottomRightDiagonal, Segment::BottomHorizontal, Segment::TopHorizontal]);
    assert(f@ =~= fog_frames()[5]);
    frames.push(AnimationFrame { character_segments: f });
    let mut f: Vec<CharacterSegment> = Vec::new();
    add_lit(&mut f, CharacterIndex::One, &[Segment::MiddleLeft, Segment::MiddleRight]);
    add_lit(&mut f, CharacterIndex::Three, &[Segment::BottomLeftDiagonal, Segment::MiddleRight, Segment::BottomHorizontal]);
    add_lit(&mut f, CharacterIndex::Four, &[Segment::MiddleLeft, Segment::BottomRightDiagonal, Segment::BottomHorizontal]);
    assert(f@ =~= fog_frames()[6]);
    frames.push(AnimationFrame { character_segments: f });
    let mut f: Vec<CharacterSegment> = Vec::new();
    add_lit(&mut f, CharacterIndex::Three, &[Segment::BottomLeftDiagonal, Segment::MiddleRight, Segment::BottomHorizontal]);
    add_lit(&mut f, CharacterIndex::Four, &[Segment::MiddleLeft, Segment::BottomRightDiagonal, Segment::BottomHorizontal]);
    assert(f@ =~= fog_frames()[7]);
    frames.push(AnimationFrame { character_segments: f });
    let mut f: Vec<CharacterSegment> = Vec::new();
    add_lit(&mut f, CharacterIndex::Three, &[Segment::BottomLeftDiagonal, Segment::MiddleRight, Segment::BottomHorizontal]);
    add_lit(&mut f, CharacterIndex::Four, &[Segment::MiddleLeft, Segment::BottomRightDiagonal, Segment::BottomHorizontal]);
    assert(f@ =~= fog_frames()[8]);
    frames.push(AnimationFrame { character_segments: f });
    let a = Animation { duration: 2500, frames };
    assert(a@.1 =~= fog_frames());
    a
}

/// Frames of the question mark animation: four question marks drawn stroke by stroke.
pub open spec fn question_marks_frames() -> Seq<Seq<CharacterSegment>> {
    seq![
        lit(CharacterIndex::One, seq![Segment::TopHorizontal])
            + lit(CharacterIndex::Two, seq![Segment::TopHorizontal])
            + lit(CharacterIndex::Three, seq![Segment::TopHorizontal])
            + lit(CharacterIndex::Four, seq![Segment::TopHorizontal]),
        lit(CharacterIndex::One, seq![Segment::TopHorizontal, Segment::TopRightVertical])
            + lit(CharacterIndex::Two, seq![Segment::TopHorizontal, Segment::TopRightVertical])
            + lit(CharacterIndex::Three, seq![Segment::TopHorizontal, Segment::TopRightVertical])
            + lit(CharacterIndex::Four, seq![Segment::TopHorizontal, Segment::TopRightVertical]),
        lit(CharacterIndex::One, seq![Segment::TopHorizontal, Segment::TopRightVertical, Segment::MiddleRight])
            + lit(CharacterIndex::Two, seq![Segment::TopHorizontal, Segment::TopRightVertical, Segment::MiddleRight])
            + lit(CharacterIndex::Three, seq![Segment::TopHorizontal, Segment::TopRightVertical, Segment::MiddleRight])
            + lit(CharacterIndex::Four, seq![Segment::TopHorizontal, Segment::TopRightVertical, Segment::MiddleRight]),
        lit(CharacterIndex::One, seq![Segment::TopHorizontal, Segment::TopRightVertical, Segment::BottomMiddleVertical])
            + lit(CharacterIndex::Two, seq![Segment::TopHorizontal, Segment::TopRightVertical, Segment::BottomMiddleVertical])
            + lit(CharacterIndex::Three, seq![Segment::TopHorizontal, Segment::TopRightVertical, Segment::BottomMiddleVertical])
            + lit(CharacterIndex::Four, seq![Segment::TopHorizontal, Segment::TopRightVertical, Segment::BottomMiddleVertical]),
        lit(CharacterIndex::One, seq![Segment::TopHorizontal, Segment::TopRightVertical, Segment::BottomMiddleVertical])
            + lit(CharacterIndex::Two, seq![Segment::TopHorizontal, Segment::TopRightVertical, Segment::BottomMiddleVertical])
            + lit(CharacterIndex::Three, seq![Segment::TopHorizontal, Segment::TopRightVertical, Segment::BottomMiddleVertical])
            + lit(CharacterIndex::Four, seq![Segment::TopHorizontal, Segment::TopRightVertical, Segment::BottomMiddleVertical]),
        lit(CharacterIndex::One, seq![Segment::TopHorizontal, Segment::TopRightVertical, Segment::BottomMiddleVertical])
            + lit(CharacterIndex::Two, seq![Segment::TopHorizontal, Segment::TopRightVertical, Segment::BottomMiddleVertical])
            + lit(CharacterIndex::Three, seq![Segment::TopHorizontal, Segment::TopRightVertical, Segment::BottomMiddleVertical])
            + lit(CharacterIndex::Four, seq![Segment::TopHorizontal, Segment::TopRightVertical, Segment::BottomMiddleVertical]),
        lit(CharacterIndex::One, seq![Segment::TopHorizontal, Segment::TopRightVertical, Segment::BottomMiddleVertical])
            + lit(CharacterIndex::Two, seq![Segment::TopHorizontal, Segment::TopRightVertical, Segment::BottomMiddleVertical])
            + lit(CharacterIndex::Three, seq![Segment::TopHorizontal, Segment::TopRightVertical, Segment::BottomMiddleVertical])
            + lit(CharacterIndex::Four, seq![Segment::TopHorizontal, Segment::TopRightVertical, Segment::BottomMiddleVertical]),
        lit(CharacterIndex::One, seq![Segment::TopHorizontal, Segment::TopRightVertical, Segment::BottomMiddleVertical])
            + lit(CharacterIndex::Two, seq![Segment::TopHorizontal, Segment::TopRightVertical, Segment::BottomMiddleVertical])
            + lit(CharacterIndex::Three, seq![Segment::TopHorizontal, Segment::TopRightVertical, Segment::BottomMiddleVertical])
            + lit(CharacterIndex::Four, seq![Segment::TopHorizontal, Segment::TopRightVertical, Segment::BottomMiddleVertical]),
    ]
}

/// The animation for a weather condition that is not known.
pub fn question_marks_anim() -> (a: Animation)
    ensures
        a@ == (1000u64, question_marks_frames()),
{
    let mut frames: Vec<AnimationFrame> = Vec::new();
    let mut f: Vec<CharacterSegment> = Vec::new();
    add_lit(&mut f, CharacterIndex::One, &[Segment::TopHorizontal]);
    add_lit(&mut f, CharacterIndex::Two, &[Segment::TopHorizontal]);
    add_lit(&mut f, CharacterIndex::Three, &[Segment::TopHorizontal]);
    add_lit(&mut f, CharacterIndex::Four, &[Segment::TopHorizontal]);
    assert(f@ =~= question_marks_frames()[0]);
    frames.push(AnimationFrame { character_segments: f });
    let mut f: Vec<CharacterSegment> = Vec::new();
    add_lit(&mut f, CharacterIndex::One, &[Segment::TopHorizontal, Segment::TopRightVertical]);
    add_lit(&mut f, CharacterIndex::Two, &[Segment::TopHorizontal, Segment::TopRightVertical]);
    add_lit(&mut f, CharacterIndex::Three, &[Segment::TopHorizontal, Segment::TopRightVertical]);
    add_lit(&mut f, CharacterIndex::Four, &[Segment::TopHorizontal, Segment::TopRightVertical]);
    assert(f@ =~= question_marks_frames()[1]);
    frames.push(AnimationFrame { character_segments: f });
    let mut f: Vec<CharacterSegment> = Vec::new();
    add_lit(&mut f, CharacterIndex::One, &[Segment::TopHorizontal, Segment::TopRightVertical, Segment::MiddleRight]);
    add_lit(&mut f, CharacterIndex::Two, &[Segment::TopHorizontal, Segment::TopRightVertical, Segment::MiddleRight]);
    add_lit(&mut f, CharacterIndex::Three, &[Segment::TopHorizontal, Segment::TopRightVertical, Segment::MiddleRight]);
    add_lit(&mut f, CharacterIndex::Four, &[Segment::TopHorizontal, Segment::TopRightVertical, Segment::MiddleRight]);
    assert(f@ =~= question_marks_frames()[2]);
    frames.push(AnimationFrame { character_segments: f });
    let mut f: Vec<CharacterSegment> = Vec::new();
    add_lit(&mut f, CharacterIndex::One, &[Segment::TopHorizontal, Segment::TopRightVertical, Segment::BottomMiddleVertical]);
    add_lit(&mut f, CharacterIndex::Two, &[Segment::TopHorizontal, Segment::TopRightVertical, Segment::BottomMiddleVertical]);
    add_lit(&mut f, CharacterIndex::Three, &[Segment::TopHorizontal, Segment::TopRightVertical, Segment::BottomMiddleVertical]);
    add_lit(&mut f, CharacterIndex::Four, &[Segment::TopHorizontal, Segment::TopRightVertical, Segment::BottomMiddleVertical]);
    assert(f@ =~= question_marks_frames()[3]);
    frames.push(AnimationFrame { character_segments: f });
    let mut f: Vec<CharacterSegment> = Vec::new();
    add_lit(&mut f, CharacterIndex::One, &[Segment::TopHorizontal, Segment::TopRightVertical, Segment::BottomMiddleVertical]);
    add_lit(&mut f, CharacterIndex::Two, &[Segment::TopHorizontal, Segment::TopRightVertical, Segment::BottomMiddleVertical]);
    add_lit(&mut f, CharacterIndex::Three, &[Segment::TopHorizontal, Segment::TopRightVertical, Segment::BottomMiddleVertical]);
    add_lit(&mut f, CharacterIndex::Four, &[Segment::TopHorizontal, Segment::TopRightVertical, Segment::BottomMiddleVertical]);
    assert(f@ =~= question_marks_frames()[4]);
    frames.push(AnimationFrame { character_segments: f });
    let mut f: Vec<CharacterSegment> = Vec::new();
    add_lit(&mut f, CharacterIndex::One, &[Segment::TopHorizontal, Segment::TopRightVertical, Segment::BottomMiddleVertical]);
    add_lit(&mut f, CharacterIndex::Two, &[Segment::TopHorizontal, Segment::TopRightVertical, Segment::BottomMiddleVertical]);
    add_lit(&mut f, CharacterIndex::Three, &[Segment::TopHorizontal, Segment::TopRightVertical, Segment::BottomMiddleVertical]);
    add_lit(&mut f, CharacterIndex::Four, &[Segment::TopHorizontal, Segment::TopRightVertical, Segment::BottomMiddleVertical]);
    assert(f@ =~= question_marks_frames()[5]);
    frames.push(AnimationFrame { character_segments: f });
    let mut f: Vec<CharacterSegment> = Vec::new();
    add_lit(&mut f, CharacterIndex::One, &[Segment::TopHorizontal, Segment::TopRightVertical, Segment::BottomMiddleVertical]);
    add_lit(&mut f, CharacterIndex::Two, &[Segment::TopHorizontal, Segment::TopRightVertical, Segment::BottomMiddleVertical]);
    add_lit(&mut f, CharacterIndex::Three, &[Segment::TopHorizontal, Segment::TopRightVertical, Segment::BottomMiddleVertical]);
    add_lit(&mut f, CharacterIndex::Four, &[Segment::TopHorizontal, Segment::TopRightVertical, Segment::BottomMiddleVertical]);
    assert(f@ =~= question_marks_frames()[6]);
    frames.push(AnimationFrame { character_segments: f });
    let mut f: Vec<CharacterSegment> = Vec::new();
    add_lit(&mut f, CharacterIndex::One, &[Segment::TopHorizontal, Segment::TopRightVertical, Segment::BottomMiddleVertical]);
    add_lit(&mut f, CharacterIndex::Two, &[Segment::TopHorizontal, Segment::TopRightVertical, Segment::BottomMiddleVertical]);
    add_lit(&mut f, CharacterIndex::Three, &[Segment::TopHorizontal, Segment::TopRightVertical, Segment::BottomMiddleVertical]);
    add_lit(&mut f, CharacterIndex::Four, &[Segment::TopHorizontal, Segment::TopRightVertical, Segment::BottomMiddleVertical]);
    assert(f@ =~= question_marks_frames()[7]);
    frames.push(AnimationFrame { character_segments: f });
    let a = Animation { duration: 1000, frames };
    assert(a@.1 =~= question_marks_frames());
    a
}


/// The sun of the sunny animation stands in every frame: each frame begins with
/// the sun drawn on the first character, and only the ray that sweeps out
/// changes from frame to frame.
pub proof fn lemma_sun_in_every_sunshine_frame()
    ensures
        forall|i: int|
            0 <= i < sunshine_frames().len() ==> {
                &&& sunshine_frames()[i].len() >= 6
                &&& #[trigger] sunshine_frames()[i].take(6) == lit(
                    CharacterIndex::One,
                    seq![
                        Segment::TopHorizontal,
                        Segment::TopLeftVertical,
                        Segment::TopMiddleVertical,
                        Segment::TopLeftDiagonal,
                        Segment::TopRightDiagonal,
                        Segment::MiddleLeft,
                    ],
                )
            },
        forall|i: int|
            0 <= i < partially_cloudy_frames().len() ==> {
                &&& partially_cloudy_frames()[i].len() >= 6
                &&& #[trigger] partially_cloudy_frames()[i].take(6) == lit(
                    CharacterIndex::One,
                    seq![
                        Segment::TopHorizontal,
                        Segment::TopLeftVertical,
                        Segment::TopMiddleVertical,
                        Segment::TopLeftDiagonal,
                        Segment::TopRightDiagonal,
                        Segment::MiddleLeft,
                    ],
                )
            },
{
    let sun = lit(
        CharacterIndex::One,
        seq![
            Segment::TopHorizontal,
            Segment::TopLeftVertical,
            Segment::TopMiddleVertical,
            Segment::TopLeftDiagonal,
            Segment::TopRightDiagonal,
            Segment::MiddleLeft,
        ],
    );
    assert forall|i: int| 0 <= i < sunshine_frames().len() implies sunshine_frames()[i].len() >= 6
        && #[trigger] sunshine_frames()[i].take(6) == sun by {
        assert(sunshine_frames()[i].take(6) =~= sun);
    }
    assert forall|i: int| 0 <= i < partially_cloudy_frames().len() implies partially_cloudy_frames()[i].len() >= 6
        && #[trigger] partially_cloudy_frames()[i].take(6) == sun by {
        assert(partially_cloudy_frames()[i].take(6) =~= sun);
    }
}

/// Every animation of the display can be drawn: each has frames, and each of its
/// frames lasts at least one millisecond.
pub proof fn lemma_animations_drawable()
    ensures
        drawable((150u64, snow_frames(true))),
        drawable((250u64, snow_frames(false))),
        drawable((500u64, rain_frames())),
        drawable((500u64, loading_frames())),
        drawable((750u64, sunshine_frames())),
        drawable((500u64, lightning_frames())),
        drawable((1500u64, cloudy_frames())),
        drawable((750u64, partially_cloudy_frames())),
        drawable((2500u64, fog_frames())),
        drawable((1000u64, question_marks_frames())),
{
}

} // verus!
