//! Fixed-capacity collections of the `heapless` crate, and what the library
//! relies on of them.
use vstd::prelude::*;

use crate::display::{Character, Segment};
use vstd::string::StringSliceAdditionalSpecFns;

verus! {

#[verifier::external_type_specification]
#[verifier::external_body]
#[verifier::reject_recursive_types(T)]
pub struct ExHeaplessVec<T, const N: usize>(heapless::Vec<T, N>);

#[verifier::external_type_specification]
#[verifier::external_body]
pub struct ExHeaplessString<const N: usize>(heapless::String<N>);

/// The segments held by a glyph's segment list, in order.
pub uninterp spec fn segment_list(v: heapless::Vec<Segment, 14>) -> Seq<Segment>;

/// The characters held by a list of display characters, in order.
pub uninterp spec fn character_list(v: heapless::Vec<Character, 4>) -> Seq<Character>;

/// The characters held by a bounded text, in order.
pub uninterp spec fn bounded_text(s: heapless::String<64>) -> Seq<char>;

/// `heapless::Vec::new`: an empty list.
#[verifier::external_body]
pub(crate) fn new_segment_list() -> (v: heapless::Vec<Segment, 14>)
    ensures
        segment_list(v) == Seq::<Segment>::empty(),
{
    heapless::Vec::new()
}

/// `heapless::Vec::push`: appends when fewer than 14 segments are held, and
/// hands the segment back otherwise.
#[verifier::external_body]
pub(crate) fn push_segment(v: &mut heapless::Vec<Segment, 14>, s: Segment) -> (r: Result<
    (),
    Segment,
>)
    ensures
        r is Ok <==> segment_list(*old(v)).len() < 14,
        r is Ok ==> segment_list(*final(v)) == segment_list(*old(v)).push(s),
        r matches Err(t) ==> t == s,
        r is Err ==> segment_list(*final(v)) == segment_list(*old(v)),
{
    v.push(s)
}

/// `heapless::Vec::as_slice`: the held segments.
#[verifier::external_body]
pub(crate) fn segment_slice(v: &heapless::Vec<Segment, 14>) -> (s: &[Segment])
    ensures
        s@ == segment_list(*v),
{
    v.as_slice()
}

/// `heapless::Vec::new`: an empty list of display characters.
#[verifier::external_body]
pub(crate) fn new_character_list() -> (v: heapless::Vec<Character, 4>)
    ensures
        character_list(v) == Seq::<Character>::empty(),
{
    heapless::Vec::new()
}

/// `heapless::Vec::push`: appends when fewer than 4 characters are held, and
/// hands the character back otherwise.
#[verifier::external_body]
pub(crate) fn push_character(v: &mut heapless::Vec<Character, 4>, c: Character) -> (r: Result<
    (),
    Character,
>)
    ensures
        r is Ok <==> character_list(*old(v)).len() < 4,
        r is Ok ==> character_list(*final(v)) == character_list(*old(v)).push(c),
        r matches Err(t) ==> t == c,
        r is Err ==> character_list(*final(v)) == character_list(*old(v)),
{
    v.push(c)
}

/// `heapless::Vec::into_array`: the four held characters as an array, or the
/// list itself back when it does not hold exactly four.
#[verifier::external_body]
pub(crate) fn characters_into_array(v: heapless::Vec<Character, 4>) -> (r: Result<
    [Character; 4],
    heapless::Vec<Character, 4>,
>)
    ensures
        r is Ok <==> character_list(v).len() == 4,
        r matches Ok(a) ==> a@ == character_list(v),
        r matches Err(w) ==> character_list(w) == character_list(v),
{
    v.into_array()
}

/// `heapless::String::try_from`: the text when its UTF-8 encoding fits in 64
/// bytes, an error otherwise.
#[verifier::external_body]
pub(crate) fn bounded_text_from(s: &str) -> (r: Result<heapless::String<64>, ()>)
    ensures
        r is Ok <==> s.spec_bytes().len() <= 64,
        r matches Ok(t) ==> bounded_text(t) == s@,
{
    heapless::String::try_from(s)
}

/// `heapless::String::default`: the empty text.
#[verifier::external_body]
pub(crate) fn empty_bounded_text() -> (t: heapless::String<64>)
    ensures
        bounded_text(t) == Seq::<char>::empty(),
{
    heapless::String::default()
}

} // verus!
