//! The bounded text buffer that backs the shared display state.
//!
//! The buffer is a `heapless::String` with a fixed 120-byte capacity, the
//! same store the display task renders from. Verified code reaches it only
//! through the small trusted interface below; the contents of a buffer are
//! named by [`text_chars`], and every contract above this module speaks of
//! that name.

use vstd::prelude::*;
use vstd::utf8::is_ascii_chars;

verus! {

#[verifier::external_type_specification]
#[verifier::external_body]
pub struct ExHeaplessString<const N: usize>(heapless::String<N>);

/// The characters a buffer holds.
pub uninterp spec fn text_chars(s: heapless::String<120>) -> Seq<char>;

/// Relies on heapless::String::new: the new string is empty.
#[verifier::external_body]
pub(crate) fn text_new() -> (r: heapless::String<120>)
    ensures
        text_chars(r) == Seq::<char>::empty(),
{
    heapless::String::new()
}

/// Relies on heapless::String::clear: it removes the whole contents.
#[verifier::external_body]
pub(crate) fn text_clear(dst: &mut heapless::String<120>)
    ensures
        text_chars(*final(dst)) == Seq::<char>::empty(),
{
    dst.clear()
}

/// Relies on heapless::String::push_str: it appends the bytes of `s` when
/// they fit in the remaining capacity and otherwise errs leaving the buffer
/// unchanged. Capacity is counted in bytes, so success is only promised
/// where both sides are ASCII and the character counts fit.
#[verifier::external_body]
pub(crate) fn text_push_str(dst: &mut heapless::String<120>, s: &str) -> (r: Result<(), ()>)
    ensures
        r is Ok ==> text_chars(*final(dst)) == text_chars(*old(dst)) + s@,
        r is Err ==> text_chars(*final(dst)) == text_chars(*old(dst)),
        (is_ascii_chars(text_chars(*old(dst))) && s.is_ascii() && text_chars(*old(dst)).len()
            + s@.len() <= 120) ==> r is Ok,
{
    dst.push_str(s)
}

/// Relies on heapless::String::clone: the copy holds the same contents.
#[verifier::external_body]
pub(crate) fn text_clone(s: &heapless::String<120>) -> (r: heapless::String<120>)
    ensures
        text_chars(r) == text_chars(*s),
{
    s.clone()
}

} // verus!
