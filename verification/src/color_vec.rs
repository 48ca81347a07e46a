//! The fixed-capacity colour buffer: a `heapless::Vec` of up to 32 colours.
//!
//! The vector itself is the outside crate's. What this file states of it
//! is taken from that crate's source and is believed, not proved.

use vstd::prelude::*;
use crate::color::RgbColor;

verus! {

/// Most colours that a buffer holds.
pub const COLOR_CAPACITY: usize = 32;

/// `heapless::Vec`, taken as it is: nothing inside it is looked at.
#[verifier::external_type_specification]
#[verifier::external_body]
#[verifier::reject_recursive_types(T)]
pub struct ExHeaplessVec<T, const N: usize>(heapless::Vec<T, N>);

/// The colours that a buffer holds, first to last.
pub uninterp spec fn colors_of(buffer: heapless::Vec<RgbColor, 32>) -> Seq<RgbColor>;

/// `heapless::Vec::new`: a buffer that holds nothing.
#[verifier::external_body]
fn buffer_new() -> (buffer: heapless::Vec<RgbColor, 32>)
    ensures
        colors_of(buffer) == Seq::<RgbColor>::empty(),
{
    heapless::Vec::new()
}

/// `heapless::Vec::from_iter` on `count` copies of one colour: the buffer
/// holds exactly these. The outside function panics on more items than
/// the capacity, so `count` is held to it.
#[verifier::external_body]
fn buffer_filled(
    color: RgbColor,
    count: usize,
) -> (buffer: heapless::Vec<RgbColor, 32>)
    requires
        count <= COLOR_CAPACITY,
    ensures
        colors_of(buffer) == Seq::new(count as nat, |i: int| color),
{
    heapless::Vec::from_iter(core::iter::repeat(color).take(count))
}

/// `heapless::Vec::push`: below the capacity the colour is appended and
/// the call succeeds; at the capacity the buffer stays as it is and the
/// colour comes back as the error.
#[verifier::external_body]
fn buffer_push(
    buffer: &mut heapless::Vec<RgbColor, 32>,
    color: RgbColor,
) -> (pushed: Result<(), RgbColor>)
    ensures
        pushed is Ok <==> colors_of(*old(buffer)).len() < COLOR_CAPACITY,
        pushed matches Err(rejected) ==> rejected == color,
        colors_of(*final(buffer)) == (if colors_of(*old(buffer)).len() < COLOR_CAPACITY {
            colors_of(*old(buffer)).push(color)
        } else {
            colors_of(*old(buffer))
        }),
{
    buffer.push(color)
}

/// `len` of the buffer as a slice: the number of colours held, which
/// never exceeds the capacity.
#[verifier::external_body]
fn buffer_len(buffer: &heapless::Vec<RgbColor, 32>) -> (len: usize)
    ensures
        len == colors_of(*buffer).len(),
        len <= COLOR_CAPACITY,
{
    buffer.len()
}

/// Assignment through `heapless::Vec`'s mutable slice: the colour at
/// `index` is replaced and nothing else changes. Indexing panics past the
/// end, so `index` is held below the length.
#[verifier::external_body]
fn buffer_set(buffer: &mut heapless::Vec<RgbColor, 32>, index: usize, color: RgbColor)
    requires
        index < colors_of(*old(buffer)).len(),
    ensures
        colors_of(*final(buffer)) == colors_of(*old(buffer)).update(index as int, color),
{
    buffer[index] = color;
}

/// `heapless::Vec::as_slice`: the colours held, first to last.
#[verifier::external_body]
fn buffer_as_slice(buffer: &heapless::Vec<RgbColor, 32>) -> (colors: &[RgbColor])
    ensures
        colors@ == colors_of(*buffer),
{
    buffer.as_slice()
}

/// A buffer of up to 32 colours that lives without a heap.
pub struct ColorBuffer {
    inner: heapless::Vec<RgbColor, 32>,
}

impl View for ColorBuffer {
    type V = Seq<RgbColor>;

    closed spec fn view(&self) -> Seq<RgbColor> {
        colors_of(self.inner)
    }
}

impl ColorBuffer {
    /// An empty buffer.
    pub fn new() -> (buffer: ColorBuffer)
        ensures
            buffer@ == Seq::<RgbColor>::empty(),
    {
        ColorBuffer { inner: buffer_new() }
    }

    /// A buffer of `count` times the same colour.
    pub fn filled(color: RgbColor, count: usize) -> (buffer: ColorBuffer)
        requires
            count <= COLOR_CAPACITY,
        ensures
            buffer@ == Seq::new(count as nat, |i: int| color),
    {
        ColorBuffer { inner: buffer_filled(color, count) }
    }

    /// Appends a colour. A full buffer stays as it is and hands the
    /// colour back.
    pub fn push(&mut self, color: RgbColor) -> (pushed: Result<(), RgbColor>)
        ensures
            pushed is Ok <==> old(self)@.len() < COLOR_CAPACITY,
            pushed matches Err(rejected) ==> rejected == color,
            final(self)@ == (if old(self)@.len() < COLOR_CAPACITY {
                old(self)@.push(color)
            } else {
                old(self)@
            }),
    {
        buffer_push(&mut self.inner, color)
    }

    pub fn len(&self) -> (len: usize)
        ensures
            len == self@.len(),
            len <= COLOR_CAPACITY,
    {
        buffer_len(&self.inner)
    }

    /// Replaces the colour at `index`.
    pub fn set(&mut self, index: usize, color: RgbColor)
        requires
            index < old(self)@.len(),
        ensures
            final(self)@ == old(self)@.update(index as int, color),
    {
        buffer_set(&mut self.inner, index, color);
    }

    /// The colours held, first to last.
    pub fn as_slice(&self) -> (colors: &[RgbColor])
        ensures
            colors@ == self@,
    {
        buffer_as_slice(&self.inner)
    }
}

} // verus!
