//! Sizes of vertex data, in the width that the graphics driver takes them in.

use vstd::prelude::*;
use vstd::layout::size_of;

verus! {

/// The size in bytes of one element of a slice, as a signed 32-bit integer.
/// The slice may be empty: only its element type counts. A size above
/// `i32::MAX` is cut to its low 32 bits, as a cast does.
pub fn size_of_element<T>(_elements: &[T]) -> (size: i32)
    ensures
        size == (size_of::<T>() as usize) as i32,
        size_of::<T>() <= i32::MAX ==> size == size_of::<T>(),
{
    core::mem::size_of::<T>() as i32
}

} // verus!
