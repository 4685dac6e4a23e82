//! A 512-bit map of the `bitmaps` crate, seen as the set of its set bits.
//!
//! Nothing in this file is proved: each function states what the crate's
//! source shows of the call it makes.

use vstd::prelude::*;
use bitmaps::Bitmap;

verus! {

/// One bit for each entry of a page directory.
#[verifier::external_body]
pub struct DirectoryBits {
    bits: Bitmap<512>,
}

/// The indices of the bits that are set.
pub uninterp spec fn ones(map: DirectoryBits) -> Set<int>;

/// `Bitmap::new`: no bit is set.
#[verifier::external_body]
pub(crate) fn no_bits() -> (map: DirectoryBits)
    ensures
        ones(map) == Set::<int>::empty(),
{
    DirectoryBits { bits: Bitmap::new() }
}

/// `Bitmap::set`: bit `index` takes the given value, the others keep theirs,
/// and the bit's earlier value is returned.
#[verifier::external_body]
pub(crate) fn set_bit(map: &mut DirectoryBits, index: usize, value: bool) -> (before: bool)
    requires
        index < 512,
    ensures
        before == ones(*old(map)).contains(index as int),
        ones(*final(map)) == if value {
            ones(*old(map)).insert(index as int)
        } else {
            ones(*old(map)).remove(index as int)
        },
{
    map.bits.set(index, value)
}

/// `Bitmap::get`: whether bit `index` is set.
#[verifier::external_body]
pub(crate) fn get_bit(map: &DirectoryBits, index: usize) -> (value: bool)
    requires
        index < 512,
    ensures
        value == ones(*map).contains(index as int),
{
    map.bits.get(index)
}

} // verus!
