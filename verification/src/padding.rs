//! Filler for the parts of a foreign record that nothing here reads.

use vstd::prelude::*;

verus! {

/// `N` bytes that are carried along unread.
#[derive(Debug, Clone, Copy)]
pub struct Padding<const N: usize>(pub [u8; N]);

} // verus!
