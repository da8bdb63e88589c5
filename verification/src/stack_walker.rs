//! What a walk over the call stack decides between two frames, and how the name
//! of a symbol is read from its buffer.

use vstd::prelude::*;

verus! {

/// Number of times in a row that a frame may return to itself before the walk
/// is ended.
pub const MAX_RECURSIONS: usize = 3;

/// Counts the frames in a row that return to themselves.
#[derive(Debug)]
pub struct RecursionGuard {
    recursions: usize,
}

impl View for RecursionGuard {
    type V = nat;

    closed spec fn view(&self) -> nat {
        self.recursions as nat
    }
}

impl RecursionGuard {
    #[verifier::type_invariant]
    spec fn inv(self) -> bool {
        self.recursions <= MAX_RECURSIONS + 1
    }

    /// A guard that has seen no frame.
    pub fn new() -> (guard: Self)
        ensures
            guard@ == 0,
    {
        RecursionGuard { recursions: 0 }
    }

    /// Takes note of a frame and says whether the walk goes on. A frame that
    /// returns elsewhere starts the count anew. A frame that returns to itself
    /// is counted, and ends the walk once more than `MAX_RECURSIONS` such
    /// frames have been counted in a row.
    pub fn next_frame(&mut self, pc: u64, ret: u64) -> (go_on: bool)
        ensures
            pc != ret ==> go_on && final(self)@ == 0,
            pc == ret && old(self)@ > MAX_RECURSIONS ==> !go_on && final(self)@ == old(self)@,
            pc == ret && old(self)@ <= MAX_RECURSIONS ==> go_on && final(self)@ == old(self)@ + 1,
    {
        proof {
            use_type_invariant(&*self);
        }
        if pc == ret {
            if self.recursions > MAX_RECURSIONS {
                return false;
            }
            self.recursions += 1;
        } else {
            self.recursions = 0;
        }
        true
    }
}

/// Position of the first zero byte of `buf`, if there is one.
pub open spec fn spec_nul_position(buf: Seq<u8>, index: int) -> bool {
    &&& 0 <= index < buf.len()
    &&& buf[index] == 0
    &&& forall|j: int| 0 <= j < index ==> buf[j] != 0
}

/// The name that a zero-terminated buffer holds: the bytes in front of the
/// first zero byte. A buffer without a zero byte holds no name.
pub fn name_until_nul(buf: &[u8]) -> (name: Option<&[u8]>)
    ensures
        match name {
            Some(bytes) => exists|i: int|
                #[trigger] spec_nul_position(buf@, i) && bytes@ == buf@.subrange(0, i),
            None => forall|j: int| 0 <= j < buf@.len() ==> buf@[j] != 0,
        },
{
    let mut i: usize = 0;
    while i < buf.len()
        invariant
            i <= buf@.len(),
            forall|j: int| 0 <= j < i ==> buf@[j] != 0,
        decreases buf@.len() - i,
    {
        if buf[i] == 0 {
            proof {
                assert(spec_nul_position(buf@, i as int));
            }
            return Some(&buf[0..i]);
        }
        i = i + 1;
    }
    None
}

} // verus!
