//! Strings with a fixed text that are handed out in the form of the string
//! container.

use crate::ztl::zxstr::ZXString;
use crate::ztl::zxstr::ZXString8;
use crate::ztl::zxstr::ZXStringHeader;
use core::sync::atomic::AtomicI32;
use core::sync::atomic::Ordering;
use vstd::prelude::*;

verus! {

/// The block behind a fixed string of `N` bytes: a count of the strings handed
/// out, the header fields and the text, closed by a zero byte.
pub struct StaticZXStringData<const N: usize> {
    ref_count: AtomicI32,
    cap: i32,
    byte_len: i32,
    data: [u8; N],
    fake_zero: u8,
}

impl<const N: usize> View for StaticZXStringData<N> {
    type V = Seq<u8>;

    closed spec fn view(&self) -> Seq<u8> {
        self.data@
    }
}

impl<const N: usize> StaticZXStringData<N> {
    #[verifier::type_invariant]
    spec fn inv(self) -> bool {
        &&& self.cap == N
        &&& self.byte_len == N
    }

    /// The block for the text `s`.
    pub fn new(s: &[u8; N]) -> (block: Self)
        requires
            N <= i32::MAX,
        ensures
            block@ == s@,
    {
        StaticZXStringData {
            ref_count: AtomicI32::new(1),
            cap: N as i32,
            byte_len: N as i32,
            data: *s,
            fake_zero: 0,
        }
    }

    /// A copy of the text.
    pub fn text(&self) -> (units: Vec<u8>)
        ensures
            units@ == self@,
    {
        let mut units: Vec<u8> = Vec::new();
        let mut i: usize = 0;
        while i < N
            invariant
                i <= N,
                units@ == self.data@.take(i as int),
            decreases N - i,
        {
            units.push(self.data[i]);
            proof {
                assert(units@ =~= self.data@.take(i + 1));
            }
            i = i + 1;
        }
        proof {
            assert(self.data@.take(N as int) =~= self.data@);
        }
        units
    }

    /// Counts one more string and hands it out: a string of the block's text,
    /// whose header gives `N` as capacity and as length in bytes.
    pub fn get(&self) -> (s: ZXString8)
        ensures
            s@ == self@,
            s.spec_header() matches Some(header) && header.cap == N && header.byte_len == N,
    {
        broadcast use vstd::layout::layout_of_primitives;

        proof {
            use_type_invariant(self);
        }
        let before = self.ref_count.fetch_add(1, Ordering::SeqCst);
        let header = ZXStringHeader {
            ref_count: before.wrapping_add(1),
            cap: self.cap,
            byte_len: self.byte_len,
        };
        let units = self.text();
        match ZXString::from_parts(header, units) {
            Some(s) => s,
            None => vstd::pervasive::unreached(),
        }
    }
}

} // verus!
