//! Encoding of the five-byte branch instructions with which code of a 32-bit
//! process is redirected, and the byte patches that hold them.

use crate::le_bytes::le_bytes;
use crate::le_bytes::signed;
use crate::le_bytes::spec_le_bytes;
use crate::le_bytes::spec_signed;
use crate::le_bytes::spec_twos_complement;
use crate::le_bytes::twos_complement;
use vstd::prelude::*;

verus! {

/// Operation code of a near jump.
pub const OP_JMP: u8 = 0xe9;

/// Operation code of a near call.
pub const OP_CALL: u8 = 0xe8;

/// Length of a branch instruction: the operation code and a 32-bit offset.
pub const BRANCH_LEN: usize = 5;

/// Distance from the end of a branch instruction at `from` to `to`, the
/// addresses taken as signed numbers.
pub open spec fn spec_branch_offset(from: u32, to: u32) -> int {
    spec_signed(to) - spec_signed(from) - BRANCH_LEN
}

/// The five bytes of a branch instruction at `from` that goes to `to`: the
/// operation code and the offset in two's complement, lowest byte first.
pub open spec fn spec_branch_bytes(op: u8, from: u32, to: u32) -> Seq<u8> {
    seq![op] + spec_le_bytes(spec_twos_complement(spec_branch_offset(from, to)))
}

/// Whether the distance from `from` to `to` fits the offset of a branch.
pub open spec fn spec_in_branch_range(from: u32, to: u32) -> bool {
    &&& i32::MIN <= spec_signed(to) - spec_signed(from) <= i32::MAX
    &&& i32::MIN <= spec_branch_offset(from, to) <= i32::MAX
}

/// Whether the distance from `from` to `to` fits the offset of a branch.
pub fn in_branch_range(from: u32, to: u32) -> (fits: bool)
    ensures
        fits == spec_in_branch_range(from, to),
{
    match signed(to).checked_sub(signed(from)) {
        Some(distance) => distance.checked_sub(5).is_some(),
        None => false,
    }
}

/// Distance from the end of a branch instruction at `from` to `to`.
pub fn branch_offset(from: u32, to: u32) -> (offset: i32)
    requires
        spec_in_branch_range(from, to),
    ensures
        offset == spec_branch_offset(from, to),
{
    signed(to) - signed(from) - 5
}

/// The five bytes of a branch instruction at `from` that goes to `to`.
pub fn branch_bytes(op: u8, from: u32, to: u32) -> (data: [u8; 5])
    requires
        spec_in_branch_range(from, to),
    ensures
        data@ == spec_branch_bytes(op, from, to),
{
    let offset = le_bytes(twos_complement(branch_offset(from, to)));
    let data = [op, offset[0], offset[1], offset[2], offset[3]];
    proof {
        assert(data@ =~= spec_branch_bytes(op, from, to));
    }
    data
}

/// A patch of `N` bytes at an address, with the bytes that it replaces.
#[derive(Debug)]
pub struct MemPatch<const N: usize> {
    addr: u32,
    patch: [u8; N],
    orig: [u8; N],
}

/// A patch as a mathematical value.
pub struct MemPatchView {
    pub addr: u32,
    pub patch: Seq<u8>,
    pub orig: Seq<u8>,
}

impl<const N: usize> View for MemPatch<N> {
    type V = MemPatchView;

    closed spec fn view(&self) -> MemPatchView {
        MemPatchView { addr: self.addr, patch: self.patch@, orig: self.orig@ }
    }
}

impl<const N: usize> MemPatch<N> {
    /// The patch that puts `patch` at `addr`, where `orig` was read.
    pub fn new(addr: u32, patch: [u8; N], orig: [u8; N]) -> (mem_patch: Self)
        ensures
            mem_patch@ == (MemPatchView { addr, patch: patch@, orig: orig@ }),
    {
        MemPatch { addr, patch, orig }
    }

    /// Address of the first patched byte.
    pub fn addr(&self) -> (addr: u32)
        ensures
            addr == self@.addr,
    {
        self.addr
    }

    /// The bytes that are written at the address when the patch is switched
    /// on, or, with `enable` false, when it is switched off.
    pub fn bytes(&self, enable: bool) -> (bytes: &[u8; N])
        ensures
            bytes@ == if enable {
                self@.patch
            } else {
                self@.orig
            },
    {
        if enable {
            &self.patch
        } else {
            &self.orig
        }
    }
}

/// A branch instruction patched over five bytes of code.
#[derive(Debug)]
pub struct BranchPatch {
    patch: MemPatch<5>,
}

impl View for BranchPatch {
    type V = MemPatchView;

    closed spec fn view(&self) -> MemPatchView {
        self.patch@
    }
}

impl BranchPatch {
    /// The patch that puts a branch to `target` at `addr`, where `orig` was
    /// read.
    pub fn new(op: u8, addr: u32, target: u32, orig: [u8; 5]) -> (branch: Self)
        requires
            spec_in_branch_range(addr, target),
        ensures
            branch@ == (MemPatchView {
                addr,
                patch: spec_branch_bytes(op, addr, target),
                orig: orig@,
            }),
    {
        BranchPatch { patch: MemPatch::new(addr, branch_bytes(op, addr, target), orig) }
    }

    /// A jump to `target`.
    pub fn jmp(addr: u32, target: u32, orig: [u8; 5]) -> (branch: Self)
        requires
            spec_in_branch_range(addr, target),
        ensures
            branch@ == (MemPatchView {
                addr,
                patch: spec_branch_bytes(OP_JMP, addr, target),
                orig: orig@,
            }),
    {
        Self::new(OP_JMP, addr, target, orig)
    }

    /// A call of `target`.
    pub fn call(addr: u32, target: u32, orig: [u8; 5]) -> (branch: Self)
        requires
            spec_in_branch_range(addr, target),
        ensures
            branch@ == (MemPatchView {
                addr,
                patch: spec_branch_bytes(OP_CALL, addr, target),
                orig: orig@,
            }),
    {
        Self::new(OP_CALL, addr, target, orig)
    }

    /// The byte patch that holds the instruction.
    pub fn patch(&self) -> (patch: &MemPatch<5>)
        ensures
            patch@ == self@,
    {
        &self.patch
    }
}

} // verus!
