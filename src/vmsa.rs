//! The initial vCPU save areas (VMSAs) that are measured at launch.
use vstd::prelude::*;

use crate::bytes::{put_le, write_le};
use crate::stage0::SevEsResetBlock;

verus! {

/// Guest-physical address at which every vCPU save area is measured.
pub const VMSA_ADDRESS: u64 = 0xFFFF_FFFF_F000;

/// Size of a save-area image.
pub const VMSA_SIZE: usize = 4096;

/// Code-segment base of the boot vCPU at reset.
pub const BOOT_CS_BASE: u64 = 0xFFFF_0000;

/// Instruction pointer of the boot vCPU at reset.
pub const BOOT_RIP: u64 = 0xFFF0;

/// `s` with a segment register (selector, attributes, limit, base) written at `off`.
pub open spec fn segment(s: Seq<u8>, off: nat, selector: nat, attrib: nat, limit: nat, base: nat) -> Seq<u8> {
    let s = put_le(s, off, selector, 2);
    let s = put_le(s, off + 2, attrib, 2);
    let s = put_le(s, off + 4, limit, 4);
    put_le(s, off + 8, base, 8)
}

/// The save-area image of a vCPU in its reset state, except that its code segment has
/// base `cs_base` and its instruction pointer is `rip`. Fields not written are zero.
#[verifier::opaque]
pub open spec fn vmsa_image(cs_base: nat, rip: nat) -> Seq<u8> {
    let s = Seq::new(4096, |i: int| 0u8);
    let s = segment(s, 0x00, 0, 0x93, 0xffff, 0);  // es
    let s = segment(s, 0x10, 0xf000, 0x9b, 0xffff, cs_base);  // cs
    let s = segment(s, 0x20, 0, 0x93, 0xffff, 0);  // ss
    let s = segment(s, 0x30, 0, 0x93, 0xffff, 0);  // ds
    let s = segment(s, 0x40, 0, 0x93, 0xffff, 0);  // fs
    let s = segment(s, 0x50, 0, 0x93, 0xffff, 0);  // gs
    let s = segment(s, 0x60, 0, 0, 0xffff, 0);  // gdtr
    let s = segment(s, 0x70, 0, 0x82, 0xffff, 0);  // ldtr
    let s = segment(s, 0x80, 0, 0, 0xffff, 0);  // idtr
    let s = segment(s, 0x90, 0, 0x83, 0xffff, 0);  // tr
    let s = put_le(s, 0xd0, 0x1000, 8);  // efer: SVME
    let s = put_le(s, 0x148, 0x40, 8);  // cr4: MCE
    let s = put_le(s, 0x158, 0x10, 8);  // cr0: ET
    let s = put_le(s, 0x160, 0x400, 8);  // dr7
    let s = put_le(s, 0x168, 0xffff0ff0, 8);  // dr6
    let s = put_le(s, 0x170, 0x2, 8);  // rflags
    let s = put_le(s, 0x178, rip, 8);  // rip
    let s = put_le(s, 0x268, 0x0007040600070406, 8);  // g_pat
    let s = put_le(s, 0x3b0, 0x1, 8);  // sev_features: SNP active
    let s = put_le(s, 0x3e8, 0x1, 8);  // xcr0
    let s = put_le(s, 0x408, 0x1f80, 4);  // mxcsr
    put_le(s, 0x410, 0x37f, 2)  // x87 fcw
}

fn write_segment(buf: &mut Vec<u8>, off: usize, selector: u64, attrib: u64, limit: u64, base: u64)
    requires
        off + 16 <= old(buf)@.len(),
    ensures
        final(buf)@ == segment(old(buf)@, off as nat, selector as nat, attrib as nat, limit as nat, base as nat),
        final(buf)@.len() == old(buf)@.len(),
{
    let len = buf.len();
    write_le(buf, off, selector, 2);
    write_le(buf, off + 2, attrib, 2);
    write_le(buf, off + 4, limit, 4);
    write_le(buf, off + 8, base, 8);
}

/// The initial architectural state of one vCPU, given by what sets it apart from the reset
/// state: the base of its code segment and its instruction pointer.
#[derive(Clone, Copy, Debug, PartialEq, Eq, Structural)]
pub struct VirtualCpuState {
    pub cs_base: u64,
    pub rip: u64,
}

impl VirtualCpuState {
    /// The save-area image of the state.
    pub open spec fn spec_image(self) -> Seq<u8> {
        vmsa_image(self.cs_base as nat, self.rip as nat)
    }

    /// Builds the save-area image of the state.
    pub fn to_bytes(&self) -> (r: Vec<u8>)
        ensures
            r@ == self.spec_image(),
    {
        reveal(vmsa_image);
        let mut buf: Vec<u8> = Vec::new();
        let mut i: usize = 0;
        while i < VMSA_SIZE
            invariant
                i <= VMSA_SIZE,
                buf@ == Seq::new(i as nat, |j: int| 0u8),
            decreases VMSA_SIZE - i,
        {
            buf.push(0u8);
            i = i + 1;
            assert(buf@ =~= Seq::new(i as nat, |j: int| 0u8));
        }
        write_segment(&mut buf, 0x00, 0, 0x93, 0xffff, 0);
        write_segment(&mut buf, 0x10, 0xf000, 0x9b, 0xffff, self.cs_base);
        write_segment(&mut buf, 0x20, 0, 0x93, 0xffff, 0);
        write_segment(&mut buf, 0x30, 0, 0x93, 0xffff, 0);
        write_segment(&mut buf, 0x40, 0, 0x93, 0xffff, 0);
        write_segment(&mut buf, 0x50, 0, 0x93, 0xffff, 0);
        write_segment(&mut buf, 0x60, 0, 0, 0xffff, 0);
        write_segment(&mut buf, 0x70, 0, 0x82, 0xffff, 0);
        write_segment(&mut buf, 0x80, 0, 0, 0xffff, 0);
        write_segment(&mut buf, 0x90, 0, 0x83, 0xffff, 0);
        write_le(&mut buf, 0xd0, 0x1000, 8);
        write_le(&mut buf, 0x148, 0x40, 8);
        write_le(&mut buf, 0x158, 0x10, 8);
        write_le(&mut buf, 0x160, 0x400, 8);
        write_le(&mut buf, 0x168, 0xffff0ff0, 8);
        write_le(&mut buf, 0x170, 0x2, 8);
        write_le(&mut buf, 0x178, self.rip, 8);
        write_le(&mut buf, 0x268, 0x0007040600070406, 8);
        write_le(&mut buf, 0x3b0, 0x1, 8);
        write_le(&mut buf, 0x3e8, 0x1, 8);
        write_le(&mut buf, 0x408, 0x1f80, 4);
        write_le(&mut buf, 0x410, 0x37f, 2);
        buf
    }
}

/// The state of the boot vCPU: the architectural reset state.
pub fn get_boot_vmsa() -> (r: VirtualCpuState)
    ensures
        r.cs_base == BOOT_CS_BASE,
        r.rip == BOOT_RIP,
{
    VirtualCpuState { cs_base: BOOT_CS_BASE, rip: BOOT_RIP }
}

/// The state of every additional vCPU: the reset state with its code segment and
/// instruction pointer taken from the firmware's SEV-ES reset block.
pub fn get_ap_vmsa(reset_block: &SevEsResetBlock) -> (r: VirtualCpuState)
    ensures
        r.cs_base == reset_block.spec_cs_base(),
        r.rip == reset_block.spec_ip(),
{
    VirtualCpuState { cs_base: reset_block.cs_base(), rip: reset_block.ip() }
}

} // verus!
