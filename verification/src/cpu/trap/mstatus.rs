//! The fields of the machine status register.
use vstd::prelude::*;

verus! {

/// User interrupt enable.
pub const UIE: u32 = 0;

/// Supervisor interrupt enable.
pub const SIE: u32 = 1;

/// Machine interrupt enable.
pub const MIE: u32 = 3;

/// User previous interrupt enable.
pub const UPIE: u32 = 4;

/// Supervisor previous interrupt enable.
pub const SPIE: u32 = 5;

/// Machine previous interrupt enable.
pub const MPIE: u32 = 7;

/// Supervisor previous privilege, one bit.
pub const SPP: u32 = 8;

/// Machine previous privilege, two bits.
pub const MPP: u32 = 11;

/// Floating-point unit state, two bits.
pub const FS: u32 = 13;

/// Extension state, two bits.
pub const XS: u32 = 15;

/// Modify privilege.
pub const MPRV: u32 = 17;

/// Supervisor user memory access.
pub const SUM: u32 = 18;

/// Make executable readable.
pub const MXR: u32 = 19;

/// Trap virtual memory.
pub const TVM: u32 = 20;

/// Timeout wait.
pub const TW: u32 = 21;

/// Trap `SRET`.
pub const TSR: u32 = 22;

/// State dirty.
pub const SD: u32 = 31;

pub const MIE_MASK: u32 = 0x8;

pub const MPIE_MASK: u32 = 0x80;

pub const MPP_MASK: u32 = 0x1800;

pub const SIE_MASK: u32 = 0x2;

pub const SPIE_MASK: u32 = 0x20;

pub const SPP_MASK: u32 = 0x100;

/// The bits of the three fields that a machine-mode trap and its return
/// rewrite: `MIE`, `MPIE` and `MPP`.
pub const MACHINE_TRAP_FIELDS: u32 = 0x1888;

/// The bits of the three fields that a supervisor-mode trap return rewrites:
/// `SIE`, `SPIE` and `SPP`.
pub const SUPERVISOR_TRAP_FIELDS: u32 = 0x122;

/// The `MPP` field: bits `[12:11]`.
pub open spec fn spec_read_mpp(mstatus: u32) -> u8 {
    ((mstatus >> 11) & 0x3) as u8
}

/// The `MIE` field: bit 3.
pub open spec fn spec_read_mie(mstatus: u32) -> bool {
    mstatus & 0x8 != 0
}

/// The `MPIE` field: bit 7.
pub open spec fn spec_read_mpie(mstatus: u32) -> bool {
    mstatus & 0x80 != 0
}

/// The `SIE` field: bit 1.
pub open spec fn spec_read_sie(mstatus: u32) -> bool {
    mstatus & 0x2 != 0
}

/// The `SPIE` field: bit 5.
pub open spec fn spec_read_spie(mstatus: u32) -> bool {
    mstatus & 0x20 != 0
}

/// The `SPP` field: bit 8.
pub open spec fn spec_read_spp(mstatus: u32) -> u8 {
    ((mstatus >> 8) & 0x1) as u8
}

/// `mstatus` with the low two bits of `mpp` in the `MPP` field.
pub open spec fn spec_write_mpp(mstatus: u32, mpp: u8) -> u32 {
    (mstatus & !0x1800u32) | (((mpp & 0x3) as u32) << 11)
}

/// The status word after trap entry from a mode whose encoding is
/// `privilege`: `MPIE` takes the value of `MIE`, `MIE` is cleared and `MPP`
/// takes `privilege`.
pub open spec fn spec_trap_entry(mstatus: u32, privilege: u8) -> u32 {
    let saved = if spec_read_mie(mstatus) {
        mstatus | 0x80
    } else {
        mstatus & !0x80u32
    };
    spec_write_mpp(saved & !0x8u32, privilege)
}

/// The status word after `MRET`: `MIE` takes the value of `MPIE`, `MPP` is
/// cleared and `MPIE` is set.
pub open spec fn spec_trap_return(mstatus: u32) -> u32 {
    let restored = if spec_read_mpie(mstatus) {
        mstatus | 0x8
    } else {
        mstatus & !0x8u32
    };
    spec_write_mpp(restored, 0) | 0x80
}

/// The status word after `SRET`: `SIE` takes the value of `SPIE`, `SPP` is
/// cleared and `SPIE` is set.
pub open spec fn spec_supervisor_return(sstatus: u32) -> u32 {
    let restored = if spec_read_spie(sstatus) {
        sstatus | 0x2
    } else {
        sstatus & !0x2u32
    };
    (restored & !0x100u32) | 0x20
}

/// Reads the `MPP` field.
pub fn read_mpp(mstatus: u32) -> (r: u8)
    ensures
        r == spec_read_mpp(mstatus),
        r < 4,
{
    assert((mstatus >> 11) & 0x3 < 4) by (bit_vector);
    ((mstatus >> MPP) & 0x3) as u8
}

/// Writes the low two bits of `mpp` to the `MPP` field.
pub fn write_mpp(mstatus: u32, mpp: u8) -> (r: u32)
    ensures
        r == spec_write_mpp(mstatus, mpp),
{
    (mstatus & !MPP_MASK) | (((mpp & 0x3) as u32) << MPP)
}

/// Reads the `MIE` field.
pub fn read_mie(mstatus: u32) -> (r: bool)
    ensures
        r == spec_read_mie(mstatus),
{
    (mstatus & MIE_MASK) != 0
}

/// Reads the `MPIE` field.
pub fn read_mpie(mstatus: u32) -> (r: bool)
    ensures
        r == spec_read_mpie(mstatus),
{
    (mstatus & MPIE_MASK) != 0
}

/// Trap entry rewrites `MIE`, `MPIE` and `MPP` as the architecture asks, and
/// no other bit.
pub proof fn lemma_trap_entry(mstatus: u32, privilege: u8)
    requires
        privilege < 4,
    ensures
        spec_read_mpp(spec_trap_entry(mstatus, privilege)) == privilege,
        spec_read_mpie(spec_trap_entry(mstatus, privilege)) == spec_read_mie(mstatus),
        !spec_read_mie(spec_trap_entry(mstatus, privilege)),
        spec_trap_entry(mstatus, privilege) & !MACHINE_TRAP_FIELDS == mstatus
            & !MACHINE_TRAP_FIELDS,
{
    let set = spec_write_mpp((mstatus | 0x80) & !0x8u32, privilege);
    let clear = spec_write_mpp((mstatus & !0x80u32) & !0x8u32, privilege);
    assert(privilege < 4 ==> {
        &&& (((((mstatus | 0x80) & !0x8u32) & !0x1800u32) | (((privilege & 0x3) as u32) << 11))
            >> 11) & 0x3 == privilege as u32
        &&& ((((mstatus | 0x80) & !0x8u32) & !0x1800u32) | (((privilege & 0x3) as u32) << 11))
            & 0x80 != 0
        &&& ((((mstatus | 0x80) & !0x8u32) & !0x1800u32) | (((privilege & 0x3) as u32) << 11))
            & 0x8 == 0
        &&& ((((mstatus | 0x80) & !0x8u32) & !0x1800u32) | (((privilege & 0x3) as u32) << 11))
            & !0x1888u32 == mstatus & !0x1888u32
        &&& (((((mstatus & !0x80u32) & !0x8u32) & !0x1800u32) | (((privilege & 0x3) as u32)
            << 11)) >> 11) & 0x3 == privilege as u32
        &&& ((((mstatus & !0x80u32) & !0x8u32) & !0x1800u32) | (((privilege & 0x3) as u32) << 11))
            & 0x80 == 0
        &&& ((((mstatus & !0x80u32) & !0x8u32) & !0x1800u32) | (((privilege & 0x3) as u32) << 11))
            & 0x8 == 0
        &&& ((((mstatus & !0x80u32) & !0x8u32) & !0x1800u32) | (((privilege & 0x3) as u32) << 11))
            & !0x1888u32 == mstatus & !0x1888u32
    }) by (bit_vector);
}

/// `MRET` rewrites `MIE`, `MPIE` and `MPP` as the architecture asks, and no
/// other bit.
pub proof fn lemma_trap_return(mstatus: u32)
    ensures
        spec_read_mie(spec_trap_return(mstatus)) == spec_read_mpie(mstatus),
        spec_read_mpie(spec_trap_return(mstatus)),
        spec_read_mpp(spec_trap_return(mstatus)) == 0,
        spec_trap_return(mstatus) & !MACHINE_TRAP_FIELDS == mstatus & !MACHINE_TRAP_FIELDS,
{
    assert({
        &&& ((((mstatus | 0x8) & !0x1800u32) | (((0u8 & 0x3) as u32) << 11)) | 0x80) & 0x8 != 0
        &&& ((((mstatus | 0x8) & !0x1800u32) | (((0u8 & 0x3) as u32) << 11)) | 0x80) & 0x80 != 0
        &&& (((((mstatus | 0x8) & !0x1800u32) | (((0u8 & 0x3) as u32) << 11)) | 0x80) >> 11) & 0x3
            == 0
        &&& ((((mstatus | 0x8) & !0x1800u32) | (((0u8 & 0x3) as u32) << 11)) | 0x80) & !0x1888u32
            == mstatus & !0x1888u32
        &&& ((((mstatus & !0x8u32) & !0x1800u32) | (((0u8 & 0x3) as u32) << 11)) | 0x80) & 0x8
            == 0
        &&& ((((mstatus & !0x8u32) & !0x1800u32) | (((0u8 & 0x3) as u32) << 11)) | 0x80) & 0x80
            != 0
        &&& (((((mstatus & !0x8u32) & !0x1800u32) | (((0u8 & 0x3) as u32) << 11)) | 0x80) >> 11)
            & 0x3 == 0
        &&& ((((mstatus & !0x8u32) & !0x1800u32) | (((0u8 & 0x3) as u32) << 11)) | 0x80)
            & !0x1888u32 == mstatus & !0x1888u32
    }) by (bit_vector);
}

/// `SRET` rewrites `SIE`, `SPIE` and `SPP` as the architecture asks, and no
/// other bit.
pub proof fn lemma_supervisor_return(sstatus: u32)
    ensures
        spec_read_sie(spec_supervisor_return(sstatus)) == spec_read_spie(sstatus),
        spec_read_spie(spec_supervisor_return(sstatus)),
        spec_read_spp(spec_supervisor_return(sstatus)) == 0,
        spec_supervisor_return(sstatus) & !SUPERVISOR_TRAP_FIELDS == sstatus
            & !SUPERVISOR_TRAP_FIELDS,
{
    assert({
        &&& (((sstatus | 0x2) & !0x100u32) | 0x20) & 0x2 != 0
        &&& (((sstatus | 0x2) & !0x100u32) | 0x20) & 0x20 != 0
        &&& ((((sstatus | 0x2) & !0x100u32) | 0x20) >> 8) & 0x1 == 0
        &&& (((sstatus | 0x2) & !0x100u32) | 0x20) & !0x122u32 == sstatus & !0x122u32
        &&& (((sstatus & !0x2u32) & !0x100u32) | 0x20) & 0x2 == 0
        &&& (((sstatus & !0x2u32) & !0x100u32) | 0x20) & 0x20 != 0
        &&& ((((sstatus & !0x2u32) & !0x100u32) | 0x20) >> 8) & 0x1 == 0
        &&& (((sstatus & !0x2u32) & !0x100u32) | 0x20) & !0x122u32 == sstatus & !0x122u32
    }) by (bit_vector);
}

} // verus!
