//! Field layouts of the memory-protection unit's region registers: the
//! offsets and values of the region-attribute fields and the conversion of a
//! base address into the form the region-base register takes. Writing the
//! registers themselves is hardware access and lives outside this crate.

use vstd::prelude::*;

verus! {

/// The region-enable bit of the region-attribute register.
pub const ENABLE: u32 = 1;

/// The execute-never field.
pub struct XN;

/// The access-permission field.
pub struct AccessPermission;

/// The region-size field, holding the size's exponent minus one.
pub struct RegionSize;

/// The type-extension field.
pub struct Tex;

/// The shareable bit.
pub struct S;

/// The cacheable bit.
pub struct C;

/// The bufferable bit.
pub struct B;

/// The subregion-disable field.
pub struct Srd;

/// The enable bit.
pub struct Enable;

impl XN {
    pub const OFFSET: u32 = 28;

    pub const ENABLE: u32 = 0x1000_0000;
}

impl AccessPermission {
    pub const OFFSET: u32 = 24;

    pub const NO_ACCESS: u32 = 0;

    pub const RW: u32 = 0x0300_0000;

    pub const RO: u32 = 0x0600_0000;

    pub const PRIVILEGED_RW: u32 = 0x0100_0000;

    pub const PRIVILEGED_RW_UNPRIVILEGED_RO: u32 = 0x0200_0000;

    pub const PRIVILEGED_RO: u32 = 0x0500_0000;
}

impl RegionSize {
    pub const OFFSET: u32 = 1;

    pub const _32B: u32 = 4 << 1;

    pub const _64B: u32 = 5 << 1;

    pub const _128B: u32 = 6 << 1;

    pub const _1KB: u32 = 9 << 1;

    pub const _64KB: u32 = 15 << 1;

    pub const _1MB: u32 = 19 << 1;

    pub const _2MB: u32 = 20 << 1;

    pub const _4MB: u32 = 21 << 1;

    pub const _8MB: u32 = 22 << 1;

    pub const _32MB: u32 = 24 << 1;

    pub const _256MB: u32 = 27 << 1;

    pub const _1GB: u32 = 29 << 1;

    pub const _4GB: u32 = 31 << 1;
}

impl Tex {
    pub const OFFSET: u32 = 19;
}

impl S {
    pub const OFFSET: u32 = 18;

    pub const ENABLE: u32 = 0x0004_0000;
}

impl C {
    pub const OFFSET: u32 = 17;

    pub const ENABLE: u32 = 0x0002_0000;
}

impl B {
    pub const OFFSET: u32 = 16;

    pub const ENABLE: u32 = 0x0001_0000;
}

impl Srd {
    pub const OFFSET: u32 = 8;
}

/// The address field of the region-base register.
pub struct Address;

/// The valid bit of the region-base register.
pub struct Valid;

/// The region-number field of the region-base register.
pub struct Region;

impl Address {
    pub const OFFSET: u32 = 5;

    /// A region base address as the region-base register takes it: the
    /// address with its low five bits cleared, since MPU regions are at
    /// least 32 bytes.
    pub fn conv(address: u32) -> (r: u32)
        ensures
            r == address & 0xFFFF_FFE0,
    {
        proof {
            assert(((address >> 5) << 5) == address & 0xFFFF_FFE0) by (bit_vector);
        }
        (address >> 5) << 5
    }
}

impl Valid {
    pub const OFFSET: u32 = 4;
}

impl Region {
    pub const OFFSET: u32 = 0;
}

} // verus!
