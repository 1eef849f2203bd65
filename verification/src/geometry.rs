//! Addressing geometry of the 8 MiB chip: three erase-unit classes share the
//! linear address space (eight 4 KiB blocks, one 32 KiB block, then 127 blocks
//! of 64 KiB), and programming is bounded by 256-byte pages.

use vstd::prelude::*;
use vstd::arithmetic::div_mod::{
    lemma_div_is_ordered, lemma_div_pos_is_pos, lemma_fundamental_div_mod_converse,
    lemma_remainder,
};

verus! {

/// Bits of a chip address (2^23 bytes = 8 MiB).
pub const FLASH_ADDRESS_SIZE: u8 = 23;

/// Total capacity of the chip in bytes (2^23 = 8 MiB).
pub const FLASH_SIZE: u32 = 0x0080_0000;

/// Base address of the memory-mapped window through which the chip is read.
pub const FLASH_START: u32 = 0x9000_0000;

/// One past the last memory-mapped address.
pub const FLASH_END: u32 = FLASH_START + FLASH_SIZE;

/// Number of 4 KiB erase units at the bottom of the address space.
pub const N_4K_SECTORS: u8 = 8;

/// Number of 32 KiB erase units above them.
pub const N_32K_SECTORS: u8 = 1;

/// Number of 64 KiB erase units filling the remainder.
pub const N_64K_SECTORS: u8 = 127;

/// Total number of erase units; sector indices lie in [0, N_SECTORS).
pub const N_SECTORS: u8 = N_4K_SECTORS + N_32K_SECTORS + N_64K_SECTORS;

/// Size in bytes of one erase unit of each class.
pub const SIZE_4K: u32 = 0x1000;
pub const SIZE_32K: u32 = 0x8000;
pub const SIZE_64K: u32 = 0x0001_0000;

/// Largest run of bytes one program instruction can write.
pub const PAGE_SIZE: u32 = 256;

/// The erase unit that owns the byte at `offset` (an offset from the start of
/// the chip). The three granularities must be tested from the largest down:
/// tested independently their shifted indices overlap, and only this order
/// assigns each address a unique sector.
pub open spec fn sector_of(offset: int) -> int {
    if offset >= SIZE_64K {
        (N_4K_SECTORS + N_32K_SECTORS - 1) + offset / (SIZE_64K as int)
    } else if offset >= SIZE_32K {
        N_4K_SECTORS as int
    } else {
        offset / (SIZE_4K as int)
    }
}

/// First offset owned by sector `s`.
pub open spec fn sector_start(s: int) -> int {
    if s < N_4K_SECTORS {
        s * SIZE_4K
    } else if s == N_4K_SECTORS {
        SIZE_32K as int
    } else {
        (s - N_4K_SECTORS) * SIZE_64K
    }
}

/// Number of bytes owned by sector `s`.
pub open spec fn sector_size(s: int) -> int {
    if s < N_4K_SECTORS {
        SIZE_4K as int
    } else if s == N_4K_SECTORS {
        SIZE_32K as int
    } else {
        SIZE_64K as int
    }
}

/// The sector index owning the mapped address `address`. Addresses outside
/// the mapped window have no sector and are excluded by the precondition.
pub fn sector_at_address(address: u32) -> (sector: u8)
    requires
        FLASH_START <= address < FLASH_END,
    ensures
        sector == sector_of((address - FLASH_START) as int),
        sector < N_SECTORS,
{
    let offset: u32 = address - FLASH_START;
    proof {
        lemma_div_window(offset as int, SIZE_64K as int);
        lemma_div_window(offset as int, SIZE_4K as int);
    }
    let index: u32 = offset / SIZE_64K;
    if index >= 1 {
        return (N_4K_SECTORS + N_32K_SECTORS - 1) + (index as u8);
    }
    let index: u32 = offset / SIZE_32K;
    if index >= 1 {
        return N_4K_SECTORS;
    }
    let index: u32 = offset / SIZE_4K;
    index as u8
}

/// `x` lies in the window of width `d` that starts at the multiple
/// `d * (x / d)`.
proof fn lemma_div_window(x: int, d: int)
    requires
        x >= 0,
        d > 0,
    ensures
        (x / d) * d <= x < (x / d) * d + d,
        x / d >= 0,
{
    lemma_remainder(x, d);
    lemma_div_pos_is_pos(x, d);
}

/// A value inside the `q`-th window of width `d` divides down to `q`.
proof fn lemma_div_exact(x: int, d: int, q: int)
    requires
        d > 0,
        0 <= q,
        q * d <= x < q * d + d,
    ensures
        x / d == q,
{
    lemma_fundamental_div_mod_converse(x, d, q, x - q * d);
}

/// Every in-range offset is owned by exactly one valid sector index.
pub proof fn lemma_sector_of_bounds(offset: int)
    requires
        0 <= offset < FLASH_SIZE,
    ensures
        0 <= sector_of(offset) < N_SECTORS,
{
    lemma_div_window(offset, SIZE_64K as int);
    lemma_div_window(offset, SIZE_4K as int);
}

/// The sector index never decreases as the offset increases.
pub proof fn lemma_sector_of_monotonic(a: int, b: int)
    requires
        0 <= a <= b < FLASH_SIZE,
    ensures
        sector_of(a) <= sector_of(b),
{
    lemma_div_window(a, SIZE_4K as int);
    lemma_div_window(b, SIZE_64K as int);
    if a >= SIZE_64K {
        lemma_div_is_ordered(a, b, SIZE_64K as int);
    } else if a < SIZE_32K && b < SIZE_32K {
        lemma_div_is_ordered(a, b, SIZE_4K as int);
    }
}

/// A sector owns exactly the offsets in
/// [sector_start, sector_start + sector_size): `sector_of` and the sector
/// ranges agree, so the ranges neither overlap nor leave gaps.
pub proof fn lemma_sector_of_owns(offset: int, s: int)
    requires
        0 <= offset < FLASH_SIZE,
        0 <= s < N_SECTORS,
    ensures
        sector_of(offset) == s <==> sector_start(s) <= offset
            < sector_start(s) + sector_size(s),
{
    lemma_div_window(offset, SIZE_64K as int);
    lemma_div_window(offset, SIZE_4K as int);
    if sector_start(s) <= offset < sector_start(s) + sector_size(s) {
        if s > N_4K_SECTORS {
            lemma_div_exact(offset, SIZE_64K as int, s - N_4K_SECTORS);
        } else if s < N_4K_SECTORS {
            lemma_div_exact(offset, SIZE_4K as int, s);
        }
    }
}

/// Distinct sectors own disjoint address ranges.
pub proof fn lemma_sector_ranges_disjoint(s1: int, s2: int, offset: int)
    requires
        0 <= s1 < N_SECTORS,
        0 <= s2 < N_SECTORS,
        s1 != s2,
        0 <= offset < FLASH_SIZE,
    ensures
        !(sector_start(s1) <= offset < sector_start(s1) + sector_size(s1)
            && sector_start(s2) <= offset < sector_start(s2) + sector_size(s2)),
{
    lemma_sector_of_owns(offset, s1);
    lemma_sector_of_owns(offset, s2);
}

} // verus!
