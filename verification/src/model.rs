//! The mathematical model of the chip's memory array: what an erase and a
//! program do to the 8 MiB byte sequence, and the laws those operations obey.

use vstd::prelude::*;
use crate::geometry::{
    lemma_sector_of_owns, sector_of, sector_size, sector_start, FLASH_SIZE, N_SECTORS,
};

verus! {

/// The value every byte of an erased range reads back as, for this chip family.
pub const ERASED_BYTE: u8 = 0xFF;

/// The memory array after erasing `len` bytes starting at `start`.
pub open spec fn erase_range(m: Seq<u8>, start: int, len: int) -> Seq<u8> {
    Seq::new(m.len(), |i: int| if start <= i < start + len { ERASED_BYTE } else { m[i] })
}

/// The memory array after programming `data` at offset `at`.
pub open spec fn overwrite(m: Seq<u8>, at: int, data: Seq<u8>) -> Seq<u8> {
    Seq::new(
        m.len(),
        |i: int| if at <= i < at + data.len() { data[i - at] } else { m[i] },
    )
}

/// A fully erased memory array of `len` bytes.
pub open spec fn erased_mem(len: nat) -> Seq<u8> {
    Seq::new(len, |i: int| ERASED_BYTE)
}

/// Every sector's address range lies inside the chip.
pub proof fn lemma_sector_range_in_bounds(s: int)
    requires
        0 <= s < N_SECTORS,
    ensures
        0 <= sector_start(s),
        sector_start(s) + sector_size(s) <= FLASH_SIZE,
{
}

/// Round trip: after erasing the range a sector owns, every byte inside that
/// range reads back as the chip's erased value.
pub proof fn lemma_erase_sector_round_trip(m: Seq<u8>, s: int, i: int)
    requires
        m.len() == FLASH_SIZE,
        0 <= s < N_SECTORS,
        sector_start(s) <= i < sector_start(s) + sector_size(s),
    ensures
        erase_range(m, sector_start(s), sector_size(s))[i] == ERASED_BYTE,
{
    lemma_sector_range_in_bounds(s);
}

/// Erasing one sector touches exactly the bytes that sector owns: a byte
/// reads as the erased value afterwards when its offset belongs to the
/// sector, and keeps its value otherwise.
pub proof fn lemma_erase_sector_exact(m: Seq<u8>, s: int, i: int)
    requires
        m.len() == FLASH_SIZE,
        0 <= s < N_SECTORS,
        0 <= i < FLASH_SIZE,
    ensures
        erase_range(m, sector_start(s), sector_size(s))[i] == (if sector_of(i) == s {
            ERASED_BYTE
        } else {
            m[i]
        }),
{
    lemma_sector_of_owns(i, s);
}

/// Erasing leaves every byte outside the erased range unchanged.
pub proof fn lemma_erase_preserves_outside(m: Seq<u8>, start: int, len: int, i: int)
    requires
        0 <= i < m.len(),
        !(start <= i < start + len),
    ensures
        erase_range(m, start, len)[i] == m[i],
{
}

/// Idempotence: erasing an already-erased range changes nothing, so erasing
/// twice is observably the same as erasing once.
pub proof fn lemma_erase_idempotent(m: Seq<u8>, start: int, len: int)
    ensures
        erase_range(erase_range(m, start, len), start, len) == erase_range(m, start, len),
{
    assert(erase_range(erase_range(m, start, len), start, len) =~= erase_range(
        m,
        start,
        len,
    ));
}

/// Split correctness: programming one run of bytes is byte-identical to
/// programming any front part first and the rest at the address right after
/// it, so splitting a request at page boundaries cannot change the result.
pub proof fn lemma_program_split(m: Seq<u8>, at: int, d1: Seq<u8>, d2: Seq<u8>)
    requires
        0 <= at,
        at + d1.len() + d2.len() <= m.len(),
    ensures
        overwrite(overwrite(m, at, d1), at + d1.len(), d2) == overwrite(m, at, d1 + d2),
{
    assert(overwrite(overwrite(m, at, d1), at + d1.len(), d2) =~= overwrite(
        m,
        at,
        d1 + d2,
    ));
}

/// Programming nothing changes nothing.
pub proof fn lemma_overwrite_empty(m: Seq<u8>, at: int)
    ensures
        overwrite(m, at, Seq::<u8>::empty()) == m,
{
    assert(overwrite(m, at, Seq::<u8>::empty()) =~= m);
}

/// A fully erased chip reads as the erased value everywhere, in particular at
/// the first and last byte of every sector.
pub proof fn lemma_erased_mem_reads_erased(len: nat, i: int)
    requires
        0 <= i < len,
    ensures
        erased_mem(len)[i] == ERASED_BYTE,
{
}

} // verus!
