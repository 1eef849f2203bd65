//! The DFU translation layer: adapts the USB firmware-update protocol's
//! abstract erase/program/read/manifest operations onto the geometry and
//! lifecycle layers. It owns the host-side transfer buffer and an indirect
//! flash handle; addresses arriving from the host are offsets into the
//! mapped window and are rebased onto the chip before they reach the driver.

use vstd::prelude::*;
use crate::buffer::{
    buffer_as_slice, buffer_clear, buffer_extend, buffer_len, buffer_new, transfer_bytes,
    TRANSFER_CAPACITY,
};
use crate::chip::{chip_settings_unchanged, chip_unchanged_but_busy, spec_page_chunks};
use crate::external_flash::{ExternalFlash, Indirect};
use crate::geometry::{
    sector_at_address, sector_of, sector_size, sector_start, FLASH_END, FLASH_SIZE, FLASH_START,
};
use crate::model::{erase_range, erased_mem, overwrite};
use vstd::slice::slice_subrange;

verus! {

/// Host-visible failures of the translation layer.
#[derive(Clone, Copy, PartialEq, Eq, Structural, Debug)]
pub enum DfuError {
    /// The request does not lie inside the mapped window.
    OutOfRange,
    /// The request asks for more bytes than the transfer buffer holds.
    Oversized,
}

/// What the device does after a successful update. The policy is an explicit
/// configuration choice: the host-side tooling's expectations depend on
/// which one is advertised.
#[derive(Clone, Copy, PartialEq, Eq, Structural, Debug)]
pub enum ManifestAction {
    /// Manifestation-tolerant firmware: perform a system reset.
    SystemReset,
    /// Non-tolerant firmware: spin until the host resets the device.
    WaitForReset,
}

/// The translation layer: an indirect flash handle, the bounded transfer
/// buffer, and the manifestation policy.
pub struct QspiDfu {
    pub flash: ExternalFlash<Indirect>,
    pub buffer: heapless::Vec<u8, 1024>,
    pub manifestation_tolerant: bool,
}

impl QspiDfu {
    /// The layer's invariant: a well-formed indirect handle and a buffer
    /// within its configured transfer size.
    pub open spec fn wf(self) -> bool {
        &&& self.flash.wf()
        &&& transfer_bytes(self.buffer).len() <= TRANSFER_CAPACITY
    }

    /// Wrap an initialized indirect handle. The transfer buffer starts
    /// empty and the manifestation policy defaults to the non-tolerant
    /// variant.
    pub fn new(flash: ExternalFlash<Indirect>) -> (d: QspiDfu)
        requires
            flash.wf(),
        ensures
            d.wf(),
            d.flash == flash,
            transfer_bytes(d.buffer) == Seq::<u8>::empty(),
            !d.manifestation_tolerant,
    {
        QspiDfu { flash, buffer: buffer_new(), manifestation_tolerant: false }
    }

    /// Choose the manifestation policy.
    pub fn set_manifestation_tolerant(&mut self, tolerant: bool)
        ensures
            final(self).manifestation_tolerant == tolerant,
            final(self).flash == old(self).flash,
            final(self).buffer == old(self).buffer,
    {
        self.manifestation_tolerant = tolerant;
    }

    /// Copy one host transfer into the bounded buffer. A transfer larger
    /// than the configured transfer size is rejected and the buffer keeps
    /// its previous contents.
    pub fn store_write_buffer(&mut self, src: &[u8]) -> (r: Result<(), ()>)
        requires
            old(self).wf(),
        ensures
            final(self).wf(),
            r is Ok <==> src@.len() <= TRANSFER_CAPACITY,
            r is Ok ==> transfer_bytes(final(self).buffer) == src@,
            r is Err ==> transfer_bytes(final(self).buffer) == transfer_bytes(
                old(self).buffer,
            ),
            final(self).flash == old(self).flash,
            final(self).manifestation_tolerant == old(self).manifestation_tolerant,
    {
        if src.len() > TRANSFER_CAPACITY {
            return Err(());
        }
        buffer_clear(&mut self.buffer);
        let filled = buffer_extend(&mut self.buffer, src);
        proof {
            assert(filled is Ok);
        }
        Ok(())
    }

    /// Read `length` bytes starting at the mapped `address`, one byte at a
    /// time through the indirect-read path. Succeeds exactly on requests
    /// that lie inside the mapped window.
    pub fn read(&mut self, address: u32, length: usize) -> (r: Result<Vec<u8>, DfuError>)
        requires
            old(self).wf(),
        ensures
            final(self).wf(),
            r is Ok <==> FLASH_START <= address && address - FLASH_START + length <= FLASH_SIZE,
            r matches Ok(data) ==> data@ == old(self).flash.chip.mem@.subrange(
                address - FLASH_START,
                address - FLASH_START + length,
            ),
            chip_unchanged_but_busy(old(self).flash.chip, final(self).flash.chip, 0),
            final(self).buffer == old(self).buffer,
            final(self).manifestation_tolerant == old(self).manifestation_tolerant,
    {
        if address < FLASH_START {
            return Err(DfuError::OutOfRange);
        }
        let offset: u32 = address - FLASH_START;
        if offset > FLASH_SIZE {
            return Err(DfuError::OutOfRange);
        }
        if length > (FLASH_SIZE - offset) as usize {
            return Err(DfuError::OutOfRange);
        }
        let mut out: Vec<u8> = Vec::new();
        let mut i: usize = 0;
        #[verifier::loop_isolation(false)]
        while i < length
            invariant
                i <= length,
                self.flash.wf(),
                chip_unchanged_but_busy(old(self).flash.chip, self.flash.chip, 0),
                self.buffer == old(self).buffer,
                self.manifestation_tolerant == old(self).manifestation_tolerant,
                out@ =~= old(self).flash.chip.mem@.subrange(
                    offset as int,
                    offset + i,
                ),
            decreases length - i,
        {
            let byte = self.flash.read_byte(offset + i as u32);
            out.push(byte);
            i = i + 1;
            proof {
                assert(out@ =~= old(self).flash.chip.mem@.subrange(offset as int, offset + i));
            }
        }
        Ok(out)
    }

    /// Program the first `length` bytes of the stored transfer buffer at
    /// the mapped `address`, splitting at page boundaries. Succeeds exactly
    /// when the request lies inside the window and the buffer holds at
    /// least `length` bytes.
    pub fn program(&mut self, address: u32, length: usize) -> (r: Result<(), DfuError>)
        requires
            old(self).wf(),
        ensures
            final(self).wf(),
            r is Ok <==> FLASH_START <= address && address - FLASH_START + length <= FLASH_SIZE
                && length <= transfer_bytes(old(self).buffer).len(),
            r is Ok ==> final(self).flash.chip.mem@ == overwrite(
                old(self).flash.chip.mem@,
                address - FLASH_START,
                transfer_bytes(old(self).buffer).take(length as int),
            ),
            r is Ok ==> final(self).flash.chip.page_programs@ == old(
                self,
            ).flash.chip.page_programs@ + spec_page_chunks(
                address - FLASH_START,
                length as int,
            ),
            r is Err ==> final(self).flash.chip.mem@ == old(self).flash.chip.mem@
                && final(self).flash.chip.page_programs@ == old(self).flash.chip.page_programs@,
            chip_settings_unchanged(old(self).flash.chip, final(self).flash.chip),
            transfer_bytes(final(self).buffer) == transfer_bytes(old(self).buffer),
            final(self).manifestation_tolerant == old(self).manifestation_tolerant,
    {
        if address < FLASH_START {
            return Err(DfuError::OutOfRange);
        }
        let offset: u32 = address - FLASH_START;
        if offset > FLASH_SIZE {
            return Err(DfuError::OutOfRange);
        }
        if length > (FLASH_SIZE - offset) as usize {
            return Err(DfuError::OutOfRange);
        }
        if length > buffer_len(&self.buffer) {
            return Err(DfuError::Oversized);
        }
        let stored = buffer_as_slice(&self.buffer);
        let part = slice_subrange(stored, 0, length);
        self.flash.write_memory(offset, part);
        proof {
            assert(transfer_bytes(self.buffer).subrange(0, length as int) =~= transfer_bytes(
                self.buffer,
            ).take(length as int));
        }
        Ok(())
    }

    /// Erase the sector owning the mapped `address`. Succeeds exactly on
    /// addresses inside the mapped window.
    pub fn erase(&mut self, address: u32) -> (r: Result<(), DfuError>)
        requires
            old(self).wf(),
        ensures
            final(self).wf(),
            r is Ok <==> FLASH_START <= address < FLASH_END,
            r is Ok ==> final(self).flash.chip.mem@ == erase_range(
                old(self).flash.chip.mem@,
                sector_start(sector_of(address - FLASH_START)),
                sector_size(sector_of(address - FLASH_START)),
            ),
            r is Err ==> final(self).flash.chip.mem@ == old(self).flash.chip.mem@,
            final(self).flash.chip.page_programs@ == old(self).flash.chip.page_programs@,
            transfer_bytes(final(self).buffer) == transfer_bytes(old(self).buffer),
            final(self).manifestation_tolerant == old(self).manifestation_tolerant,
    {
        if address < FLASH_START {
            return Err(DfuError::OutOfRange);
        }
        if address >= FLASH_END {
            return Err(DfuError::OutOfRange);
        }
        let sector = sector_at_address(address);
        self.flash.erase_sector(sector);
        Ok(())
    }

    /// Erase the whole chip: afterwards every byte of the window, in
    /// particular the first and last byte of every sector, reads back as
    /// the erased value.
    pub fn erase_all(&mut self) -> (r: Result<(), DfuError>)
        requires
            old(self).wf(),
        ensures
            final(self).wf(),
            r is Ok,
            final(self).flash.chip.mem@ == erased_mem(FLASH_SIZE as nat),
            final(self).flash.chip.page_programs@ == old(self).flash.chip.page_programs@,
            transfer_bytes(final(self).buffer) == transfer_bytes(old(self).buffer),
            final(self).manifestation_tolerant == old(self).manifestation_tolerant,
    {
        self.flash.erase_all();
        Ok(())
    }

    /// What the device should do after a successful update, per the
    /// configured policy. The surrounding runtime performs the action:
    /// a system reset, or spinning until the host resets the device.
    pub fn manifestation(&self) -> (r: ManifestAction)
        ensures
            r == (if self.manifestation_tolerant {
                ManifestAction::SystemReset
            } else {
                ManifestAction::WaitForReset
            }),
    {
        if self.manifestation_tolerant {
            ManifestAction::SystemReset
        } else {
            ManifestAction::WaitForReset
        }
    }
}

/// The memory-layout descriptor string advertised to the DFU host: the
/// three erase-granularity regions of the mapped window, in the format the
/// DFU class expects.
pub fn mem_info_string() -> (r: &'static str)
    ensures
        r@ == "@ExternalFlash/0x90000000/08*004Kg,01*032Kg,63*064Kg,64*064Kg"@,
{
    "@ExternalFlash/0x90000000/08*004Kg,01*032Kg,63*064Kg,64*064Kg"
}

} // verus!
