//! The flash driver: a type-state handle over the simulated bus peripheral
//! and chip. The lifecycle runs Uninitialized -> Indirect -> MemoryMapped;
//! operations illegal in a given lifecycle state do not exist on that handle,
//! so issuing them is rejected at compile time, and the transitions consume
//! the old handle.

use vstd::prelude::*;
use vstd::arithmetic::div_mod::lemma_mod_multiples_basic;
use vstd::slice::slice_subrange;
use core::marker::PhantomData;
use crate::chip::{
    chip_read_effect, chip_settings_unchanged, chip_unchanged_but_busy,
    chip_unchanged_but_continuous, chip_write_effect, read_command_ok, spec_page_chunks,
    write_command_ok, FlashChip, PageProgramCall, BUSY_POLLS,
};
use crate::commands::Command;
use crate::geometry::{
    sector_size, sector_start, FLASH_ADDRESS_SIZE, FLASH_SIZE, N_32K_SECTORS, N_4K_SECTORS,
    N_SECTORS, PAGE_SIZE, SIZE_32K, SIZE_4K, SIZE_64K,
};
use crate::model::{erase_range, erased_mem, overwrite};
use crate::qspi::{OperatingModes, QspiMode, QspiSize, QspiWidth};
use crate::regs::{spec_regs_after, PhaseConfig, QspiRegisters};

verus! {

/// The driver's error type: a bounded busy-wait ran out of polls.
#[derive(Clone, Copy, PartialEq, Eq, Structural, Debug)]
pub enum FlashError {
    HardwareTimeout,
}

/// Lifecycle marker: the chip has not been initialized.
pub struct Uninitialized;

/// Lifecycle marker: the handle issues explicit indirect transactions.
pub struct Indirect;

/// Lifecycle marker: the peripheral serves reads transparently; no indirect
/// transaction may be issued until the handle is converted back.
pub struct MemoryMapped;

/// The alternate byte that asks the chip to stay in continuous-read mode.
pub const CONT_READ_ENTER: u32 = 0xA0;

/// The complemented alternate byte that cancels the continuous-read latch.
pub const CONT_READ_EXIT: u32 = 0xFFFF_FF5F;

/// How many polls of the write-in-progress flag a wait may spend before it
/// fails with a hardware timeout.
pub const WAIT_RETRIES: u32 = 64;

/// The driver handle: the simulated chip and the peripheral's registers,
/// tagged with the lifecycle state.
pub struct ExternalFlash<STATE> {
    pub chip: FlashChip,
    pub regs: QspiRegisters,
    pub state: PhantomData<STATE>,
}

/// The bytes of an optional data phase.
pub open spec fn opt_bytes(data: Option<&[u8]>) -> Seq<u8> {
    match data {
        Some(d) => d@,
        None => Seq::<u8>::empty(),
    }
}

impl<STATE> ExternalFlash<STATE> {
    /// Issue one transaction: resolve the previous functional mode and abort
    /// it where the transition requires it, program the phase configuration,
    /// lengths, alternate bytes and address, run the data phase against the
    /// chip, and block until the controller goes idle (a memory-mapped
    /// transaction stays active instead). While the chip's continuous-read
    /// latch is set, the only transaction the chip can decode is the
    /// cancelling read, so everything else is ruled out up front. Private:
    /// the lifecycle-typed handles expose it where it is legal.
    #[verifier::rlimit(60)]
    fn transact(
        &mut self,
        mode: QspiMode,
        op_mode: OperatingModes,
        command: Command,
        address: u32,
        alt_bytes: u32,
        alt_byte_count: u8,
        dummy_cycles: u8,
        data: Option<&[u8]>,
        read_length: u32,
    ) -> (r: Vec<u8>)
        requires
            old(self).chip.wf(),
            alt_byte_count <= 4,
            match mode {
                QspiMode::IndirectWrite => {
                    &&& read_length == 0
                    &&& write_command_ok(old(self).chip, command, address, opt_bytes(data))
                },
                QspiMode::IndirectRead => {
                    &&& data is None
                    &&& if old(self).chip.continuous_read {
                        &&& command is FastReadQuadIO
                        &&& alt_byte_count == 1
                        &&& alt_bytes == CONT_READ_EXIT
                        &&& read_length == 1
                        &&& address == 0
                    } else {
                        read_command_ok(old(self).chip, command, address, read_length)
                    }
                },
                QspiMode::AutoPolling => false,
                QspiMode::MemoryMapped => {
                    &&& command is FastReadQuadIO
                    &&& address == FLASH_SIZE
                    &&& alt_bytes == CONT_READ_ENTER
                    &&& alt_byte_count == 1
                    &&& data is None
                    &&& read_length == 0
                    &&& !old(self).chip.continuous_read
                    &&& !old(self).chip.powered_down
                    &&& old(self).chip.busy_polls == 0
                },
            },
        ensures
            final(self).chip.wf(),
            final(self).regs == spec_regs_after(
                old(self).regs,
                mode,
                op_mode,
                command,
                address,
                alt_bytes,
                alt_byte_count,
                dummy_cycles,
                (mode is IndirectWrite && data is Some) || (mode is IndirectRead
                    && read_length > 0),
                if mode is IndirectWrite {
                    opt_bytes(data).len() as u32
                } else {
                    read_length
                },
            ),
            match mode {
                QspiMode::IndirectWrite => {
                    &&& chip_write_effect(
                        old(self).chip,
                        final(self).chip,
                        command,
                        address,
                        opt_bytes(data),
                    )
                    &&& r@.len() == 0
                },
                QspiMode::IndirectRead => {
                    if old(self).chip.continuous_read {
                        &&& chip_unchanged_but_continuous(old(self).chip, final(self).chip, false)
                        &&& r@.len() == 1
                    } else {
                        chip_read_effect(
                            old(self).chip,
                            final(self).chip,
                            command,
                            address,
                            read_length,
                            r@,
                        )
                    }
                },
                QspiMode::AutoPolling => false,
                QspiMode::MemoryMapped => {
                    &&& chip_unchanged_but_continuous(old(self).chip, final(self).chip, true)
                    &&& r@.len() == 0
                },
            },
    {
        let memory_mapped = matches!(mode, QspiMode::MemoryMapped);
        // Resolve the previous functional mode.
        match self.regs.ccr.fmode {
            QspiMode::IndirectWrite | QspiMode::IndirectRead => {
                if memory_mapped {
                    self.regs.ar = 0;
                    if matches!(self.regs.ccr.fmode, QspiMode::IndirectRead) {
                        // Abort a possibly in-flight indirect read and block
                        // until the abort completes.
                        self.regs.busy = false;
                    }
                }
            },
            QspiMode::MemoryMapped => {
                if !memory_mapped {
                    // Abort the active memory-mapped transaction and block
                    // until the abort completes.
                    self.regs.busy = false;
                }
            },
            QspiMode::AutoPolling => {},
        }
        let has_data = match data {
            Some(_) => !matches!(mode, QspiMode::MemoryMapped),
            None => matches!(mode, QspiMode::IndirectRead) && read_length > 0,
        };
        let has_address = address != FLASH_SIZE;
        // Program the phase configuration; writing it replaces every field.
        self.regs.ccr = PhaseConfig {
            fmode: mode,
            dmode: if has_data || memory_mapped {
                op_mode.dmode()
            } else {
                QspiWidth::NoLane
            },
            dcyc: dummy_cycles,
            abmode: if alt_byte_count > 0 {
                op_mode.amode()
            } else {
                QspiWidth::NoLane
            },
            absize: if alt_byte_count > 0 {
                alt_byte_count - 1
            } else {
                0
            },
            admode: if has_address || memory_mapped {
                op_mode.amode()
            } else {
                QspiWidth::NoLane
            },
            adsize: if has_address || memory_mapped {
                QspiSize::ThreeBytes
            } else {
                QspiSize::OneByte
            },
            imode: op_mode.imode(),
            instruction: command.opcode(),
            sioo: memory_mapped,
        };
        if !memory_mapped {
            let data_length: u32 = match data {
                Some(d) => d.len() as u32,
                None => read_length,
            };
            self.regs.dlr = if data_length > 0 {
                data_length - 1
            } else {
                0
            };
        }
        if alt_byte_count > 0 {
            self.regs.abr = alt_bytes;
        }
        if has_address {
            self.regs.ar = address;
        }
        // The data phase, against the chip.
        let result: Vec<u8> = match mode {
            QspiMode::IndirectWrite => {
                match data {
                    Some(d) => self.chip.execute_write(command, address, d),
                    None => {
                        let empty: Vec<u8> = Vec::new();
                        self.chip.execute_write(command, address, empty.as_slice());
                    },
                }
                Vec::new()
            },
            QspiMode::IndirectRead => {
                if self.chip.continuous_read {
                    self.chip.cancel_continuous_read()
                } else {
                    self.chip.execute_read(command, address, read_length)
                }
            },
            QspiMode::AutoPolling => {
                // Excluded by the precondition.
                assert(false);
                Vec::new()
            },
            QspiMode::MemoryMapped => {
                self.chip.enter_continuous_read();
                Vec::new()
            },
        };
        // Block until the controller goes idle; a memory-mapped transaction
        // stays active until it is aborted.
        self.regs.busy = memory_mapped;
        result
    }
}

impl ExternalFlash<Indirect> {
    /// Issue one transaction with every phase spelled out: resolve and abort
    /// the previous functional mode where the transition requires it,
    /// program the phase configuration, lengths, alternate bytes and
    /// address, run the data phase against the chip, and block until the
    /// controller goes idle (a memory-mapped transaction stays active
    /// instead).
    pub fn send_command_full(
        &mut self,
        mode: QspiMode,
        op_mode: OperatingModes,
        command: Command,
        address: u32,
        alt_bytes: u32,
        alt_byte_count: u8,
        dummy_cycles: u8,
        data: Option<&[u8]>,
        read_length: u32,
    ) -> (r: Vec<u8>)
        requires
            old(self).chip.wf(),
            alt_byte_count <= 4,
            match mode {
                QspiMode::IndirectWrite => {
                    &&& read_length == 0
                    &&& write_command_ok(old(self).chip, command, address, opt_bytes(data))
                },
                QspiMode::IndirectRead => {
                    &&& data is None
                    &&& if old(self).chip.continuous_read {
                        &&& command is FastReadQuadIO
                        &&& alt_byte_count == 1
                        &&& alt_bytes == CONT_READ_EXIT
                        &&& read_length == 1
                        &&& address == 0
                    } else {
                        read_command_ok(old(self).chip, command, address, read_length)
                    }
                },
                QspiMode::AutoPolling => false,
                QspiMode::MemoryMapped => {
                    &&& command is FastReadQuadIO
                    &&& address == FLASH_SIZE
                    &&& alt_bytes == CONT_READ_ENTER
                    &&& alt_byte_count == 1
                    &&& data is None
                    &&& read_length == 0
                    &&& !old(self).chip.continuous_read
                    &&& !old(self).chip.powered_down
                    &&& old(self).chip.busy_polls == 0
                },
            },
        ensures
            final(self).chip.wf(),
            final(self).regs == spec_regs_after(
                old(self).regs,
                mode,
                op_mode,
                command,
                address,
                alt_bytes,
                alt_byte_count,
                dummy_cycles,
                (mode is IndirectWrite && data is Some) || (mode is IndirectRead
                    && read_length > 0),
                if mode is IndirectWrite {
                    opt_bytes(data).len() as u32
                } else {
                    read_length
                },
            ),
            match mode {
                QspiMode::IndirectWrite => {
                    &&& chip_write_effect(
                        old(self).chip,
                        final(self).chip,
                        command,
                        address,
                        opt_bytes(data),
                    )
                    &&& r@.len() == 0
                },
                QspiMode::IndirectRead => {
                    if old(self).chip.continuous_read {
                        &&& chip_unchanged_but_continuous(old(self).chip, final(self).chip, false)
                        &&& r@.len() == 1
                    } else {
                        chip_read_effect(
                            old(self).chip,
                            final(self).chip,
                            command,
                            address,
                            read_length,
                            r@,
                        )
                    }
                },
                QspiMode::AutoPolling => false,
                QspiMode::MemoryMapped => {
                    &&& chip_unchanged_but_continuous(old(self).chip, final(self).chip, true)
                    &&& r@.len() == 0
                },
            },
    {
        self.transact(
            mode,
            op_mode,
            command,
            address,
            alt_bytes,
            alt_byte_count,
            dummy_cycles,
            data,
            read_length,
        )
    }

    /// Send a bare instruction: no address, no alternate bytes, no data.
    pub fn send_command(&mut self, command: Command)
        requires
            write_command_ok(old(self).chip, command, FLASH_SIZE, Seq::<u8>::empty()),
        ensures
            final(self).chip.wf(),
            chip_write_effect(
                old(self).chip,
                final(self).chip,
                command,
                FLASH_SIZE,
                Seq::<u8>::empty(),
            ),
            final(self).regs == spec_regs_after(
                old(self).regs,
                QspiMode::IndirectWrite,
                OperatingModes::Modes100,
                command,
                FLASH_SIZE,
                0,
                0,
                0,
                false,
                0,
            ),
    {
        let r = self.send_command_full(
            QspiMode::IndirectWrite,
            OperatingModes::Modes100,
            command,
            FLASH_SIZE,
            0,
            0,
            0,
            None,
            0,
        );
    }

    /// Send an instruction with a data phase pushed to the chip.
    pub fn send_write_command(
        &mut self,
        command: Command,
        address: u32,
        data: &[u8],
        op_mode: OperatingModes,
    )
        requires
            write_command_ok(old(self).chip, command, address, data@),
        ensures
            final(self).chip.wf(),
            chip_write_effect(old(self).chip, final(self).chip, command, address, data@),
            final(self).regs == spec_regs_after(
                old(self).regs,
                QspiMode::IndirectWrite,
                op_mode,
                command,
                address,
                0,
                0,
                0,
                true,
                data@.len() as u32,
            ),
    {
        let r = self.send_command_full(
            QspiMode::IndirectWrite,
            op_mode,
            command,
            address,
            0,
            0,
            0,
            Some(data),
            0,
        );
    }

    /// Send an instruction that pulls `length` bytes from the chip.
    pub fn send_read_command(&mut self, command: Command, address: u32, length: u32) -> (r: Vec<
        u8,
    >)
        requires
            old(self).chip.wf(),
            !old(self).chip.continuous_read,
            read_command_ok(old(self).chip, command, address, length),
        ensures
            final(self).chip.wf(),
            chip_read_effect(old(self).chip, final(self).chip, command, address, length, r@),
            final(self).regs == spec_regs_after(
                old(self).regs,
                QspiMode::IndirectRead,
                OperatingModes::Modes101,
                command,
                address,
                0,
                0,
                0,
                length > 0,
                length,
            ),
    {
        self.send_command_full(
            QspiMode::IndirectRead,
            OperatingModes::Modes101,
            command,
            address,
            0,
            0,
            0,
            None,
            length,
        )
    }

    /// Poll status register 1 until the write-in-progress bit clears. The
    /// wait is bounded: a chip that stays busy past the retry budget would
    /// surface a hardware timeout instead of hanging; the simulated chip
    /// always comes back within the budget.
    #[verifier::loop_isolation(false)]
    pub fn wait(&mut self) -> (r: Result<(), FlashError>)
        requires
            old(self).chip.wf(),
            !old(self).chip.continuous_read,
            !old(self).chip.powered_down,
        ensures
            r is Ok,
            final(self).chip.wf(),
            chip_unchanged_but_busy(old(self).chip, final(self).chip, 0),
            final(self).regs == spec_regs_after(
                old(self).regs,
                QspiMode::IndirectRead,
                OperatingModes::Modes101,
                Command::ReadStatusRegister1,
                FLASH_SIZE,
                0,
                0,
                0,
                true,
                1,
            ),
    {
        let ghost fixed = spec_regs_after(
            old(self).regs,
            QspiMode::IndirectRead,
            OperatingModes::Modes101,
            Command::ReadStatusRegister1,
            FLASH_SIZE,
            0,
            0,
            0,
            true,
            1,
        );
        let mut attempts: u32 = 0;
        while attempts < WAIT_RETRIES
            invariant
                self.chip.wf(),
                !self.chip.continuous_read,
                !self.chip.powered_down,
                chip_unchanged_but_busy(old(self).chip, self.chip, self.chip.busy_polls),
                self.chip.busy_polls + attempts <= BUSY_POLLS,
                attempts == 0 ==> self.regs == old(self).regs,
                attempts > 0 ==> self.regs == fixed,
            decreases WAIT_RETRIES - attempts,
        {
            let ghost prev = self.chip;
            let status = self.send_read_command(Command::ReadStatusRegister1, FLASH_SIZE, 1);
            proof {
                // A second identical poll reprograms the registers to the
                // same state: the configuration is a fixed point.
                assert(spec_regs_after(
                    fixed,
                    QspiMode::IndirectRead,
                    OperatingModes::Modes101,
                    Command::ReadStatusRegister1,
                    FLASH_SIZE,
                    0,
                    0,
                    0,
                    true,
                    1,
                ) == fixed);
                // The write-in-progress bit is exactly bit 0 of the poll.
                let s = prev.status1;
                assert(s & 3 == 0 ==> (s & 1 == 0 && (s | 2) & 1 == 0 && (s | 1) & 1 == 1 && ((s
                    | 2) | 1) & 1 == 1)) by (bit_vector);
            }
            if status[0] & 1 == 0 {
                return Ok(());
            }
            attempts = attempts + 1;
        }
        // The invariant bounds the polls well below the retry budget.
        proof {
            assert(false);
        }
        Err(FlashError::HardwareTimeout)
    }
}

impl ExternalFlash<Uninitialized> {
    /// The handle's invariant before initialization: a well-formed, awake,
    /// idle chip that is not latched into continuous reads.
    pub open spec fn wf(self) -> bool {
        &&& self.chip.wf()
        &&& !self.chip.continuous_read
        &&& !self.chip.powered_down
        &&& self.chip.busy_polls == 0
    }

    /// Acquire the peripheral and the chip in the uninitialized state and
    /// program the controller configuration: address size, chip-select high
    /// time, clock mode, prescaler, enable.
    pub fn new() -> (f: ExternalFlash<Uninitialized>)
        ensures
            f.wf(),
            f.chip.mem@ == crate::model::erased_mem(FLASH_SIZE as nat),
            f.chip.status1 == 0,
            f.chip.status2 == 0,
            !f.chip.write_enabled,
            !f.chip.qpi_enabled,
            f.chip.read_parameters == 0,
            !f.chip.reset_enabled,
            f.chip.page_programs@ == Seq::<crate::chip::PageProgramCall>::empty(),
            f.regs.fsize == FLASH_ADDRESS_SIZE - 1,
            f.regs.csht == 2,
            f.regs.ckmode,
            f.regs.prescaler == 1,
            f.regs.enabled,
            !f.regs.busy,
    {
        ExternalFlash {
            chip: FlashChip::new(),
            regs: QspiRegisters {
                ccr: PhaseConfig {
                    fmode: QspiMode::IndirectWrite,
                    dmode: QspiWidth::NoLane,
                    dcyc: 0,
                    abmode: QspiWidth::NoLane,
                    absize: 0,
                    admode: QspiWidth::NoLane,
                    adsize: QspiSize::OneByte,
                    imode: QspiWidth::NoLane,
                    instruction: 0,
                    sioo: false,
                },
                dlr: 0,
                abr: 0,
                ar: 0,
                busy: false,
                fsize: FLASH_ADDRESS_SIZE - 1,
                csht: 2,
                ckmode: true,
                prescaler: 1,
                enabled: true,
            },
            state: PhantomData,
        }
    }

    /// Bring the chip up: soft-reset it, release it from deep power-down
    /// (the settle delay after the release is a hardware-timing step with no
    /// model effect), enable writing, set the quad-enable bit in status
    /// register 2, poll until the write completes, enter QPI addressing and
    /// program the dummy-cycle count for quad reads. The uninitialized
    /// handle is consumed; the result issues indirect operations.
    pub fn init(self) -> (r: ExternalFlash<Indirect>)
        requires
            self.wf(),
        ensures
            r.wf(),
            r.chip.mem@ == self.chip.mem@,
            r.chip.status2 == QUAD_ENABLE,
            r.chip.qpi_enabled,
            r.chip.read_parameters == READ_PARAMETERS,
            !r.chip.write_enabled,
            r.chip.page_programs@ == self.chip.page_programs@,
    {
        let mut this = ExternalFlash::<Indirect> {
            chip: self.chip,
            regs: self.regs,
            state: PhantomData,
        };
        this.send_command(Command::EnableReset);
        this.send_command(Command::Reset);
        this.send_command(Command::ReleaseDeepPowerDown);
        this.send_command(Command::WriteEnable);
        let _poll = this.wait();
        let mut qe: Vec<u8> = Vec::new();
        qe.push(QUAD_ENABLE);
        this.send_write_command(
            Command::WriteStatusRegister2,
            FLASH_SIZE,
            qe.as_slice(),
            OperatingModes::Modes101,
        );
        let _poll = this.wait();
        this.send_command(Command::EnableQPI);
        let mut rp: Vec<u8> = Vec::new();
        rp.push(READ_PARAMETERS);
        this.send_write_command(
            Command::SetReadParameters,
            FLASH_SIZE,
            rp.as_slice(),
            OperatingModes::Modes101,
        );
        this
    }
}

impl ExternalFlash<Indirect> {
    /// The Indirect handle's invariant: a well-formed, awake, idle chip that
    /// is not latched into continuous reads, so every indirect instruction
    /// is legal to issue.
    pub open spec fn wf(self) -> bool {
        &&& self.chip.wf()
        &&& !self.chip.continuous_read
        &&& !self.chip.powered_down
        &&& self.chip.busy_polls == 0
    }

    /// Read the byte at `address` (an offset into the chip) through the
    /// indirect-read path.
    pub fn read_byte(&mut self, address: u32) -> (r: u8)
        requires
            old(self).wf(),
            address < FLASH_SIZE,
        ensures
            final(self).wf(),
            r == old(self).chip.mem@[address as int],
            chip_unchanged_but_busy(old(self).chip, final(self).chip, 0),
    {
        let data = self.send_read_command(Command::ReadData, address, 1);
        data[0]
    }

    /// Soft-reset the chip: the enable+execute opcode pair.
    pub fn reset(&mut self)
        requires
            old(self).wf(),
        ensures
            final(self).wf(),
            final(self).chip.status1 == 0,
            !final(self).chip.write_enabled,
            !final(self).chip.qpi_enabled,
            !final(self).chip.reset_enabled,
            final(self).chip.mem@ == old(self).chip.mem@,
            final(self).chip.status2 == old(self).chip.status2,
            final(self).chip.read_parameters == old(self).chip.read_parameters,
            final(self).chip.page_programs@ == old(self).chip.page_programs@,
    {
        self.send_command(Command::EnableReset);
        self.send_command(Command::Reset);
    }

    /// Clear the chip's block-protect bits: write-enable, then rewrite the
    /// status registers keeping only the quad-enable bit of status
    /// register 2.
    pub fn unlock_flash(&mut self)
        requires
            old(self).wf(),
        ensures
            final(self).wf(),
            final(self).chip.status1 == 0,
            final(self).chip.status2 == old(self).chip.status2 & QUAD_ENABLE,
            !final(self).chip.write_enabled,
            final(self).chip.mem@ == old(self).chip.mem@,
            final(self).chip.qpi_enabled == old(self).chip.qpi_enabled,
            final(self).chip.read_parameters == old(self).chip.read_parameters,
            final(self).chip.page_programs@ == old(self).chip.page_programs@,
    {
        self.send_command(Command::WriteEnable);
        let _poll = self.wait();
        let sr2 = self.send_read_command(Command::ReadStatusRegister2, FLASH_SIZE, 1);
        let masked: u8 = sr2[0] & QUAD_ENABLE;
        let mut data: Vec<u8> = Vec::new();
        data.push(0);
        data.push(masked);
        self.send_write_command(
            Command::WriteStatusRegister,
            FLASH_SIZE,
            data.as_slice(),
            OperatingModes::Modes101,
        );
        let _poll = self.wait();
        proof {
            assert(0u8 & 0xFC == 0) by (bit_vector);
        }
    }

    /// Erase the sector with index `sector`: unlock, write-enable and wait,
    /// issue the erase opcode of the sector's class at the sector's base
    /// address, and wait for the erase to finish. Every byte the sector owns
    /// reads as the erased value afterwards; all other bytes keep theirs.
    pub fn erase_sector(&mut self, sector: u8)
        requires
            old(self).wf(),
            sector < N_SECTORS,
        ensures
            final(self).wf(),
            final(self).chip.mem@ == erase_range(
                old(self).chip.mem@,
                sector_start(sector as int),
                sector_size(sector as int),
            ),
            final(self).chip.status1 == 0,
            final(self).chip.status2 == old(self).chip.status2 & QUAD_ENABLE,
            !final(self).chip.write_enabled,
            final(self).chip.qpi_enabled == old(self).chip.qpi_enabled,
            final(self).chip.read_parameters == old(self).chip.read_parameters,
            final(self).chip.page_programs@ == old(self).chip.page_programs@,
    {
        self.unlock_flash();
        self.send_command(Command::WriteEnable);
        let _poll = self.wait();
        let empty: Vec<u8> = Vec::new();
        if sector < N_4K_SECTORS {
            let address: u32 = (sector as u32) * SIZE_4K;
            proof {
                lemma_mod_multiples_basic(sector as int, SIZE_4K as int);
            }
            self.send_write_command(
                Command::Erase4KbyteBlock,
                address,
                empty.as_slice(),
                OperatingModes::Modes110,
            );
        } else if sector < N_4K_SECTORS + N_32K_SECTORS {
            proof {
                assert(SIZE_32K as int % (SIZE_32K as int) == 0);
            }
            self.send_write_command(
                Command::Erase32KbyteBlock,
                SIZE_32K,
                empty.as_slice(),
                OperatingModes::Modes110,
            );
        } else {
            let index: u32 = (sector - N_4K_SECTORS) as u32;
            let address: u32 = index * SIZE_64K;
            proof {
                lemma_mod_multiples_basic(index as int, SIZE_64K as int);
            }
            self.send_write_command(
                Command::Erase64KbyteBlock,
                address,
                empty.as_slice(),
                OperatingModes::Modes110,
            );
        }
        let _poll = self.wait();
    }

    /// Erase the whole chip: every byte reads as the erased value afterwards.
    pub fn erase_all(&mut self)
        requires
            old(self).wf(),
        ensures
            final(self).wf(),
            final(self).chip.mem@ == erased_mem(FLASH_SIZE as nat),
            final(self).chip.status1 == 0,
            final(self).chip.status2 == old(self).chip.status2 & QUAD_ENABLE,
            !final(self).chip.write_enabled,
            final(self).chip.qpi_enabled == old(self).chip.qpi_enabled,
            final(self).chip.read_parameters == old(self).chip.read_parameters,
            final(self).chip.page_programs@ == old(self).chip.page_programs@,
    {
        self.unlock_flash();
        self.send_command(Command::WriteEnable);
        let _poll = self.wait();
        self.send_command(Command::ChipErase);
        let _poll = self.wait();
    }

    /// Erase the whole chip; the full-chip erase under its historical name.
    pub fn mass_erase(&mut self)
        requires
            old(self).wf(),
        ensures
            final(self).wf(),
            final(self).chip.mem@ == erased_mem(FLASH_SIZE as nat),
            final(self).chip.page_programs@ == old(self).chip.page_programs@,
    {
        self.erase_all();
    }

    /// Program `source` at `address` (an offset into the chip). A request
    /// that crosses page boundaries is split: the first program covers what
    /// fits in the page the address lies in, every further one starts at a
    /// page boundary, and each is individually write-enabled. The result is
    /// byte-identical to one overwrite of the whole run.
    pub fn write_memory(&mut self, address: u32, source: &[u8])
        requires
            old(self).wf(),
            address + source@.len() <= FLASH_SIZE,
        ensures
            final(self).wf(),
            final(self).chip.mem@ == overwrite(old(self).chip.mem@, address as int, source@),
            final(self).chip.page_programs@ == old(self).chip.page_programs@
                + spec_page_chunks(address as int, source@.len() as int),
            chip_settings_unchanged(old(self).chip, final(self).chip),
            source@.len() > 0 ==> !final(self).chip.write_enabled,
            source@.len() == 0 ==> final(self).chip.write_enabled == old(
                self,
            ).chip.write_enabled,
    {
        let ghost total = spec_page_chunks(address as int, source@.len() as int);
        let mut offset: u32 = address;
        let mut start: usize = 0;
        proof {
            assert(source@.take(0) =~= Seq::<u8>::empty());
            assert(overwrite(old(self).chip.mem@, address as int, Seq::<u8>::empty())
                =~= old(self).chip.mem@);
        }
        while start < source.len()
            invariant
                self.wf(),
                address + source@.len() <= FLASH_SIZE,
                start <= source@.len(),
                offset == address + start,
                self.chip.mem@ == overwrite(
                    old(self).chip.mem@,
                    address as int,
                    source@.take(start as int),
                ),
                self.chip.page_programs@ + spec_page_chunks(
                    offset as int,
                    source@.len() - start,
                ) == old(self).chip.page_programs@ + total,
                chip_settings_unchanged(old(self).chip, self.chip),
                start == 0 ==> self.chip.write_enabled == old(self).chip.write_enabled,
                start > 0 ==> !self.chip.write_enabled,
            decreases source@.len() - start,
        {
            let page_offset: u32 = offset % PAGE_SIZE;
            let mut fits: u32 = PAGE_SIZE - page_offset;
            let remaining: usize = source.len() - start;
            if fits as usize > remaining {
                fits = remaining as u32;
            }
            self.send_command(Command::WriteEnable);
            let _poll = self.wait();
            let part = slice_subrange(source, start, start + fits as usize);
            let ghost mem_before = self.chip.mem@;
            let ghost log_before = self.chip.page_programs@;
            self.send_write_command(
                Command::QuadPageProgram,
                offset,
                part,
                OperatingModes::Modes114,
            );
            let _poll = self.wait();
            proof {
                // Programming the next chunk extends the programmed prefix.
                assert(self.chip.mem@ =~= overwrite(
                    old(self).chip.mem@,
                    address as int,
                    source@.take(start + fits),
                ));
                // The recorded program is the head of the remaining chunks.
                let pp = (PageProgramCall { offset, length: fits });
                assert(spec_page_chunks(offset as int, source@.len() - start) == seq![pp]
                    + spec_page_chunks(offset + fits, source@.len() - (start + fits)));
                assert(log_before.push(pp) =~= log_before + seq![pp]);
                assert((log_before + seq![pp]) + spec_page_chunks(
                    offset + fits,
                    source@.len() - (start + fits),
                ) =~= log_before + (seq![pp] + spec_page_chunks(
                    offset + fits,
                    source@.len() - (start + fits),
                )));
            }
            offset = offset + fits;
            start = start + fits as usize;
        }
        proof {
            assert(source@.take(source@.len() as int) =~= source@);
            assert(self.chip.page_programs@ + Seq::<PageProgramCall>::empty()
                =~= self.chip.page_programs@);
        }
    }

    /// Shut the chip down: soft-reset it and put it into deep power-down
    /// (the settle delays between the steps are hardware timing with no
    /// model effect). The handle is consumed; the returned chip state is
    /// what a later power-up finds.
    pub fn shutdown(self) -> (chip: FlashChip)
        requires
            self.wf(),
        ensures
            chip.powered_down,
            chip.mem@ == self.chip.mem@,
            chip.status1 == 0,
            !chip.write_enabled,
            !chip.qpi_enabled,
            chip.page_programs@ == self.chip.page_programs@,
    {
        let mut this = self;
        this.send_command(Command::EnableReset);
        this.send_command(Command::Reset);
        this.send_command(Command::DeepPowerDown);
        this.chip
    }

    /// Enter memory-mapped (execute-in-place) operation: issue the
    /// continuous quad I/O read with the alternate byte that keeps the chip
    /// in continuous-read mode. The indirect handle is consumed; any read in
    /// the mapped window is then served transparently.
    pub fn set_memory_mapped(self) -> (r: ExternalFlash<MemoryMapped>)
        requires
            self.wf(),
        ensures
            r.wf(),
            chip_unchanged_but_continuous(self.chip, r.chip, true),
            r.regs == spec_regs_after(
                self.regs,
                QspiMode::MemoryMapped,
                OperatingModes::Modes144,
                Command::FastReadQuadIO,
                FLASH_SIZE,
                CONT_READ_ENTER,
                1,
                DUMMY_CYCLES,
                false,
                0,
            ),
    {
        let mut this = self;
        let _none = this.transact(
            QspiMode::MemoryMapped,
            OperatingModes::Modes144,
            Command::FastReadQuadIO,
            FLASH_SIZE,
            CONT_READ_ENTER,
            1,
            DUMMY_CYCLES,
            None,
            0,
        );
        ExternalFlash { chip: this.chip, regs: this.regs, state: PhantomData }
    }
}

impl ExternalFlash<MemoryMapped> {
    /// The MemoryMapped handle's invariant: the chip is latched into
    /// continuous reads and the peripheral serves the mapped window, so no
    /// indirect operation exists on this handle.
    pub open spec fn wf(self) -> bool {
        &&& self.chip.wf()
        &&& self.chip.continuous_read
        &&& !self.chip.powered_down
        &&& self.chip.busy_polls == 0
        &&& self.regs.ccr.fmode is MemoryMapped
    }

    /// One transparent read from the mapped window, at `offset` from the
    /// window's base.
    pub fn read_mapped(&self, offset: u32) -> (r: u8)
        requires
            self.wf(),
            offset < FLASH_SIZE,
        ensures
            r == self.chip.mem@[offset as int],
    {
        self.chip.mapped_read(offset)
    }

    /// Leave memory-mapped operation: abort the mapped transaction and issue
    /// the indirect read with the complemented alternate byte, which cancels
    /// the chip's continuous-read latch. Mandatory before any further
    /// indirect instruction; the mapped handle is consumed.
    pub fn unset_memory_mapped(self) -> (r: ExternalFlash<Indirect>)
        requires
            self.wf(),
        ensures
            r.wf(),
            chip_unchanged_but_continuous(self.chip, r.chip, false),
            r.regs == spec_regs_after(
                self.regs,
                QspiMode::IndirectRead,
                OperatingModes::Modes144,
                Command::FastReadQuadIO,
                0,
                CONT_READ_EXIT,
                1,
                DUMMY_CYCLES,
                true,
                1,
            ),
    {
        let mut this = self;
        let _dummy = this.transact(
            QspiMode::IndirectRead,
            OperatingModes::Modes144,
            Command::FastReadQuadIO,
            0,
            CONT_READ_EXIT,
            1,
            DUMMY_CYCLES,
            None,
            1,
        );
        ExternalFlash { chip: this.chip, regs: this.regs, state: PhantomData }
    }
}

/// The quad-enable bit of status register 2.
pub const QUAD_ENABLE: u8 = 0b0000_0010;

/// The dummy-cycle configuration programmed for quad reads at the target bus
/// frequency.
pub const READ_PARAMETERS: u8 = 0b0001_0000;

/// Dummy cycles of the continuous quad I/O read used for memory-mapped
/// operation, matched to the configured frequency.
pub const DUMMY_CYCLES: u8 = 4;

} // verus!
