//! A software-simulated flash chip: the state one chip holds and the exact
//! effect of every instruction the driver can send. The driver and the DFU
//! layer are verified against this model, so the protocol logic can be
//! exercised and checked against a simulated device instead of real silicon.

use vstd::prelude::*;
use crate::commands::{Command, erase_block_size, is_busy_command, is_program};
use crate::geometry::{FLASH_SIZE, PAGE_SIZE, SIZE_4K, SIZE_32K, SIZE_64K};
use crate::model::{erase_range, erased_mem, overwrite, ERASED_BYTE};

verus! {

/// How many polls of status register 1 the simulated chip stays busy for
/// after a mutating instruction.
pub const BUSY_POLLS: u8 = 2;

/// One page-program instruction as the chip saw it: where it started and how
/// many bytes it wrote. Recorded so that splitting behaviour is observable.
#[derive(Clone, Copy, PartialEq, Eq, Structural, Debug)]
pub struct PageProgramCall {
    pub offset: u32,
    pub length: u32,
}

/// The simulated chip.
pub struct FlashChip {
    /// The memory array; always FLASH_SIZE bytes.
    pub mem: Vec<u8>,
    /// The writable bits of status register 1. The write-in-progress and
    /// write-enable-latch bits (0 and 1) are read-only on the chip and are
    /// derived from `busy_polls` and `write_enabled` when the register is read.
    pub status1: u8,
    /// Status register 2; bit 1 is the quad-enable bit.
    pub status2: u8,
    /// The write-enable latch: set by WriteEnable, cleared by every mutating
    /// instruction.
    pub write_enabled: bool,
    /// Whether the chip is in deep power-down and ignores everything but the
    /// release instruction.
    pub powered_down: bool,
    /// Whether EnableQPI has switched the chip to quad addressing.
    pub qpi_enabled: bool,
    /// The dummy-cycle configuration from SetReadParameters.
    pub read_parameters: u8,
    /// EnableReset arms the reset; any other write-phase instruction disarms it.
    pub reset_enabled: bool,
    /// The continuous-read latch: while it is set the chip decodes further bus
    /// activity as addresses, so only the cancel sequence may follow.
    pub continuous_read: bool,
    /// Polls of status register 1 left before write-in-progress reads clear.
    pub busy_polls: u8,
    /// Record of every page-program instruction, oldest first.
    pub page_programs: Vec<PageProgramCall>,
}

impl FlashChip {
    /// Well-formedness: the array has the chip's size, the poll count is
    /// bounded, and the read-only status bits are kept out of `status1`.
    pub open spec fn wf(self) -> bool {
        &&& self.mem@.len() == FLASH_SIZE
        &&& self.busy_polls <= BUSY_POLLS
        &&& self.status1 & 3 == 0
    }

    /// A factory-fresh chip: erased array, clear status, idle, not latched.
    pub fn new() -> (c: FlashChip)
        ensures
            c.wf(),
            c.mem@ == erased_mem(FLASH_SIZE as nat),
            c.status1 == 0,
            c.status2 == 0,
            !c.write_enabled,
            !c.powered_down,
            !c.qpi_enabled,
            c.read_parameters == 0,
            !c.reset_enabled,
            !c.continuous_read,
            c.busy_polls == 0,
            c.page_programs@ == Seq::<PageProgramCall>::empty(),
    {
        proof {
            assert(0u8 & 3 == 0) by (bit_vector);
        }
        FlashChip {
            mem: erased_vec(FLASH_SIZE as usize),
            status1: 0,
            status2: 0,
            write_enabled: false,
            powered_down: false,
            qpi_enabled: false,
            read_parameters: 0,
            reset_enabled: false,
            continuous_read: false,
            busy_polls: 0,
            page_programs: Vec::new(),
        }
    }
}

/// What a poll of status register 1 reads: the stored bits plus the derived
/// write-enable-latch bit (1) and write-in-progress bit (0).
pub open spec fn spec_sr1(c: FlashChip) -> u8 {
    let with_wel = if c.write_enabled {
        c.status1 | 2
    } else {
        c.status1
    };
    if c.busy_polls > 0 {
        with_wel | 1
    } else {
        with_wel
    }
}

/// The memory array after one write-phase instruction.
pub open spec fn spec_mem_after(m: Seq<u8>, c: Command, addr: int, data: Seq<u8>) -> Seq<u8> {
    if c is ChipErase {
        erased_mem(m.len())
    } else if is_program(c) {
        overwrite(m, addr, data)
    } else {
        match erase_block_size(c) {
            Some(size) => erase_range(m, addr, size),
            None => m,
        }
    }
}

/// Whether this instruction, sent now, performs the armed soft reset.
pub open spec fn spec_resets(pre: FlashChip, c: Command) -> bool {
    c is Reset && pre.reset_enabled
}

/// When the chip accepts one write-phase instruction: it must be reachable
/// (awake, idle, not latched into continuous reads), mutating instructions
/// need the write-enable latch, erase addresses must be aligned to their
/// block, and a program must fit inside one page.
pub open spec fn write_command_ok(pre: FlashChip, c: Command, address: u32, data: Seq<u8>) -> bool {
    &&& pre.wf()
    &&& !pre.continuous_read
    &&& pre.busy_polls == 0
    &&& (c is ReleaseDeepPowerDown || !pre.powered_down)
    &&& match c {
        Command::ChipErase => pre.write_enabled && data.len() == 0,
        Command::Erase4KbyteBlock => pre.write_enabled && data.len() == 0
            && address + SIZE_4K <= FLASH_SIZE && address % SIZE_4K == 0,
        Command::Erase32KbyteBlock => pre.write_enabled && data.len() == 0
            && address + SIZE_32K <= FLASH_SIZE && address % SIZE_32K == 0,
        Command::Erase64KbyteBlock => pre.write_enabled && data.len() == 0
            && address + SIZE_64K <= FLASH_SIZE && address % SIZE_64K == 0,
        Command::PageProgram | Command::QuadPageProgram => pre.write_enabled
            && 1 <= data.len() && address + data.len() <= FLASH_SIZE
            && address % PAGE_SIZE + data.len() <= PAGE_SIZE,
        Command::WriteStatusRegister => pre.write_enabled && data.len() == 2,
        Command::WriteStatusRegister2 => pre.write_enabled && data.len() == 1,
        Command::SetReadParameters => data.len() == 1,
        _ => data.len() == 0,
    }
}

/// The exact relation between the chip before and after one accepted
/// write-phase instruction.
pub open spec fn chip_write_effect(
    pre: FlashChip,
    post: FlashChip,
    c: Command,
    address: u32,
    data: Seq<u8>,
) -> bool {
    &&& post.mem@ == spec_mem_after(pre.mem@, c, address as int, data)
    &&& post.status1 == (if c is WriteStatusRegister {
        (data[0] & 0xFC) as u8
    } else if spec_resets(pre, c) {
        0 as u8
    } else {
        pre.status1
    })
    &&& post.status2 == (if c is WriteStatusRegister {
        data[1]
    } else if c is WriteStatusRegister2 {
        data[0]
    } else {
        pre.status2
    })
    &&& post.write_enabled == (if c is WriteEnable || c is WriteEnableVolatile {
        true
    } else if is_busy_command(c) || spec_resets(pre, c) {
        false
    } else {
        pre.write_enabled
    })
    &&& post.powered_down == (if c is DeepPowerDown {
        true
    } else if c is ReleaseDeepPowerDown {
        false
    } else {
        pre.powered_down
    })
    &&& post.qpi_enabled == (if c is EnableQPI {
        true
    } else if spec_resets(pre, c) {
        false
    } else {
        pre.qpi_enabled
    })
    &&& post.read_parameters == (if c is SetReadParameters {
        data[0]
    } else {
        pre.read_parameters
    })
    &&& post.reset_enabled == (c is EnableReset)
    &&& post.continuous_read == pre.continuous_read
    &&& post.busy_polls == (if is_busy_command(c) {
        BUSY_POLLS
    } else {
        0 as u8
    })
    &&& post.page_programs@ == (if is_program(c) {
        pre.page_programs@.push(
            (PageProgramCall { offset: address, length: data.len() as u32 }),
        )
    } else {
        pre.page_programs@
    })
}

/// When the chip accepts one read-phase instruction. Only the status
/// registers can be polled while the chip is busy.
pub open spec fn read_command_ok(pre: FlashChip, c: Command, address: u32, length: u32) -> bool {
    &&& pre.wf()
    &&& !pre.continuous_read
    &&& !pre.powered_down
    &&& match c {
        Command::ReadStatusRegister1 => length == 1,
        Command::ReadStatusRegister2 => length == 1,
        Command::ReadData | Command::FastRead | Command::FastReadQuadIO => pre.busy_polls == 0
            && address + length <= FLASH_SIZE,
        _ => false,
    }
}

/// All fields equal but the busy-poll counter, which holds `busy`.
pub open spec fn chip_unchanged_but_busy(pre: FlashChip, post: FlashChip, busy: u8) -> bool {
    &&& post.mem@ == pre.mem@
    &&& post.status1 == pre.status1
    &&& post.status2 == pre.status2
    &&& post.write_enabled == pre.write_enabled
    &&& post.powered_down == pre.powered_down
    &&& post.qpi_enabled == pre.qpi_enabled
    &&& post.read_parameters == pre.read_parameters
    &&& post.reset_enabled == pre.reset_enabled
    &&& post.continuous_read == pre.continuous_read
    &&& post.busy_polls == busy
    &&& post.page_programs@ == pre.page_programs@
}

/// The exact relation between the chip before and after one accepted
/// read-phase instruction, and what the read returns: a status poll counts
/// the busy counter down, an array read hands the bytes out unchanged.
pub open spec fn chip_read_effect(
    pre: FlashChip,
    post: FlashChip,
    c: Command,
    address: u32,
    length: u32,
    r: Seq<u8>,
) -> bool {
    &&& r.len() == length
    &&& match c {
        Command::ReadStatusRegister1 => r[0] == spec_sr1(pre) && chip_unchanged_but_busy(
            pre,
            post,
            if pre.busy_polls > 0 {
                (pre.busy_polls - 1) as u8
            } else {
                0 as u8
            },
        ),
        Command::ReadStatusRegister2 => r[0] == pre.status2 && chip_unchanged_but_busy(
            pre,
            post,
            pre.busy_polls,
        ),
        Command::ReadData | Command::FastRead | Command::FastReadQuadIO => r == pre.mem@.subrange(
            address as int,
            address + length,
        ) && chip_unchanged_but_busy(pre, post, pre.busy_polls),
        _ => false,
    }
}

/// A fully erased vector of `len` bytes.
fn erased_vec(len: usize) -> (v: Vec<u8>)
    ensures
        v@ == erased_mem(len as nat),
{
    let mut v: Vec<u8> = Vec::new();
    let mut i: usize = 0;
    while i < len
        invariant
            i <= len,
            v@ =~= erased_mem(i as nat),
        decreases len - i,
    {
        v.push(ERASED_BYTE);
        i = i + 1;
        assert(v@ =~= erased_mem(i as nat));
    }
    assert(v@ =~= erased_mem(len as nat));
    v
}

/// Erase `len` bytes of `mem` starting at `start`.
fn erase_block_mem(mem: &mut Vec<u8>, start: u32, len: u32)
    requires
        start + len <= old(mem)@.len(),
        old(mem)@.len() == FLASH_SIZE,
    ensures
        final(mem)@ == erase_range(old(mem)@, start as int, len as int),
{
    let mut i: u32 = 0;
    while i < len
        invariant
            i <= len,
            start + len <= old(mem)@.len(),
            old(mem)@.len() == FLASH_SIZE,
            mem@ =~= erase_range(old(mem)@, start as int, i as int),
        decreases len - i,
    {
        mem[(start + i) as usize] = ERASED_BYTE;
        i = i + 1;
        assert(mem@ =~= erase_range(old(mem)@, start as int, i as int));
    }
    assert(mem@ =~= erase_range(old(mem)@, start as int, len as int));
}

/// Program `data` into `mem` at offset `at`.
fn program_mem(mem: &mut Vec<u8>, at: u32, data: &[u8])
    requires
        at + data@.len() <= old(mem)@.len(),
        old(mem)@.len() == FLASH_SIZE,
    ensures
        final(mem)@ == overwrite(old(mem)@, at as int, data@),
{
    let mut i: usize = 0;
    while i < data.len()
        invariant
            i <= data@.len(),
            at + data@.len() <= old(mem)@.len(),
            old(mem)@.len() == FLASH_SIZE,
            mem@ =~= overwrite(old(mem)@, at as int, data@.take(i as int)),
        decreases data@.len() - i,
    {
        mem[at as usize + i] = data[i];
        i = i + 1;
        assert(mem@ =~= overwrite(old(mem)@, at as int, data@.take(i as int)));
    }
    assert(data@.take(data@.len() as int) =~= data@);
}

impl FlashChip {
    /// Perform one write-phase instruction.
    pub fn execute_write(&mut self, c: Command, address: u32, data: &[u8])
        requires
            write_command_ok(*old(self), c, address, data@),
        ensures
            chip_write_effect(*old(self), *final(self), c, address, data@),
            final(self).wf(),
    {
        let resets = match c {
            Command::Reset => self.reset_enabled,
            _ => false,
        };
        self.reset_enabled = false;
        self.busy_polls = 0;
        match c {
            Command::WriteEnable | Command::WriteEnableVolatile => {
                self.write_enabled = true;
            },
            Command::ChipErase => {
                self.mem = erased_vec(FLASH_SIZE as usize);
                self.write_enabled = false;
                self.busy_polls = BUSY_POLLS;
            },
            Command::Erase4KbyteBlock => {
                erase_block_mem(&mut self.mem, address, SIZE_4K);
                self.write_enabled = false;
                self.busy_polls = BUSY_POLLS;
            },
            Command::Erase32KbyteBlock => {
                erase_block_mem(&mut self.mem, address, SIZE_32K);
                self.write_enabled = false;
                self.busy_polls = BUSY_POLLS;
            },
            Command::Erase64KbyteBlock => {
                erase_block_mem(&mut self.mem, address, SIZE_64K);
                self.write_enabled = false;
                self.busy_polls = BUSY_POLLS;
            },
            Command::PageProgram | Command::QuadPageProgram => {
                program_mem(&mut self.mem, address, data);
                self.page_programs.push(
                    PageProgramCall { offset: address, length: data.len() as u32 },
                );
                self.write_enabled = false;
                self.busy_polls = BUSY_POLLS;
            },
            Command::WriteStatusRegister => {
                let b0: u8 = data[0];
                proof {
                    assert((b0 & 0xFC) & 3 == 0) by (bit_vector);
                }
                self.status1 = b0 & 0xFC;
                self.status2 = data[1];
                self.write_enabled = false;
                self.busy_polls = BUSY_POLLS;
            },
            Command::WriteStatusRegister2 => {
                self.status2 = data[0];
                self.write_enabled = false;
                self.busy_polls = BUSY_POLLS;
            },
            Command::SetReadParameters => {
                self.read_parameters = data[0];
            },
            Command::EnableQPI => {
                self.qpi_enabled = true;
            },
            Command::EnableReset => {
                self.reset_enabled = true;
            },
            Command::Reset => {
                if resets {
                    proof {
                        assert(0u8 & 3 == 0) by (bit_vector);
                    }
                    self.status1 = 0;
                    self.write_enabled = false;
                    self.qpi_enabled = false;
                }
            },
            Command::DeepPowerDown => {
                self.powered_down = true;
            },
            Command::ReleaseDeepPowerDown => {
                self.powered_down = false;
            },
            _ => {},
        }
    }

    /// Perform one read-phase instruction and hand the read bytes back.
    pub fn execute_read(&mut self, c: Command, address: u32, length: u32) -> (r: Vec<u8>)
        requires
            read_command_ok(*old(self), c, address, length),
        ensures
            chip_read_effect(*old(self), *final(self), c, address, length, r@),
            final(self).wf(),
    {
        match c {
            Command::ReadStatusRegister1 => {
                let mut sr1: u8 = self.status1;
                if self.write_enabled {
                    sr1 = sr1 | 2;
                }
                if self.busy_polls > 0 {
                    sr1 = sr1 | 1;
                    self.busy_polls = self.busy_polls - 1;
                }
                let mut r: Vec<u8> = Vec::new();
                r.push(sr1);
                r
            },
            Command::ReadStatusRegister2 => {
                let mut r: Vec<u8> = Vec::new();
                r.push(self.status2);
                r
            },
            _ => {
                let mut r: Vec<u8> = Vec::new();
                let mut i: u32 = 0;
                while i < length
                    invariant
                        i <= length,
                        address + length <= FLASH_SIZE,
                        address + length <= self.mem@.len(),
                        r@ =~= self.mem@.subrange(address as int, address + i),
                    decreases length - i,
                {
                    r.push(self.mem[(address + i) as usize]);
                    i = i + 1;
                    assert(r@ =~= self.mem@.subrange(address as int, address + i));
                }
                assert(r@ =~= self.mem@.subrange(address as int, address + length));
                r
            },
        }
    }

    /// Latch the chip into continuous-read mode: the entry into
    /// memory-mapped operation.
    pub fn enter_continuous_read(&mut self)
        requires
            old(self).wf(),
            !old(self).continuous_read,
            !old(self).powered_down,
            old(self).busy_polls == 0,
        ensures
            final(self).continuous_read,
            chip_unchanged_but_continuous(*old(self), *final(self), true),
            final(self).wf(),
    {
        self.continuous_read = true;
    }

    /// Release the continuous-read latch with the inverted alternate byte:
    /// mandatory before any further indirect instruction.
    pub fn cancel_continuous_read(&mut self) -> (r: Vec<u8>)
        requires
            old(self).wf(),
            old(self).continuous_read,
        ensures
            !final(self).continuous_read,
            chip_unchanged_but_continuous(*old(self), *final(self), false),
            final(self).wf(),
            r@.len() == 1,
            r@[0] == old(self).mem@[0],
    {
        self.continuous_read = false;
        let mut r: Vec<u8> = Vec::new();
        r.push(self.mem[0]);
        r
    }

    /// One transparent read through the memory-mapped window.
    pub fn mapped_read(&self, offset: u32) -> (r: u8)
        requires
            self.wf(),
            self.continuous_read,
            offset < FLASH_SIZE,
        ensures
            r == self.mem@[offset as int],
    {
        self.mem[offset as usize]
    }
}

/// The chip's configuration is untouched: status registers, power state,
/// addressing mode, read parameters and the continuous-read latch all keep
/// their values.
pub open spec fn chip_settings_unchanged(pre: FlashChip, post: FlashChip) -> bool {
    &&& post.status1 == pre.status1
    &&& post.status2 == pre.status2
    &&& post.powered_down == pre.powered_down
    &&& post.qpi_enabled == pre.qpi_enabled
    &&& post.read_parameters == pre.read_parameters
    &&& post.continuous_read == pre.continuous_read
}

/// The page-program instructions that writing `len` bytes at offset `at`
/// takes: the first covers what fits in the page `at` lies in, each further
/// one starts at a page boundary.
pub open spec fn spec_page_chunks(at: int, len: int) -> Seq<PageProgramCall>
    decreases len,
{
    if len <= 0 {
        Seq::empty()
    } else {
        let room = (PAGE_SIZE as int) - at % (PAGE_SIZE as int);
        let chunk = if room < len {
            room
        } else {
            len
        };
        seq![
            (PageProgramCall { offset: at as u32, length: chunk as u32 }),
        ] + spec_page_chunks(at + chunk, len - chunk)
    }
}

/// All fields equal but the continuous-read latch, which holds `latched`.
pub open spec fn chip_unchanged_but_continuous(
    pre: FlashChip,
    post: FlashChip,
    latched: bool,
) -> bool {
    &&& post.mem@ == pre.mem@
    &&& post.status1 == pre.status1
    &&& post.status2 == pre.status2
    &&& post.write_enabled == pre.write_enabled
    &&& post.powered_down == pre.powered_down
    &&& post.qpi_enabled == pre.qpi_enabled
    &&& post.read_parameters == pre.read_parameters
    &&& post.reset_enabled == pre.reset_enabled
    &&& post.continuous_read == latched
    &&& post.busy_polls == pre.busy_polls
    &&& post.page_programs@ == pre.page_programs@
}

} // verus!
