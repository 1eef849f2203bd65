//! The bus peripheral's register state as the driver programs it: the
//! phase-configuration register of the current transaction, the data-length,
//! alternate-byte and address registers, the controller configuration written
//! once at construction, and the exact state one transaction leaves behind.

use vstd::prelude::*;
use crate::commands::{Command, spec_opcode};
use crate::geometry::FLASH_SIZE;
use crate::qspi::{OperatingModes, QspiMode, QspiSize, QspiWidth, spec_amode, spec_dmode, spec_imode};

verus! {

/// The phase-configuration register: how the next transaction frames its
/// instruction, address, alternate-byte and data phases. Writing it replaces
/// every field, so fields of absent phases read as their zero values.
#[derive(Clone, Copy, PartialEq, Eq, Structural, Debug)]
pub struct PhaseConfig {
    pub fmode: QspiMode,
    pub dmode: QspiWidth,
    pub dcyc: u8,
    pub abmode: QspiWidth,
    pub absize: u8,
    pub admode: QspiWidth,
    pub adsize: QspiSize,
    pub imode: QspiWidth,
    pub instruction: u8,
    pub sioo: bool,
}

/// The register state of the bus peripheral.
#[derive(Clone, Copy, PartialEq, Eq, Structural, Debug)]
pub struct QspiRegisters {
    /// Phase configuration of the current transaction.
    pub ccr: PhaseConfig,
    /// Data length register: bytes of the data phase, minus one.
    pub dlr: u32,
    /// Alternate-byte register.
    pub abr: u32,
    /// Address register.
    pub ar: u32,
    /// Whether the peripheral is running a transaction. Indirect transactions
    /// complete before the driver returns; a memory-mapped transaction stays
    /// active until it is aborted.
    pub busy: bool,
    /// Controller configuration, written once: the chip's address size minus
    /// one, the chip-select high time, the clock mode, the prescaler, and the
    /// enable bit.
    pub fsize: u8,
    pub csht: u8,
    pub ckmode: bool,
    pub prescaler: u8,
    pub enabled: bool,
}

/// The phase configuration one transaction programs: the data-phase width is
/// set only where a data phase or memory-mapped operation is requested, the
/// alternate-byte and address phases only where present (an address equal to
/// the flash size is the sentinel for "no address"), the address size is
/// always three bytes for this chip family, and the send-instruction-only-once
/// flag only for memory-mapped operation.
pub open spec fn spec_phase_config(
    mode: QspiMode,
    op: OperatingModes,
    command: Command,
    has_address: bool,
    alt_byte_count: u8,
    dummy_cycles: u8,
    has_data: bool,
) -> PhaseConfig {
    PhaseConfig {
        fmode: mode,
        dmode: if has_data || mode is MemoryMapped {
            spec_dmode(op)
        } else {
            QspiWidth::NoLane
        },
        dcyc: dummy_cycles,
        abmode: if alt_byte_count > 0 {
            spec_amode(op)
        } else {
            QspiWidth::NoLane
        },
        absize: if alt_byte_count > 0 {
            (alt_byte_count - 1) as u8
        } else {
            0
        },
        admode: if has_address || mode is MemoryMapped {
            spec_amode(op)
        } else {
            QspiWidth::NoLane
        },
        adsize: if has_address || mode is MemoryMapped {
            QspiSize::ThreeBytes
        } else {
            QspiSize::OneByte
        },
        imode: spec_imode(op),
        instruction: spec_opcode(command),
        sioo: mode is MemoryMapped,
    }
}

/// The register state after one transaction: entering memory-mapped mode from
/// an indirect mode first clears the address register (and aborts an in-flight
/// indirect read); leaving memory-mapped mode first aborts the mapped
/// transaction; then the phase configuration is rewritten, the data length set
/// for every mode but memory-mapped, the alternate bytes and address pushed
/// where present, and the controller is left busy only for memory-mapped
/// operation.
pub open spec fn spec_regs_after(
    pre: QspiRegisters,
    mode: QspiMode,
    op: OperatingModes,
    command: Command,
    address: u32,
    alt_bytes: u32,
    alt_byte_count: u8,
    dummy_cycles: u8,
    has_data: bool,
    data_length: u32,
) -> QspiRegisters {
    let cleared_ar = if mode is MemoryMapped && (pre.ccr.fmode is IndirectWrite
        || pre.ccr.fmode is IndirectRead) {
        0 as u32
    } else {
        pre.ar
    };
    QspiRegisters {
        ccr: spec_phase_config(
            mode,
            op,
            command,
            address != FLASH_SIZE,
            alt_byte_count,
            dummy_cycles,
            has_data,
        ),
        dlr: if !(mode is MemoryMapped) {
            if data_length > 0 {
                (data_length - 1) as u32
            } else {
                0
            }
        } else {
            pre.dlr
        },
        abr: if alt_byte_count > 0 {
            alt_bytes
        } else {
            pre.abr
        },
        ar: if address != FLASH_SIZE {
            address
        } else {
            cleared_ar
        },
        busy: mode is MemoryMapped,
        fsize: pre.fsize,
        csht: pre.csht,
        ckmode: pre.ckmode,
        prescaler: pre.prescaler,
        enabled: pre.enabled,
    }
}

} // verus!
