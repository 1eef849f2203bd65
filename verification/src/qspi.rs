//! The bus peripheral's vocabulary: lane widths, functional modes, address
//! sizes, the per-command lane-width combinations, and the phase-configuration
//! register state that one transaction programs.

use vstd::prelude::*;

verus! {

/// Lane count used by one phase of a transaction. Each phase of a transaction
/// (instruction, address, alternate bytes, data) is tagged independently.
#[derive(Clone, Copy, PartialEq, Eq, Structural, Debug)]
pub enum QspiWidth {
    NoLane,
    Single,
    Dual,
    Quad,
}

/// The register encoding of a lane width.
pub open spec fn spec_width_bits(w: QspiWidth) -> u8 {
    match w {
        QspiWidth::NoLane => 0b00,
        QspiWidth::Single => 0b01,
        QspiWidth::Dual => 0b10,
        QspiWidth::Quad => 0b11,
    }
}

/// The bus peripheral's mutually exclusive functional modes.
#[derive(Clone, Copy, PartialEq, Eq, Structural, Debug)]
pub enum QspiMode {
    IndirectWrite,
    IndirectRead,
    AutoPolling,
    MemoryMapped,
}

/// The register encoding of a functional mode.
pub open spec fn spec_mode_bits(m: QspiMode) -> u8 {
    match m {
        QspiMode::IndirectWrite => 0b00,
        QspiMode::IndirectRead => 0b01,
        QspiMode::AutoPolling => 0b10,
        QspiMode::MemoryMapped => 0b11,
    }
}

impl QspiWidth {
    /// The bits this width is programmed as.
    pub fn bits(self) -> (r: u8)
        ensures
            r == spec_width_bits(self),
    {
        match self {
            QspiWidth::NoLane => 0b00,
            QspiWidth::Single => 0b01,
            QspiWidth::Dual => 0b10,
            QspiWidth::Quad => 0b11,
        }
    }
}

impl QspiMode {
    /// The bits this mode is programmed as.
    pub fn bits(self) -> (r: u8)
        ensures
            r == spec_mode_bits(self),
    {
        match self {
            QspiMode::IndirectWrite => 0b00,
            QspiMode::IndirectRead => 0b01,
            QspiMode::AutoPolling => 0b10,
            QspiMode::MemoryMapped => 0b11,
        }
    }
}

/// How many bytes the address phase sends; this chip family always uses three.
#[derive(Clone, Copy, PartialEq, Eq, Structural, Debug)]
pub enum QspiSize {
    OneByte,
    TwoBytes,
    ThreeBytes,
    FourBytes,
}

/// The register encoding of an address size (the byte count minus one).
pub open spec fn spec_size_bits(s: QspiSize) -> u8 {
    match s {
        QspiSize::OneByte => 0b00,
        QspiSize::TwoBytes => 0b01,
        QspiSize::ThreeBytes => 0b10,
        QspiSize::FourBytes => 0b11,
    }
}

impl QspiSize {
    /// The bits this address size is programmed as.
    pub fn bits(self) -> (r: u8)
        ensures
            r == spec_size_bits(self),
    {
        match self {
            QspiSize::OneByte => 0b00,
            QspiSize::TwoBytes => 0b01,
            QspiSize::ThreeBytes => 0b10,
            QspiSize::FourBytes => 0b11,
        }
    }
}

/// The fixed lane-width combinations the command set uses: `ModesIAD` names
/// the widths of the instruction, address and data phases in that order
/// (1, 0 or 4 lanes each).
#[derive(Clone, Copy, PartialEq, Eq, Structural, Debug)]
pub enum OperatingModes {
    Modes100,
    Modes101,
    Modes110,
    Modes111,
    Modes114,
    Modes144,
}

/// Width of the instruction phase: always a single lane for this command set.
pub open spec fn spec_imode(m: OperatingModes) -> QspiWidth {
    QspiWidth::Single
}

/// Width of the address and alternate-byte phases.
pub open spec fn spec_amode(m: OperatingModes) -> QspiWidth {
    match m {
        OperatingModes::Modes100 => QspiWidth::NoLane,
        OperatingModes::Modes101 => QspiWidth::NoLane,
        OperatingModes::Modes110 => QspiWidth::Single,
        OperatingModes::Modes111 => QspiWidth::Single,
        OperatingModes::Modes114 => QspiWidth::Single,
        OperatingModes::Modes144 => QspiWidth::Quad,
    }
}

/// Width of the data phase.
pub open spec fn spec_dmode(m: OperatingModes) -> QspiWidth {
    match m {
        OperatingModes::Modes100 => QspiWidth::NoLane,
        OperatingModes::Modes101 => QspiWidth::Single,
        OperatingModes::Modes110 => QspiWidth::NoLane,
        OperatingModes::Modes111 => QspiWidth::Single,
        OperatingModes::Modes114 => QspiWidth::Quad,
        OperatingModes::Modes144 => QspiWidth::Quad,
    }
}

impl OperatingModes {
    /// Lane width of the instruction phase.
    pub fn imode(&self) -> (r: QspiWidth)
        ensures
            r == spec_imode(*self),
    {
        QspiWidth::Single
    }

    /// Lane width of the address and alternate-byte phases.
    pub fn amode(&self) -> (r: QspiWidth)
        ensures
            r == spec_amode(*self),
    {
        match *self {
            OperatingModes::Modes100 => QspiWidth::NoLane,
            OperatingModes::Modes101 => QspiWidth::NoLane,
            OperatingModes::Modes110 => QspiWidth::Single,
            OperatingModes::Modes111 => QspiWidth::Single,
            OperatingModes::Modes114 => QspiWidth::Single,
            OperatingModes::Modes144 => QspiWidth::Quad,
        }
    }

    /// Lane width of the data phase.
    pub fn dmode(&self) -> (r: QspiWidth)
        ensures
            r == spec_dmode(*self),
    {
        match *self {
            OperatingModes::Modes100 => QspiWidth::NoLane,
            OperatingModes::Modes101 => QspiWidth::Single,
            OperatingModes::Modes110 => QspiWidth::NoLane,
            OperatingModes::Modes111 => QspiWidth::Single,
            OperatingModes::Modes114 => QspiWidth::Quad,
            OperatingModes::Modes144 => QspiWidth::Quad,
        }
    }
}

} // verus!
