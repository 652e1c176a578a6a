//! Raw command words of the 8259A, bit for bit as the Intel reference gives them.
//!
//! The PC/AT wiring does not support every command listed here.
use vstd::prelude::*;

verus! {

/// Flags of the first initialization command word (ICW1).
///
/// Every ICW1 carries the identifier bit, so each flag below already holds it.
#[derive(Debug)]
pub struct ICW1Bits;

impl ICW1Bits {
    pub const ICW1_IDENTIFIER_BIT: u8 = 0b0001_0000;

    pub const ICW4_NEEDED: u8 = 0b0001_0001;

    pub const SINGLE_MODE: u8 = 0b0001_0010;

    pub const CALL_ADDRESS_INTERVAL_4: u8 = 0b0001_0100;

    pub const LEVEL_TRIGGERED_MODE: u8 = 0b0001_1000;
}

/// Flags of the fourth initialization command word (ICW4).
#[derive(Debug)]
pub struct ICW4Bits;

impl ICW4Bits {
    pub const ENABLE_8068_MODE: u8 = 0b0000_0001;

    pub const AUTOMATIC_END_OF_INTERRUPT: u8 = 0b0000_0010;

    pub const SPECIAL_FULLY_NESTED_MODE: u8 = 0b0001_0000;
}

/// Buffered mode selection of ICW4.
#[derive(Debug, Copy, Clone, PartialEq, Eq, Structural)]
pub enum ICW4BufferedMode {
    Slave,
    Master,
}

impl ICW4BufferedMode {
    pub open spec fn spec_bits(self) -> u8 {
        match self {
            ICW4BufferedMode::Slave => 0b0000_1000,
            ICW4BufferedMode::Master => 0b0000_1100,
        }
    }

    pub fn bits(self) -> (r: u8)
        ensures
            r == self.spec_bits(),
    {
        match self {
            ICW4BufferedMode::Slave => 0b0000_1000,
            ICW4BufferedMode::Master => 0b0000_1100,
        }
    }
}

/// Commands of the second operation command word (OCW2).
#[derive(Debug, Copy, Clone, PartialEq, Eq, Structural)]
pub enum OCW2Commands {
    NonSpecificEOI,
    SpecificEOI,
    RotateOnNonSpecificEOI,
    RotateInAEOIModeSet,
    RotateInAEOIModeClear,
    /// Command requires `OCW2IRLevel`.
    RotateOnSpecificEOI,
    /// Command requires `OCW2IRLevel`.
    SetPriority,
    NoOperation,
}

impl OCW2Commands {
    pub open spec fn spec_bits(self) -> u8 {
        match self {
            OCW2Commands::NonSpecificEOI => 0b0010_0000,
            OCW2Commands::SpecificEOI => 0b0110_0000,
            OCW2Commands::RotateOnNonSpecificEOI => 0b1010_0000,
            OCW2Commands::RotateInAEOIModeSet => 0b1000_0000,
            OCW2Commands::RotateInAEOIModeClear => 0b0000_0000,
            OCW2Commands::RotateOnSpecificEOI => 0b1110_0000,
            OCW2Commands::SetPriority => 0b1100_0000,
            OCW2Commands::NoOperation => 0b0100_0000,
        }
    }

    pub fn bits(self) -> (r: u8)
        ensures
            r == self.spec_bits(),
    {
        match self {
            OCW2Commands::NonSpecificEOI => 0b0010_0000,
            OCW2Commands::SpecificEOI => 0b0110_0000,
            OCW2Commands::RotateOnNonSpecificEOI => 0b1010_0000,
            OCW2Commands::RotateInAEOIModeSet => 0b1000_0000,
            OCW2Commands::RotateInAEOIModeClear => 0b0000_0000,
            OCW2Commands::RotateOnSpecificEOI => 0b1110_0000,
            OCW2Commands::SetPriority => 0b1100_0000,
            OCW2Commands::NoOperation => 0b0100_0000,
        }
    }
}

/// Interrupt request line that some OCW2 commands act on.
#[derive(Debug, Copy, Clone, PartialEq, Eq, Structural)]
pub enum OCW2IRLevel {
    Zero,
    One,
    Two,
    Three,
    Four,
    Five,
    Six,
    Seven,
}

impl OCW2IRLevel {
    /// The line number, which is also the command's low three bits.
    pub open spec fn spec_bits(self) -> u8 {
        match self {
            OCW2IRLevel::Zero => 0,
            OCW2IRLevel::One => 1,
            OCW2IRLevel::Two => 2,
            OCW2IRLevel::Three => 3,
            OCW2IRLevel::Four => 4,
            OCW2IRLevel::Five => 5,
            OCW2IRLevel::Six => 6,
            OCW2IRLevel::Seven => 7,
        }
    }

    pub fn bits(self) -> (r: u8)
        ensures
            r == self.spec_bits(),
            r < 8,
    {
        match self {
            OCW2IRLevel::Zero => 0,
            OCW2IRLevel::One => 1,
            OCW2IRLevel::Two => 2,
            OCW2IRLevel::Three => 3,
            OCW2IRLevel::Four => 4,
            OCW2IRLevel::Five => 5,
            OCW2IRLevel::Six => 6,
            OCW2IRLevel::Seven => 7,
        }
    }
}

/// Flags of the third operation command word (OCW3).
#[derive(Debug)]
pub struct OCW3Bits;

impl OCW3Bits {
    pub const OCW3_IDENTIFIER_BIT: u8 = 0b0000_1000;

    pub const POLL_COMMAND: u8 = 0b0000_1100;
}

/// Special mask mode selection of OCW3.
#[derive(Debug, Copy, Clone, PartialEq, Eq, Structural)]
pub enum OCW3SpecialMaskMode {
    NoAction,
    Reset,
    SetMode,
}

impl OCW3SpecialMaskMode {
    pub open spec fn spec_bits(self) -> u8 {
        match self {
            OCW3SpecialMaskMode::NoAction => 0b0000_1000,
            OCW3SpecialMaskMode::Reset => 0b0100_1000,
            OCW3SpecialMaskMode::SetMode => 0b0110_1000,
        }
    }

    pub fn bits(self) -> (r: u8)
        ensures
            r == self.spec_bits(),
    {
        match self {
            OCW3SpecialMaskMode::NoAction => 0b0000_1000,
            OCW3SpecialMaskMode::Reset => 0b0100_1000,
            OCW3SpecialMaskMode::SetMode => 0b0110_1000,
        }
    }
}

/// Register that reads of the command ports return, selected with OCW3.
#[derive(Debug, Copy, Clone, PartialEq, Eq, Structural)]
pub enum OCW3ReadRegisterCommand {
    InterruptRequest,
    InService,
}

impl OCW3ReadRegisterCommand {
    pub open spec fn spec_bits(self) -> u8 {
        match self {
            OCW3ReadRegisterCommand::InterruptRequest => 0b0000_1010,
            OCW3ReadRegisterCommand::InService => 0b0000_1011,
        }
    }

    pub fn bits(self) -> (r: u8)
        ensures
            r == self.spec_bits(),
    {
        match self {
            OCW3ReadRegisterCommand::InterruptRequest => 0b0000_1010,
            OCW3ReadRegisterCommand::InService => 0b0000_1011,
        }
    }
}

} // verus!
