//! Device initialization.
//!
//! Both controllers are initialized with four Initialization Command Words (ICW). Each
//! state of the sequence is consumed by its step, so the words go out once each and in
//! order, and only the last step hands out a usable controller.
use vstd::prelude::*;

use crate::driver::{Pic, PicAEOI};
use crate::io::{
    PortIO, PortIOAvailable, PortIOWrapper, MASTER_PIC_COMMAND_PORT, MASTER_PIC_DATA_PORT,
    SLAVE_PIC_COMMAND_PORT, SLAVE_PIC_DATA_PORT,
};
use crate::raw::{ICW1Bits, ICW4Bits};

verus! {

/// Available interrupt trigger modes.
///
/// Each mode stands for a whole ICW1 byte: besides the trigger bit it announces that an
/// ICW4 will follow.
#[derive(Debug, Copy, Clone, PartialEq, Eq, Structural)]
pub enum InterruptTriggerMode {
    EdgeTriggered,
    /// Level triggered mode is only used with the IBM PS/2 computer.
    LevelTriggered,
}

impl InterruptTriggerMode {
    /// The ICW1 byte of this mode.
    pub open spec fn spec_bits(self) -> u8 {
        match self {
            InterruptTriggerMode::EdgeTriggered => 0b0001_0001,
            InterruptTriggerMode::LevelTriggered => 0b0001_1001,
        }
    }

    pub fn bits(self) -> (r: u8)
        ensures
            r == self.spec_bits(),
    {
        match self {
            InterruptTriggerMode::EdgeTriggered => ICW1Bits::ICW4_NEEDED,
            InterruptTriggerMode::LevelTriggered => {
                assert(0b0001_1000u8 | 0b0001_0001u8 == 0b0001_1001u8) by (bit_vector);
                ICW1Bits::LEVEL_TRIGGERED_MODE | ICW1Bits::ICW4_NEEDED
            },
        }
    }
}

/// The bits of a vector offset that the controller fills in with the line number.
const NOT_USED_BITS_MASK: u8 = 0b0000_0111;

/// A vector offset is usable when its low three bits are clear: the controller puts the
/// line number there.
pub open spec fn is_aligned_offset(offset: u8) -> bool {
    offset & 0b0000_0111 == 0
}

/// ICW3 of the master: bit 2 set, since the slave is wired to its line 2.
const CONNECTED_SLAVES: u8 = 0b0000_0100;

/// ICW3 of the slave: the master's line that it is wired to.
const SLAVE_PIC_ID: u8 = 2;

/// ICW1 with the byte of `mode`, to the master's command port and then the slave's.
pub open spec fn icw1_writes(mode: InterruptTriggerMode) -> Seq<(u16, u8)> {
    seq![(MASTER_PIC_COMMAND_PORT, mode.spec_bits()), (SLAVE_PIC_COMMAND_PORT, mode.spec_bits())]
}

/// ICW2, the two vector offsets, then ICW3, the cascade wiring, each to the master's data
/// port and then the slave's.
pub open spec fn icw2_icw3_writes(master_offset: u8, slave_offset: u8) -> Seq<(u16, u8)> {
    seq![
        (MASTER_PIC_DATA_PORT, master_offset),
        (SLAVE_PIC_DATA_PORT, slave_offset),
        (MASTER_PIC_DATA_PORT, 0b0000_0100u8),
        (SLAVE_PIC_DATA_PORT, 0b0000_0010u8),
    ]
}

/// The ICW4 byte: 8086 mode always, automatic end of interrupt when asked for.
pub open spec fn icw4_byte(auto_eoi: bool) -> u8 {
    if auto_eoi {
        0b0000_0011
    } else {
        0b0000_0001
    }
}

/// ICW4 to the master's data port and then the slave's.
pub open spec fn icw4_writes(auto_eoi: bool) -> Seq<(u16, u8)> {
    seq![(MASTER_PIC_DATA_PORT, icw4_byte(auto_eoi)), (SLAVE_PIC_DATA_PORT, icw4_byte(auto_eoi))]
}

/// Start of master and slave initialization.
pub struct PicInit<T: PortIO>(T);

impl<T: PortIO> PicInit<T> {
    /// Sends ICW1 to both controllers and takes the port primitive over.
    pub fn send_icw1(port_io: T, mode: InterruptTriggerMode) -> (r: ICW2AndICW3<T>)
        ensures
            r.writes() == port_io.writes() + icw1_writes(mode),
    {
        let mut port_io = port_io;
        let icw1 = mode.bits();
        port_io.write(MASTER_PIC_COMMAND_PORT, icw1);
        port_io.write(SLAVE_PIC_COMMAND_PORT, icw1);
        ICW2AndICW3(port_io)
    }
}

/// Initialization after ICW1: the second and third words are due.
pub struct ICW2AndICW3<T: PortIO>(T);

impl<T: PortIO> ICW2AndICW3<T> {
    /// The writes made through the port primitive so far.
    pub closed spec fn writes(&self) -> Seq<(u16, u8)> {
        self.0.writes()
    }

    /// Sends ICW2 and ICW3.
    ///
    /// ICW2 sets the interrupt vector offsets, ICW3 the cascade wiring. Both offsets must
    /// have their low three bits clear.
    pub fn send_icw2_and_icw3(self, master_offset: u8, slave_offset: u8) -> (r: ICW4<T>)
        requires
            is_aligned_offset(master_offset),
            is_aligned_offset(slave_offset),
        ensures
            r.writes() == self.writes() + icw2_icw3_writes(master_offset, slave_offset),
    {
        let mut port_io = self.0;
        port_io.write(MASTER_PIC_DATA_PORT, master_offset);
        port_io.write(SLAVE_PIC_DATA_PORT, slave_offset);
        port_io.write(MASTER_PIC_DATA_PORT, CONNECTED_SLAVES);
        port_io.write(SLAVE_PIC_DATA_PORT, SLAVE_PIC_ID);
        ICW4(port_io)
    }

    /// Sends ICW2 and ICW3 when both offsets have their low three bits clear. When either
    /// has one set, the step fails: nothing is written and this state comes back as the
    /// error.
    pub fn try_send_icw2_and_icw3(self, master_offset: u8, slave_offset: u8) -> (r: Result<
        ICW4<T>,
        Self,
    >)
        ensures
            r is Ok <==> is_aligned_offset(master_offset) && is_aligned_offset(slave_offset),
            r matches Ok(next) ==> next.writes() == self.writes() + icw2_icw3_writes(
                master_offset,
                slave_offset,
            ),
            r matches Err(unchanged) ==> unchanged.writes() == self.writes(),
    {
        if master_offset & NOT_USED_BITS_MASK != 0 || slave_offset & NOT_USED_BITS_MASK != 0 {
            Err(self)
        } else {
            Ok(self.send_icw2_and_icw3(master_offset, slave_offset))
        }
    }
}

/// Initialization after ICW3: the fourth word, which picks the end-of-interrupt mode, is due.
pub struct ICW4<T: PortIO>(T);

impl<T: PortIO> ICW4<T> {
    /// The writes made through the port primitive so far.
    pub closed spec fn writes(&self) -> Seq<(u16, u8)> {
        self.0.writes()
    }

    /// Sends the ICW4 of Automatic End Of Interrupt (AEOI) mode.
    ///
    /// Some PC hardware does not support this mode. Where it works it is the cheapest
    /// one: no end-of-interrupt message follows each interrupt.
    pub fn send_icw4_aeoi(self) -> (r: PicAEOI<T>)
        ensures
            r.wrapper().writes() == self.writes() + icw4_writes(true),
    {
        let mut port_io = self.0;
        let icw4 = ICW4Bits::ENABLE_8068_MODE | ICW4Bits::AUTOMATIC_END_OF_INTERRUPT;
        assert(0b0000_0001u8 | 0b0000_0010u8 == 0b0000_0011u8) by (bit_vector);
        port_io.write(MASTER_PIC_DATA_PORT, icw4);
        port_io.write(SLAVE_PIC_DATA_PORT, icw4);
        PicAEOI::new(PortIOWrapper::new(port_io))
    }

    /// Sends the ICW4 of normal End Of Interrupt (EOI) mode, in which every interrupt
    /// must be acknowledged.
    pub fn send_icw4(self) -> (r: Pic<T>)
        ensures
            r.wrapper().writes() == self.writes() + icw4_writes(false),
    {
        let mut port_io = self.0;
        let icw4 = ICW4Bits::ENABLE_8068_MODE;
        port_io.write(MASTER_PIC_DATA_PORT, icw4);
        port_io.write(SLAVE_PIC_DATA_PORT, icw4);
        Pic::new(PortIOWrapper::new(port_io))
    }
}

} // verus!
