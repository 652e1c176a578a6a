//! The initialized controller pair and its operations.
use vstd::prelude::*;

use crate::io::{
    latest_write, lemma_latest_write_skips_other_ports,    PortIO, PortIOAvailable, PortIOWrapper, MASTER_PIC_COMMAND_PORT, MASTER_PIC_DATA_PORT,
    SLAVE_PIC_COMMAND_PORT, SLAVE_PIC_DATA_PORT,
};
use crate::raw::{OCW2Commands, OCW3ReadRegisterCommand};
use core::marker::PhantomData;

verus! {

/// The non-specific end-of-interrupt command word (OCW2).
pub open spec fn non_specific_eoi() -> u8 {
    OCW2Commands::NonSpecificEOI.spec_bits()
}

/// The two writes that select `register` for reads of the command ports: its OCW3 byte
/// to the master's command port, then to the slave's.
pub open spec fn select_writes(register: OCW3ReadRegisterCommand) -> Seq<(u16, u8)> {
    seq![
        (MASTER_PIC_COMMAND_PORT, register.spec_bits()),
        (SLAVE_PIC_COMMAND_PORT, register.spec_bits()),
    ]
}

/// Controller pair in automatic end-of-interrupt mode: the hardware acknowledges each
/// interrupt itself, so this type has no end-of-interrupt operation.
pub struct PicAEOI<T: PortIO>(PortIOWrapper<T>);

impl<T: PortIO> PicAEOI<T> {
    pub(crate) fn new(port_io: PortIOWrapper<T>) -> (r: Self)
        ensures
            r.wrapper() == port_io,
    {
        PicAEOI(port_io)
    }
}

impl<T: PortIO> PortIOAvailable<T> for PicAEOI<T> {
    closed spec fn wrapper(&self) -> PortIOWrapper<T> {
        self.0
    }

    fn port_io(&self) -> (r: &PortIOWrapper<T>) {
        &self.0
    }

    fn port_io_mut(&mut self) -> (r: &mut PortIOWrapper<T>) {
        &mut self.0
    }
}

/// Controller pair in normal end-of-interrupt mode: each interrupt must be acknowledged
/// with [`SendEOI`].
pub struct Pic<T: PortIO>(PortIOWrapper<T>);

impl<T: PortIO> Pic<T> {
    pub(crate) fn new(port_io: PortIOWrapper<T>) -> (r: Self)
        ensures
            r.wrapper() == port_io,
    {
        Pic(port_io)
    }
}

impl<T: PortIO> PortIOAvailable<T> for Pic<T> {
    closed spec fn wrapper(&self) -> PortIOWrapper<T> {
        self.0
    }

    fn port_io(&self) -> (r: &PortIOWrapper<T>) {
        &self.0
    }

    fn port_io_mut(&mut self) -> (r: &mut PortIOWrapper<T>) {
        &mut self.0
    }
}

/// Sending the end-of-interrupt command.
pub trait SendEOI<T: PortIO>: PortIOAvailable<T> {
    /// Acknowledges an interrupt of the master controller (lines 0 to 7).
    fn send_eoi_to_master(&mut self)
        ensures
            final(self).wrapper().writes() == old(self).wrapper().writes().push(
                (MASTER_PIC_COMMAND_PORT, non_specific_eoi()),
            ),
    {
        let eoi = OCW2Commands::NonSpecificEOI.bits();
        self.port_io_mut().write(MASTER_PIC_COMMAND_PORT, eoi);
    }

    /// Acknowledges the slave controller alone.
    fn send_eoi_to_slave(&mut self)
        ensures
            final(self).wrapper().writes() == old(self).wrapper().writes().push(
                (SLAVE_PIC_COMMAND_PORT, non_specific_eoi()),
            ),
    {
        let eoi = OCW2Commands::NonSpecificEOI.bits();
        self.port_io_mut().write(SLAVE_PIC_COMMAND_PORT, eoi);
    }

    /// Acknowledges an interrupt of the slave controller (lines 8 to 15): the slave
    /// first, then the master that it is cascaded into.
    fn send_eoi_to_slave_and_master(&mut self)
        ensures
            final(self).wrapper().writes() == old(self).wrapper().writes().push(
                (SLAVE_PIC_COMMAND_PORT, non_specific_eoi()),
            ).push((MASTER_PIC_COMMAND_PORT, non_specific_eoi())),
    {
        self.send_eoi_to_slave();
        self.send_eoi_to_master();
    }
}

/// Reading and writing the interrupt masks.
///
/// Bit `i` of a mask set to one disables line `i` of that controller. Spurious
/// interrupts may still be reported unless every line is masked.
pub trait PicMask<T: PortIO>: PortIOAvailable<T> {
    fn set_master_mask(&mut self, mask: u8)
        ensures
            final(self).wrapper().writes() == old(self).wrapper().writes().push(
                (MASTER_PIC_DATA_PORT, mask),
            ),
    {
        self.port_io_mut().write(MASTER_PIC_DATA_PORT, mask);
    }

    fn set_slave_mask(&mut self, mask: u8)
        ensures
            final(self).wrapper().writes() == old(self).wrapper().writes().push(
                (SLAVE_PIC_DATA_PORT, mask),
            ),
    {
        self.port_io_mut().write(SLAVE_PIC_DATA_PORT, mask);
    }

    /// The master's mask, as its data port reads.
    fn master_mask(&self) -> (r: u8)
        ensures
            self.wrapper().can_read(MASTER_PIC_DATA_PORT, r),
    {
        self.port_io().read(MASTER_PIC_DATA_PORT)
    }

    /// The slave's mask, as its data port reads.
    fn slave_mask(&self) -> (r: u8)
        ensures
            self.wrapper().can_read(SLAVE_PIC_DATA_PORT, r),
    {
        self.port_io().read(SLAVE_PIC_DATA_PORT)
    }
}

impl<T: PortIO> PicMask<T> for PicAEOI<T> {

}

impl<T: PortIO> PicMask<T> for Pic<T> {

}

impl<T: PortIO> SendEOI<T> for Pic<T> {

}

impl<T: PortIO, U: PortIOAvailable<T>> PicMask<T> for RegisterReadModeIRR<T, U> {

}

impl<T: PortIO, U: PortIOAvailable<T>> PicMask<T> for RegisterReadModeISR<T, U> {

}

/// Reads of the command ports return the Interrupt Request Register (IRR).
pub struct RegisterReadModeIRR<T: PortIO, U: PortIOAvailable<T>>(PhantomData<T>, U);

impl<T: PortIO, U: PortIOAvailable<T>> PortIOAvailable<T> for RegisterReadModeIRR<T, U> {
    closed spec fn wrapper(&self) -> PortIOWrapper<T> {
        self.1.wrapper()
    }

    fn port_io(&self) -> (r: &PortIOWrapper<T>) {
        self.1.port_io()
    }

    fn port_io_mut(&mut self) -> (r: &mut PortIOWrapper<T>) {
        self.1.port_io_mut()
    }
}

impl<T: PortIO, U: PortIOAvailable<T>> LockedReadRegister<T> for RegisterReadModeIRR<T, U> {
    const REGISTER: OCW3ReadRegisterCommand = OCW3ReadRegisterCommand::InterruptRequest;
}

impl<T: PortIO, U: PortIOAvailable<T>> RegisterReadModeIRR<T, U> {
    fn new(pic: U) -> (r: Self)
        ensures
            r.wrapper().writes() == pic.wrapper().writes() + select_writes(
                OCW3ReadRegisterCommand::InterruptRequest,
            ),
    {
        let mut pic = pic;
        let select = Self::REGISTER.bits();
        pic.port_io_mut().write(MASTER_PIC_COMMAND_PORT, select);
        pic.port_io_mut().write(SLAVE_PIC_COMMAND_PORT, select);
        RegisterReadModeIRR(PhantomData, pic)
    }

    /// Leaves IRR mode and hands the controller back. Nothing is written.
    pub fn exit(self) -> (r: U)
        ensures
            r.wrapper() == self.wrapper(),
    {
        self.1
    }
}

/// Reads of the command ports return the In-Service Register (ISR).
pub struct RegisterReadModeISR<T: PortIO, U: PortIOAvailable<T>>(PhantomData<T>, U);

impl<T: PortIO, U: PortIOAvailable<T>> PortIOAvailable<T> for RegisterReadModeISR<T, U> {
    closed spec fn wrapper(&self) -> PortIOWrapper<T> {
        self.1.wrapper()
    }

    fn port_io(&self) -> (r: &PortIOWrapper<T>) {
        self.1.port_io()
    }

    fn port_io_mut(&mut self) -> (r: &mut PortIOWrapper<T>) {
        self.1.port_io_mut()
    }
}

impl<T: PortIO, U: PortIOAvailable<T>> LockedReadRegister<T> for RegisterReadModeISR<T, U> {
    const REGISTER: OCW3ReadRegisterCommand = OCW3ReadRegisterCommand::InService;
}

impl<T: PortIO, U: PortIOAvailable<T>> RegisterReadModeISR<T, U> {
    fn new(pic: U) -> (r: Self)
        ensures
            r.wrapper().writes() == pic.wrapper().writes() + select_writes(
                OCW3ReadRegisterCommand::InService,
            ),
    {
        let mut pic = pic;
        let select = Self::REGISTER.bits();
        pic.port_io_mut().write(MASTER_PIC_COMMAND_PORT, select);
        pic.port_io_mut().write(SLAVE_PIC_COMMAND_PORT, select);
        RegisterReadModeISR(PhantomData, pic)
    }

    /// Leaves ISR mode and hands the controller back. Nothing is written.
    pub fn exit(self) -> (r: U)
        ensures
            r.wrapper() == self.wrapper(),
    {
        self.1
    }
}

/// Reads of the command ports, once the right register has been selected.
///
/// The driver's read-mode types select `REGISTER` on entry and offer no command-port
/// write afterwards, so the selection is still the latest write to both command ports
/// when these reads run (see `lemma_read_mode_select_stays_latest`).
pub trait LockedReadRegister<T: PortIO>: PortIOAvailable<T> {
    /// The register that the implementer selected before handing out this value.
    const REGISTER: OCW3ReadRegisterCommand;

    /// The selected register of the master controller.
    fn read_master(&self) -> (r: u8)
        ensures
            self.wrapper().can_read(MASTER_PIC_COMMAND_PORT, r),
    {
        self.port_io().read(MASTER_PIC_COMMAND_PORT)
    }

    /// The selected register of the slave controller.
    fn read_slave(&self) -> (r: u8)
        ensures
            self.wrapper().can_read(SLAVE_PIC_COMMAND_PORT, r),
    {
        self.port_io().read(SLAVE_PIC_COMMAND_PORT)
    }
}


/// Switching a controller into a register read mode.
///
/// The select byte goes out on every entry: the controller's previous selection is never
/// relied on.
pub trait ChangeRegisterReadMode<T: PortIO>: Sized + PortIOAvailable<T> {
    /// Selects the Interrupt Request Register on both controllers.
    fn read_irr_mode(self) -> (r: RegisterReadModeIRR<T, Self>)
        ensures
            r.wrapper().writes() == self.wrapper().writes() + select_writes(
                OCW3ReadRegisterCommand::InterruptRequest,
            ),
    {
        RegisterReadModeIRR::new(self)
    }

    /// Selects the In-Service Register on both controllers.
    fn read_isr_mode(self) -> (r: RegisterReadModeISR<T, Self>)
        ensures
            r.wrapper().writes() == self.wrapper().writes() + select_writes(
                OCW3ReadRegisterCommand::InService,
            ),
    {
        RegisterReadModeISR::new(self)
    }
}

impl<T: PortIO> ChangeRegisterReadMode<T> for PicAEOI<T> {

}

impl<T: PortIO> ChangeRegisterReadMode<T> for Pic<T> {

}

/// A read mode is selected afresh on every entry, never taken as still in place: entering
/// IRR mode, leaving it and entering ISR mode writes the IRR select byte and then the ISR
/// select byte, each to the master's command port and then the slave's, four writes in all.
pub proof fn lemma_read_mode_selected_on_every_entry<
    T: PortIO,
    U: ChangeRegisterReadMode<T>,
>(pic: U, irr: RegisterReadModeIRR<T, U>, back: U, isr: RegisterReadModeISR<T, U>)
    requires
        irr.wrapper().writes() == pic.wrapper().writes() + select_writes(
            OCW3ReadRegisterCommand::InterruptRequest,
        ),
        back.wrapper() == irr.wrapper(),
        isr.wrapper().writes() == back.wrapper().writes() + select_writes(
            OCW3ReadRegisterCommand::InService,
        ),
    ensures
        isr.wrapper().writes() == pic.wrapper().writes() + seq![
            (MASTER_PIC_COMMAND_PORT, 0b0000_1010u8),
            (SLAVE_PIC_COMMAND_PORT, 0b0000_1010u8),
            (MASTER_PIC_COMMAND_PORT, 0b0000_1011u8),
            (SLAVE_PIC_COMMAND_PORT, 0b0000_1011u8),
        ],
        isr.wrapper().writes().len() == pic.wrapper().writes().len() + 4,
{
    assert(isr.wrapper().writes() =~= pic.wrapper().writes() + seq![
        (MASTER_PIC_COMMAND_PORT, 0b0000_1010u8),
        (SLAVE_PIC_COMMAND_PORT, 0b0000_1010u8),
        (MASTER_PIC_COMMAND_PORT, 0b0000_1011u8),
        (SLAVE_PIC_COMMAND_PORT, 0b0000_1011u8),
    ]);
}


/// The selection holds for every read made in a read mode: a read-mode value `now` reached
/// from its entry `entered` by mask writes alone (the only writes a read mode offers) still
/// has the select byte of its register as the latest write to both command ports, which
/// is what `read_master` and `read_slave` then read.
pub proof fn lemma_read_mode_select_stays_latest<T: PortIO, L: LockedReadRegister<T>>(
    before: Seq<(u16, u8)>,
    entered: L,
    masks: Seq<(u16, u8)>,
    now: L,
)
    requires
        entered.wrapper().writes() == before + select_writes(L::REGISTER),
        now.wrapper().writes() == entered.wrapper().writes() + masks,
        forall|i: int|
            0 <= i < masks.len() ==> #[trigger] masks[i].0 == MASTER_PIC_DATA_PORT
                || masks[i].0 == SLAVE_PIC_DATA_PORT,
    ensures
        latest_write(now.wrapper().writes(), MASTER_PIC_COMMAND_PORT) == Some(
            L::REGISTER.spec_bits(),
        ),
        latest_write(now.wrapper().writes(), SLAVE_PIC_COMMAND_PORT) == Some(
            L::REGISTER.spec_bits(),
        ),
{
    let selected = entered.wrapper().writes();
    lemma_latest_write_skips_other_ports(selected, masks, MASTER_PIC_COMMAND_PORT);
    lemma_latest_write_skips_other_ports(selected, masks, SLAVE_PIC_COMMAND_PORT);
    assert(selected.drop_last() =~= before.push(
        (MASTER_PIC_COMMAND_PORT, L::REGISTER.spec_bits()),
    ));
    assert(latest_write(selected.drop_last(), MASTER_PIC_COMMAND_PORT) == Some(
        L::REGISTER.spec_bits(),
    ));
}

} // verus!
