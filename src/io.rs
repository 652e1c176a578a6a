//! Access to the controllers' I/O ports.
//!
//! The port primitive itself comes from the user of the library through [`PortIO`]. Its
//! model is the sequence of `(port, byte)` writes made through it, oldest first; every
//! operation of the driver is specified by what it appends to that sequence.
use vstd::prelude::*;

use crate::recording::RecordingPortIO;

verus! {

/// Command port of the master controller: initialization word 1 and operation words 2 and 3
/// go out here, and the register selected by OCW3 reads back here.
pub const MASTER_PIC_COMMAND_PORT: u16 = 0x20;

/// Data port of the master controller: initialization words 2 to 4 and the interrupt mask.
pub const MASTER_PIC_DATA_PORT: u16 = 0x21;

/// Command port of the slave controller.
pub const SLAVE_PIC_COMMAND_PORT: u16 = 0xA0;

/// Data port of the slave controller.
pub const SLAVE_PIC_DATA_PORT: u16 = 0xA1;

/// Byte-wide reads and writes of the four controller ports.
///
/// On real hardware `read` and `write` are the `in` and `out` instructions. An
/// implementation of `write` must append exactly the write it performs to `writes`.
pub trait PortIO {
    /// Every byte written through this value, oldest first, paired with its port.
    spec fn writes(&self) -> Seq<(u16, u8)>;

    /// Whether a read of `port` may return `value` in this state. Hardware, whose
    /// registers change on their own, allows every value.
    spec fn can_read(&self, port: u16, value: u8) -> bool;

    fn read(&self, port: u16) -> (r: u8)
        ensures
            self.can_read(port, r),
    ;

    fn write(&mut self, port: u16, data: u8)
        ensures
            final(self).writes() == old(self).writes().push((port, data)),
    ;
}

/// Holds the port primitive once initialization has started, so that no write can reach
/// the controllers except through the driver.
pub struct PortIOWrapper<T: PortIO>(T);

impl<T: PortIO> PortIOWrapper<T> {
    /// The wrapped port primitive.
    pub closed spec fn inner(&self) -> T {
        self.0
    }

    pub open spec fn writes(&self) -> Seq<(u16, u8)> {
        self.inner().writes()
    }

    pub open spec fn can_read(&self, port: u16, value: u8) -> bool {
        self.inner().can_read(port, value)
    }

    pub(crate) fn new(port_io: T) -> (r: Self)
        ensures
            r.inner() == port_io,
    {
        PortIOWrapper(port_io)
    }

    pub(crate) fn read(&self, port: u16) -> (r: u8)
        ensures
            self.can_read(port, r),
    {
        self.0.read(port)
    }

    pub(crate) fn write(&mut self, port: u16, data: u8)
        ensures
            final(self).writes() == old(self).writes().push((port, data)),
    {
        self.0.write(port, data);
    }
}

impl PortIOWrapper<RecordingPortIO> {
    /// Every write made through a recording port so far, oldest first.
    pub fn log(&self) -> (r: &Vec<(u16, u8)>)
        ensures
            r@ == self.writes(),
    {
        self.0.log()
    }
}

/// The byte most recently written to `port` in `writes`, if any was.
pub open spec fn latest_write(writes: Seq<(u16, u8)>, port: u16) -> Option<u8>
    decreases writes.len(),
{
    if writes.len() == 0 {
        None
    } else if writes.last().0 == port {
        Some(writes.last().1)
    } else {
        latest_write(writes.drop_last(), port)
    }
}

/// Writes appended after `writes` that avoid `port` leave its latest write as it was.
pub proof fn lemma_latest_write_skips_other_ports(
    writes: Seq<(u16, u8)>,
    later: Seq<(u16, u8)>,
    port: u16,
)
    requires
        forall|i: int| 0 <= i < later.len() ==> #[trigger] later[i].0 != port,
    ensures
        latest_write(writes + later, port) == latest_write(writes, port),
    decreases later.len(),
{
    if later.len() > 0 {
        assert((writes + later).drop_last() =~= writes + later.drop_last());
        lemma_latest_write_skips_other_ports(writes, later.drop_last(), port);
    } else {
        assert(writes + later =~= writes);
    }
}

/// Access to the wrapped port primitive of a controller state, for the driver's
/// operations and for debugging.
///
/// The driver's controller and read-mode types implement it. Outside the driver a
/// [`PortIOWrapper`] can only be borrowed from one of those, and nothing can be written
/// through it, though a type that holds a controller may implement this trait by handing
/// out its controller's wrapper.
pub trait PortIOAvailable<T: PortIO> {
    /// The wrapped port primitive.
    spec fn wrapper(&self) -> PortIOWrapper<T>;

    fn port_io(&self) -> (r: &PortIOWrapper<T>)
        ensures
            *r == self.wrapper(),
    ;

    fn port_io_mut(&mut self) -> (r: &mut PortIOWrapper<T>)
        ensures
            *r == old(self).wrapper(),
            final(self).wrapper() == *final(r),
    ;
}

} // verus!
