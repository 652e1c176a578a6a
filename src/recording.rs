//! A port primitive without hardware behind it, for exercising the driver.
use vstd::prelude::*;

use crate::driver::PicMask;
use crate::io::{latest_write, PortIO, PortIOAvailable, MASTER_PIC_DATA_PORT, SLAVE_PIC_DATA_PORT};

verus! {

/// The byte that a loopback port returns: the last one written to `port`, or zero when
/// none was.
pub open spec fn last_written(writes: Seq<(u16, u8)>, port: u16) -> u8 {
    match latest_write(writes, port) {
        Some(data) => data,
        None => 0,
    }
}

/// Keeps every write in order; a read of a port returns the last byte written to it, or
/// zero when none was.
pub struct RecordingPortIO {
    log: Vec<(u16, u8)>,
}

impl RecordingPortIO {
    pub fn new() -> (r: Self)
        ensures
            r.writes() == Seq::<(u16, u8)>::empty(),
    {
        RecordingPortIO { log: Vec::new() }
    }

    /// Every write so far, oldest first.
    pub fn log(&self) -> (r: &Vec<(u16, u8)>)
        ensures
            r@ == self.writes(),
    {
        &self.log
    }
}

impl PortIO for RecordingPortIO {
    closed spec fn writes(&self) -> Seq<(u16, u8)> {
        self.log@
    }

    open spec fn can_read(&self, port: u16, value: u8) -> bool {
        value == last_written(self.writes(), port)
    }

    fn read(&self, port: u16) -> (r: u8) {
        let mut i: usize = self.log.len();
        assert(self.log@.take(i as int) =~= self.log@);
        while i > 0
            invariant
                i <= self.log@.len(),
                latest_write(self.log@, port) == latest_write(self.log@.take(i as int), port),
            decreases i,
        {
            let (p, data) = self.log[i - 1];
            assert(self.log@.take(i as int).drop_last() =~= self.log@.take(i - 1));
            if p == port {
                return data;
            }
            i = i - 1;
        }
        0
    }

    fn write(&mut self, port: u16, data: u8) {
        self.log.push((port, data));
    }
}

/// Over a loopback port a mask reads back as it was written: once `set_master_mask(mask)`
/// (or `set_slave_mask(mask)`) has taken a controller from `before` to `after`,
/// `master_mask()` (or `slave_mask()`) on `after` returns `mask`.
pub proof fn lemma_mask_reads_back<P: PicMask<RecordingPortIO>>(
    before: P,
    after: P,
    port: u16,
    mask: u8,
    read: u8,
)
    requires
        port == MASTER_PIC_DATA_PORT || port == SLAVE_PIC_DATA_PORT,
        after.wrapper().writes() == before.wrapper().writes().push((port, mask)),
        after.wrapper().can_read(port, read),
    ensures
        read == mask,
{
}

} // verus!
