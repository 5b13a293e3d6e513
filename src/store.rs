use vstd::prelude::*;
use crate::device::NorFlash;
use crate::model::{
    erased, in_bounds, programmed, DeviceModel, FlashError, MAX_SECTORS, SECTOR_SIZE,
};

verus! {

/// The device after at most `max` status polls: the busy countdown runs out
/// within them, or `max` busy reads have been spent.
pub open spec fn after_wait(m: DeviceModel, max: nat) -> DeviceModel {
    DeviceModel { busy: if m.busy < max { 0 } else { (m.busy - max) as nat }, ..m }
}

/// Outcome of polling the status register until the device is ready, at
/// most `max` times.
pub open spec fn wait_outcome(m: DeviceModel, max: nat) -> (DeviceModel, Result<(), FlashError>) {
    if m.fault {
        (m, Err(FlashError::BusError))
    } else if m.busy < max {
        (after_wait(m, max), Ok(()))
    } else {
        (after_wait(m, max), Err(FlashError::Timeout))
    }
}

/// Outcome of reading `len` bytes at `addr`.
pub open spec fn read_outcome(m: DeviceModel, max: nat, addr: int, len: nat) -> (
    DeviceModel,
    Result<Seq<u8>, FlashError>,
) {
    let (w, res) = wait_outcome(m, max);
    match res {
        Err(e) => (w, Err(e)),
        Ok(_) => (w, Ok(m.mem.subrange(addr, addr + len))),
    }
}

/// Outcome of writing `data` at `addr`: wait until ready, set the
/// write-enable latch, program, and wait for completion.
pub open spec fn write_outcome(m: DeviceModel, max: nat, addr: int, data: Seq<u8>) -> (
    DeviceModel,
    Result<(), FlashError>,
) {
    let (w, res) = wait_outcome(m, max);
    match res {
        Err(e) => (w, Err(e)),
        Ok(_) => wait_outcome(
            DeviceModel { mem: programmed(w.mem, addr, data), wel: false, busy: w.latency, ..w },
            max,
        ),
    }
}

/// Outcome of erasing the sector that holds `addr`: wait until ready, set
/// the write-enable latch, erase, and wait for completion.
pub open spec fn erase_outcome(m: DeviceModel, max: nat, addr: int) -> (
    DeviceModel,
    Result<(), FlashError>,
) {
    let (w, res) = wait_outcome(m, max);
    match res {
        Err(e) => (w, Err(e)),
        Ok(_) => wait_outcome(
            DeviceModel { mem: erased(w.mem, addr), wel: false, busy: w.latency, ..w },
            max,
        ),
    }
}

/// Outcome of comparing the bytes at `addr` with `expected`: a read of
/// `expected.len()` bytes followed by an exact comparison.
pub open spec fn verify_outcome(m: DeviceModel, max: nat, addr: int, expected: Seq<u8>) -> (
    DeviceModel,
    Result<bool, FlashError>,
) {
    let (s, res) = read_outcome(m, max, addr, expected.len());
    match res {
        Err(e) => (s, Err(e)),
        Ok(v) => (s, Ok(v == expected)),
    }
}

/// The bytes of a read result, as a sequence.
pub open spec fn bytes_of(r: Result<Vec<u8>, FlashError>) -> Result<Seq<u8>, FlashError> {
    match r {
        Ok(v) => Ok(v@),
        Err(e) => Err(e),
    }
}

/// Byte-addressable access to a NOR flash device. Every state-changing
/// operation sets the write-enable latch itself right before its command and
/// polls the busy flag a bounded number of times, so a caller can neither
/// skip the latch nor hang on a device that never becomes ready.
pub struct FlashStore {
    dev: NorFlash,
    max_polls: u32,
}

impl FlashStore {
    /// The abstract state of the device behind the store.
    pub closed spec fn model(&self) -> DeviceModel {
        self.dev.model()
    }

    /// The number of status polls after which an operation gives up.
    pub closed spec fn poll_limit(&self) -> nat {
        self.max_polls as nat
    }

    /// The device spans a whole number of sectors, the write-enable latch is
    /// never left set between operations, and at least one poll is allowed.
    pub open spec fn wf(&self) -> bool {
        &&& (self.model().mem.len() as int) % (SECTOR_SIZE as int) == 0
        &&& self.model().mem.len() <= MAX_SECTORS * SECTOR_SIZE
        &&& self.model().latency <= u32::MAX
        &&& self.model().busy <= self.model().latency
        &&& !self.model().wel
        &&& 0 < self.poll_limit() <= u32::MAX
    }

    /// Takes ownership of the device; operations give up after `max_polls`
    /// busy status reads.
    pub fn new(dev: NorFlash, max_polls: u32) -> (r: FlashStore)
        requires
            dev.wf(),
            !dev.model().wel,
            max_polls > 0,
        ensures
            r.wf(),
            r.model() == dev.model(),
            r.poll_limit() == max_polls,
    {
        FlashStore { dev, max_polls }
    }

    /// Size of the device in bytes.
    pub fn capacity(&self) -> (r: usize)
        ensures
            r == self.model().mem.len(),
    {
        self.dev.capacity()
    }

    /// Connects or disconnects a simulated fault on the bus.
    pub fn set_bus_fault(&mut self, on: bool)
        requires
            old(self).wf(),
        ensures
            final(self).wf(),
            final(self).poll_limit() == old(self).poll_limit(),
            final(self).model() == (DeviceModel { fault: on, ..old(self).model() }),
    {
        self.dev.set_fault(on);
    }

    fn wait_ready(&mut self) -> (r: Result<(), FlashError>)
        requires
            old(self).wf(),
        ensures
            final(self).wf(),
            final(self).poll_limit() == old(self).poll_limit(),
            (final(self).model(), r) == wait_outcome(old(self).model(), old(self).poll_limit()),
    {
        let ghost m = self.dev.model();
        let mut i: u32 = 0;
        while i < self.max_polls
            invariant
                self.wf(),
                self.poll_limit() == old(self).poll_limit(),
                m == old(self).model(),
                i <= self.max_polls,
                i <= m.busy,
                i > 0 ==> !m.fault,
                self.model() == (DeviceModel { busy: (m.busy - i) as nat, ..m }),
            decreases self.max_polls - i,
        {
            match self.dev.read_status() {
                Err(e) => {
                    return Err(e);
                },
                Ok(s) => {
                    if !NorFlash::status_is_busy(s) {
                        return Ok(());
                    }
                },
            }
            i = i + 1;
        }
        Err(FlashError::Timeout)
    }

    /// Reads the `len` bytes at `addr`.
    pub fn read(&mut self, addr: usize, len: usize) -> (r: Result<Vec<u8>, FlashError>)
        requires
            old(self).wf(),
            in_bounds(old(self).model().mem.len() as int, addr as int, len as int),
        ensures
            final(self).wf(),
            final(self).poll_limit() == old(self).poll_limit(),
            (final(self).model(), bytes_of(r)) == read_outcome(
                old(self).model(),
                old(self).poll_limit(),
                addr as int,
                len as nat,
            ),
    {
        match self.wait_ready() {
            Err(e) => Err(e),
            Ok(()) => self.dev.read_data(addr, len),
        }
    }

    /// Writes `data` at `addr`. NOR programming only clears bits, so the
    /// bytes land as written only where the region was erased beforehand.
    pub fn write(&mut self, addr: usize, data: &[u8]) -> (r: Result<(), FlashError>)
        requires
            old(self).wf(),
            in_bounds(old(self).model().mem.len() as int, addr as int, data@.len() as int),
        ensures
            final(self).wf(),
            final(self).poll_limit() == old(self).poll_limit(),
            (final(self).model(), r) == write_outcome(
                old(self).model(),
                old(self).poll_limit(),
                addr as int,
                data@,
            ),
    {
        match self.wait_ready() {
            Err(e) => {
                return Err(e);
            },
            Ok(()) => {},
        }
        match self.dev.write_enable() {
            Err(e) => {
                return Err(e);
            },
            Ok(()) => {},
        }
        match self.dev.page_program(addr, data) {
            Err(e) => {
                return Err(e);
            },
            Ok(()) => {},
        }
        self.wait_ready()
    }

    /// Erases the whole sector that holds `addr`.
    pub fn erase_sector(&mut self, addr: usize) -> (r: Result<(), FlashError>)
        requires
            old(self).wf(),
            addr < old(self).model().mem.len(),
        ensures
            final(self).wf(),
            final(self).poll_limit() == old(self).poll_limit(),
            (final(self).model(), r) == erase_outcome(
                old(self).model(),
                old(self).poll_limit(),
                addr as int,
            ),
    {
        match self.wait_ready() {
            Err(e) => {
                return Err(e);
            },
            Ok(()) => {},
        }
        match self.dev.write_enable() {
            Err(e) => {
                return Err(e);
            },
            Ok(()) => {},
        }
        match self.dev.sector_erase(addr) {
            Err(e) => {
                return Err(e);
            },
            Ok(()) => {},
        }
        self.wait_ready()
    }

    /// Whether the bytes at `addr` equal `expected`.
    pub fn verify(&mut self, addr: usize, expected: &[u8]) -> (r: Result<bool, FlashError>)
        requires
            old(self).wf(),
            in_bounds(old(self).model().mem.len() as int, addr as int, expected@.len() as int),
        ensures
            final(self).wf(),
            final(self).poll_limit() == old(self).poll_limit(),
            (final(self).model(), r) == verify_outcome(
                old(self).model(),
                old(self).poll_limit(),
                addr as int,
                expected@,
            ),
    {
        match self.read(addr, expected.len()) {
            Err(e) => Err(e),
            Ok(v) => Ok(bytes_equal(&v, expected)),
        }
    }
}

/// Byte-for-byte comparison.
pub fn bytes_equal(a: &Vec<u8>, b: &[u8]) -> (r: bool)
    ensures
        r == (a@ == b@),
{
    if a.len() != b.len() {
        return false;
    }
    let mut i: usize = 0;
    while i < a.len()
        invariant
            a@.len() == b@.len(),
            i <= a@.len(),
            a@.subrange(0, i as int) == b@.subrange(0, i as int),
        decreases a@.len() - i,
    {
        if a[i] != b[i] {
            assert(a@.subrange(0, i as int + 1)[i as int] != b@.subrange(0, i as int + 1)[i as int]);
            return false;
        }
        assert(a@.subrange(0, i as int + 1) =~= a@.subrange(0, i as int).push(a@[i as int]));
        assert(b@.subrange(0, i as int + 1) =~= b@.subrange(0, i as int).push(b@[i as int]));
        i = i + 1;
    }
    assert(a@ =~= a@.subrange(0, a@.len() as int));
    assert(b@ =~= b@.subrange(0, b@.len() as int));
    true
}

} // verus!
