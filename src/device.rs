use vstd::prelude::*;
use crate::model::{erased, in_bounds, lemma_sector_fits, programmed, sector_base, DeviceModel, FlashError, ERASED_BYTE, MAX_SECTORS, SECTOR_SIZE};

verus! {

/// Status register bit that is set while a program or erase is in progress.
pub const STATUS_BUSY: u8 = 0x01;

/// Status register bit that mirrors the write-enable latch.
pub const STATUS_WEL: u8 = 0x02;

/// The status register value for the given busy flag and write-enable latch.
pub open spec fn status_byte(busy: bool, wel: bool) -> u8 {
    (if busy { STATUS_BUSY } else { 0u8 }) | (if wel { STATUS_WEL } else { 0u8 })
}

/// Whether a status register value reports a command still in progress.
pub open spec fn reports_busy(status: u8) -> bool {
    status & STATUS_BUSY != 0
}

proof fn lemma_status_bits(busy: bool, wel: bool)
    ensures
        reports_busy(status_byte(busy, wel)) == busy,
        (status_byte(busy, wel) & STATUS_WEL != 0) == wel,
{
    assert((1u8 | 2u8) & 1u8 != 0u8 && (1u8 | 2u8) & 2u8 != 0u8) by (bit_vector);
    assert((1u8 | 0u8) & 1u8 != 0u8 && (1u8 | 0u8) & 2u8 == 0u8) by (bit_vector);
    assert((0u8 | 2u8) & 1u8 == 0u8 && (0u8 | 2u8) & 2u8 != 0u8) by (bit_vector);
    assert((0u8 | 0u8) & 1u8 == 0u8 && (0u8 | 0u8) & 2u8 == 0u8) by (bit_vector);
}

/// A simulated SPI NOR flash device. It answers the five primitive commands
/// of the device's command set: read data, write enable, page program,
/// sector erase and read status.
///
/// Programming ANDs the new bytes into the old ones, erasing sets a whole
/// sector to `ERASED_BYTE`, and both take effect only while the write-enable
/// latch is set, which they clear. After either, the status register reports
/// busy for `latency` reads. A bus fault can be switched on to make every
/// transaction fail without effect.
pub struct NorFlash {
    mem: Vec<u8>,
    wel: bool,
    busy: u32,
    latency: u32,
    fault: bool,
}

impl NorFlash {
    /// The abstract state of the device.
    pub closed spec fn model(&self) -> DeviceModel {
        DeviceModel {
            mem: self.mem@,
            wel: self.wel,
            busy: self.busy as nat,
            latency: self.latency as nat,
            fault: self.fault,
        }
    }

    /// The device spans a whole number of sectors within the 24-bit address space,
    /// and its busy countdown never exceeds its latency.
    pub open spec fn wf(&self) -> bool {
        &&& (self.model().mem.len() as int) % (SECTOR_SIZE as int) == 0
        &&& self.model().mem.len() <= MAX_SECTORS * SECTOR_SIZE
        &&& self.model().latency <= u32::MAX
        &&& self.model().busy <= self.model().latency
    }

    /// A device of `sectors` erased sectors whose program and erase commands
    /// report busy for `latency` status reads.
    pub fn new(sectors: usize, latency: u32) -> (r: NorFlash)
        requires
            sectors <= MAX_SECTORS,
        ensures
            r.wf(),
            r.model().mem == Seq::new((sectors * SECTOR_SIZE) as nat, |i: int| ERASED_BYTE),
            !r.model().wel,
            r.model().busy == 0,
            r.model().latency == latency,
            !r.model().fault,
    {
        let len: usize = sectors * SECTOR_SIZE;
        let mut mem: Vec<u8> = Vec::with_capacity(len);
        let mut i: usize = 0;
        while i < len
            invariant
                i <= len,
                mem@ == Seq::new(i as nat, |j: int| ERASED_BYTE),
            decreases len - i,
        {
            mem.push(ERASED_BYTE);
            i = i + 1;
            assert(mem@ =~= Seq::new(i as nat, |j: int| ERASED_BYTE));
        }
        proof {
            vstd::arithmetic::div_mod::lemma_mod_multiples_basic(sectors as int, SECTOR_SIZE as int);
            assert(sectors * SECTOR_SIZE <= MAX_SECTORS * SECTOR_SIZE) by (nonlinear_arith)
                requires
                    sectors <= MAX_SECTORS,
            ;
        }
        NorFlash { mem, wel: false, busy: 0, latency, fault: false }
    }

    /// Size of the device in bytes.
    pub fn capacity(&self) -> (r: usize)
        ensures
            r == self.model().mem.len(),
    {
        self.mem.len()
    }

    /// Connects or disconnects a simulated bus fault.
    pub fn set_fault(&mut self, on: bool)
        ensures
            final(self).model() == (DeviceModel { fault: on, ..old(self).model() }),
    {
        self.fault = on;
    }

    /// Read status command: reports the busy flag and the write-enable latch,
    /// and counts one busy read down.
    pub fn read_status(&mut self) -> (r: Result<u8, FlashError>)
        requires
            old(self).wf(),
        ensures
            final(self).wf(),
            old(self).model().fault ==> r == Err::<u8, FlashError>(FlashError::BusError)
                && final(self).model() == old(self).model(),
            !old(self).model().fault ==> r == Ok::<u8, FlashError>(
                status_byte(old(self).model().busy > 0, old(self).model().wel),
            ) && reports_busy(r->Ok_0) == (old(self).model().busy > 0) && final(self).model() == (DeviceModel {
                busy: if old(self).model().busy > 0 {
                    (old(self).model().busy - 1) as nat
                } else {
                    0
                },
                ..old(self).model()
            }),
    {
        if self.fault {
            return Err(FlashError::BusError);
        }
        let s: u8 = (if self.busy > 0 { STATUS_BUSY } else { 0u8 }) | (if self.wel {
            STATUS_WEL
        } else {
            0u8
        });
        proof {
            lemma_status_bits(self.busy > 0, self.wel);
        }
        if self.busy > 0 {
            self.busy = self.busy - 1;
        }
        Ok(s)
    }

    /// Whether a status register value reports a command still in progress.
    pub fn status_is_busy(status: u8) -> (r: bool)
        ensures
            r == reports_busy(status),
    {
        status & STATUS_BUSY != 0
    }

    /// Write enable command: sets the write-enable latch.
    pub fn write_enable(&mut self) -> (r: Result<(), FlashError>)
        requires
            old(self).wf(),
            old(self).model().busy == 0,
        ensures
            final(self).wf(),
            old(self).model().fault ==> r == Err::<(), FlashError>(FlashError::BusError)
                && final(self).model() == old(self).model(),
            !old(self).model().fault ==> r == Ok::<(), FlashError>(())
                && final(self).model() == (DeviceModel { wel: true, ..old(self).model() }),
    {
        if self.fault {
            return Err(FlashError::BusError);
        }
        self.wel = true;
        Ok(())
    }

    /// Read data command: the `len` bytes from `addr` on.
    pub fn read_data(&self, addr: usize, len: usize) -> (r: Result<Vec<u8>, FlashError>)
        requires
            self.wf(),
            self.model().busy == 0,
            in_bounds(self.model().mem.len() as int, addr as int, len as int),
        ensures
            self.model().fault ==> r == Err::<Vec<u8>, FlashError>(FlashError::BusError),
            !self.model().fault ==> r is Ok && r->Ok_0@ == self.model().mem.subrange(
                addr as int,
                addr + len,
            ),
    {
        if self.fault {
            return Err(FlashError::BusError);
        }
        let mut out: Vec<u8> = Vec::with_capacity(len);
        let mut j: usize = 0;
        while j < len
            invariant
                j <= len,
                addr + len <= self.mem@.len(),
                self.mem@.len() <= MAX_SECTORS * SECTOR_SIZE,
                out@ == self.mem@.subrange(addr as int, addr + j),
            decreases len - j,
        {
            out.push(self.mem[addr + j]);
            j = j + 1;
            assert(out@ =~= self.mem@.subrange(addr as int, addr + j));
        }
        Ok(out)
    }

    /// Page program command: ANDs `data` into the bytes from `addr` on, if the
    /// write-enable latch is set; the latch is then cleared and the device
    /// reports busy.
    pub fn page_program(&mut self, addr: usize, data: &[u8]) -> (r: Result<(), FlashError>)
        requires
            old(self).wf(),
            old(self).model().busy == 0,
            in_bounds(old(self).model().mem.len() as int, addr as int, data@.len() as int),
        ensures
            final(self).wf(),
            old(self).model().fault ==> r == Err::<(), FlashError>(FlashError::BusError)
                && final(self).model() == old(self).model(),
            !old(self).model().fault && !old(self).model().wel ==> r == Ok::<(), FlashError>(())
                && final(self).model() == old(self).model(),
            !old(self).model().fault && old(self).model().wel ==> r == Ok::<(), FlashError>(())
                && final(self).model() == (DeviceModel {
                mem: programmed(old(self).model().mem, addr as int, data@),
                wel: false,
                busy: old(self).model().latency,
                ..old(self).model()
            }),
    {
        if self.fault {
            return Err(FlashError::BusError);
        }
        if !self.wel {
            return Ok(());
        }
        let ghost old_mem = self.mem@;
        let mut j: usize = 0;
        while j < data.len()
            invariant
                j <= data@.len(),
                addr + data@.len() <= old_mem.len(),
                old_mem.len() <= MAX_SECTORS * SECTOR_SIZE,
                self.mem@.len() == old_mem.len(),
                self.wel == old(self).wel,
                self.latency == old(self).latency,
                self.fault == old(self).fault,
                forall|i: int|
                    0 <= i < old_mem.len() ==> #[trigger] self.mem@[i] == if addr <= i < addr + j {
                        old_mem[i] & data@[i - addr]
                    } else {
                        old_mem[i]
                    },
            decreases data@.len() - j,
        {
            let b: u8 = self.mem[addr + j] & data[j];
            self.mem.set(addr + j, b);
            j = j + 1;
        }
        assert(self.mem@ =~= programmed(old_mem, addr as int, data@));
        self.wel = false;
        self.busy = self.latency;
        Ok(())
    }

    /// Sector erase command: sets every byte of the sector that holds `addr`
    /// to `ERASED_BYTE`, if the write-enable latch is set; the latch is then
    /// cleared and the device reports busy.
    pub fn sector_erase(&mut self, addr: usize) -> (r: Result<(), FlashError>)
        requires
            old(self).wf(),
            old(self).model().busy == 0,
            addr < old(self).model().mem.len(),
        ensures
            final(self).wf(),
            old(self).model().fault ==> r == Err::<(), FlashError>(FlashError::BusError)
                && final(self).model() == old(self).model(),
            !old(self).model().fault && !old(self).model().wel ==> r == Ok::<(), FlashError>(())
                && final(self).model() == old(self).model(),
            !old(self).model().fault && old(self).model().wel ==> r == Ok::<(), FlashError>(())
                && final(self).model() == (DeviceModel {
                mem: erased(old(self).model().mem, addr as int),
                wel: false,
                busy: old(self).model().latency,
                ..old(self).model()
            }),
    {
        if self.fault {
            return Err(FlashError::BusError);
        }
        if !self.wel {
            return Ok(());
        }
        proof {
            lemma_sector_fits(addr as int, self.mem@.len() as int);
        }
        let ghost old_mem = self.mem@;
        let base: usize = addr - addr % SECTOR_SIZE;
        let mut j: usize = 0;
        while j < SECTOR_SIZE
            invariant
                j <= SECTOR_SIZE,
                base == sector_base(addr as int),
                base + SECTOR_SIZE <= old_mem.len(),
                self.mem@.len() == old_mem.len(),
                self.wel == old(self).wel,
                self.latency == old(self).latency,
                self.fault == old(self).fault,
                forall|i: int|
                    0 <= i < old_mem.len() ==> #[trigger] self.mem@[i] == if base <= i < base + j {
                        ERASED_BYTE
                    } else {
                        old_mem[i]
                    },
            decreases SECTOR_SIZE - j,
        {
            self.mem.set(base + j, ERASED_BYTE);
            j = j + 1;
        }
        assert(self.mem@ =~= erased(old_mem, addr as int));
        self.wel = false;
        self.busy = self.latency;
        Ok(())
    }
}

} // verus!
