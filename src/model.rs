use vstd::prelude::*;

verus! {

/// Size of the smallest erasable unit of the flash device, in bytes.
pub const SECTOR_SIZE: usize = 4096;

/// Number of sectors addressable with the device's 24-bit addresses.
pub const MAX_SECTORS: usize = 4096;

/// Value that every byte of an erased sector holds.
pub const ERASED_BYTE: u8 = 0xFF;

/// Failure of a flash operation.
#[derive(Clone, Copy, Debug, PartialEq, Eq, Structural)]
pub enum FlashError {
    /// The bus transaction could not complete.
    BusError,
    /// The device still reported busy after the bounded number of status polls.
    Timeout,
}

/// Abstract state of a NOR flash device.
pub struct DeviceModel {
    /// Contents of the whole address space.
    pub mem: Seq<u8>,
    /// Write-enable latch.
    pub wel: bool,
    /// Number of status reads that will still report busy.
    pub busy: nat,
    /// Number of busy status reads that follow a program or erase command.
    pub latency: nat,
    /// Whether the bus currently fails every transaction.
    pub fault: bool,
}

/// First address of the sector that holds `addr`.
pub open spec fn sector_base(addr: int) -> int {
    addr - addr % (SECTOR_SIZE as int)
}

/// Whether `addr` and `b` lie in the same sector.
pub open spec fn same_sector(addr: int, b: int) -> bool {
    sector_base(addr) <= b < sector_base(addr) + SECTOR_SIZE
}

/// Contents after programming `data` at `addr`: NOR programming can only
/// clear bits, so each byte becomes the AND of its old value and the new one.
pub open spec fn programmed(mem: Seq<u8>, addr: int, data: Seq<u8>) -> Seq<u8> {
    Seq::new(
        mem.len(),
        |i: int|
            if addr <= i < addr + data.len() {
                mem[i] & data[i - addr]
            } else {
                mem[i]
            },
    )
}

/// Contents after erasing the sector that holds `addr`.
pub open spec fn erased(mem: Seq<u8>, addr: int) -> Seq<u8> {
    Seq::new(mem.len(), |i: int| if same_sector(addr, i) { ERASED_BYTE } else { mem[i] })
}

/// Whether every byte of `mem` in `[addr, addr + len)` holds the erased value.
pub open spec fn is_erased(mem: Seq<u8>, addr: int, len: int) -> bool {
    forall|i: int| addr <= i < addr + len ==> #[trigger] mem[i] == ERASED_BYTE
}

/// Whether `[addr, addr + len)` lies inside a device of `capacity` bytes.
pub open spec fn in_bounds(capacity: int, addr: int, len: int) -> bool {
    0 <= addr && 0 <= len && addr + len <= capacity
}

/// The sector that holds `addr` lies wholly inside a device of `len` bytes
/// when `len` is a whole number of sectors.
pub proof fn lemma_sector_fits(addr: int, len: int)
    requires
        0 <= addr < len,
        len % (SECTOR_SIZE as int) == 0,
    ensures
        0 <= sector_base(addr),
        sector_base(addr) + SECTOR_SIZE <= len,
        sector_base(addr) <= addr,
{
    let s = SECTOR_SIZE as int;
    vstd::arithmetic::div_mod::lemma_fundamental_div_mod(addr, s);
    vstd::arithmetic::div_mod::lemma_fundamental_div_mod(len, s);
    let q = addr / s;
    let k = len / s;
    assert(q < k) by (nonlinear_arith)
        requires
            addr == s * q + addr % s,
            len == s * k,
            0 <= addr % s,
            addr < len,
            s > 0,
    ;
    assert(s * q + s <= s * k) by (nonlinear_arith)
        requires
            q < k,
            s > 0,
    ;
}

} // verus!
