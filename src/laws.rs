use vstd::prelude::*;
use crate::model::{
    erased, in_bounds, is_erased, lemma_sector_fits, same_sector, sector_base, DeviceModel,
    FlashError, ERASED_BYTE, SECTOR_SIZE,
};
use crate::store::{read_outcome, verify_outcome, write_outcome, erase_outcome};

verus! {

proof fn lemma_and_with_erased(x: u8)
    ensures
        ERASED_BYTE & x == x,
{
    assert(0xFFu8 & x == x) by (bit_vector);
}

/// A write into an erased region that succeeds, followed by a read of the
/// same region, returns exactly the written bytes.
pub proof fn lemma_write_then_read(m: DeviceModel, max: nat, addr: int, data: Seq<u8>)
    requires
        in_bounds(m.mem.len() as int, addr, data.len() as int),
        is_erased(m.mem, addr, data.len() as int),
    ensures
        write_outcome(m, max, addr, data).1 is Ok ==> read_outcome(
            write_outcome(m, max, addr, data).0,
            max,
            addr,
            data.len(),
        ) == (write_outcome(m, max, addr, data).0, Ok::<Seq<u8>, FlashError>(data)),
{
    let w = write_outcome(m, max, addr, data).0;
    if write_outcome(m, max, addr, data).1 is Ok {
        let got = w.mem.subrange(addr, addr + data.len());
        assert forall|i: int| 0 <= i < data.len() implies #[trigger] got[i] == data[i] by {
            assert(m.mem[addr + i] == ERASED_BYTE);
            lemma_and_with_erased(data[i]);
        }
        assert(got =~= data);
    }
}

/// Verifying a region against `expected` succeeds with `true` exactly when
/// reading the region returns `expected`, fails exactly when the read fails,
/// and leaves the device as the read does.
pub proof fn lemma_verify_agrees_with_read(m: DeviceModel, max: nat, addr: int, expected: Seq<u8>)
    ensures
        verify_outcome(m, max, addr, expected).0 == read_outcome(m, max, addr, expected.len()).0,
        (verify_outcome(m, max, addr, expected).1 == Ok::<bool, FlashError>(true)) == (read_outcome(
            m,
            max,
            addr,
            expected.len(),
        ).1 == Ok::<Seq<u8>, FlashError>(expected)),
        forall|e: FlashError|
            (verify_outcome(m, max, addr, expected).1 == Err::<bool, FlashError>(e)) == (
            read_outcome(m, max, addr, expected.len()).1 == Err::<Seq<u8>, FlashError>(e)),
{
}

/// After an erase of the sector that holds `addr` succeeds, a read of any
/// region inside that sector returns only erased bytes.
pub proof fn lemma_erase_then_read(m: DeviceModel, max: nat, addr: int, start: int, len: nat)
    requires
        0 <= addr < m.mem.len(),
        (m.mem.len() as int) % (SECTOR_SIZE as int) == 0,
        same_sector(addr, start),
        start + len <= sector_base(addr) + SECTOR_SIZE,
    ensures
        erase_outcome(m, max, addr).1 is Ok ==> read_outcome(
            erase_outcome(m, max, addr).0,
            max,
            start,
            len,
        ).1 == Ok::<Seq<u8>, FlashError>(Seq::new(len, |i: int| ERASED_BYTE)),
{
    lemma_sector_fits(addr, m.mem.len() as int);
    let e = erase_outcome(m, max, addr).0;
    if erase_outcome(m, max, addr).1 is Ok {
        assert(e.mem == erased(m.mem, addr));
        assert(e.mem.subrange(start, start + len) =~= Seq::new(len, |i: int| ERASED_BYTE));
    }
}

/// Writing over bytes that are not erased does not in general store the
/// requested bytes: each byte becomes the AND of its old and new values, so
/// wherever the new byte sets a bit that the old one had cleared, reading
/// back differs from what was written.
pub proof fn lemma_write_over_programmed(m: DeviceModel, max: nat, addr: int, data: Seq<u8>)
    requires
        in_bounds(m.mem.len() as int, addr, data.len() as int),
    ensures
        write_outcome(m, max, addr, data).1 is Ok ==> read_outcome(
            write_outcome(m, max, addr, data).0,
            max,
            addr,
            data.len(),
        ).1 == Ok::<Seq<u8>, FlashError>(
            Seq::new(data.len(), |i: int| m.mem[addr + i] & data[i]),
        ),
        write_outcome(m, max, addr, data).1 is Ok && (exists|i: int|
            0 <= i < data.len() && #[trigger] data[i] & !m.mem[addr + i] != 0) ==> read_outcome(
            write_outcome(m, max, addr, data).0,
            max,
            addr,
            data.len(),
        ).1 != Ok::<Seq<u8>, FlashError>(data),
{
    let w = write_outcome(m, max, addr, data).0;
    if write_outcome(m, max, addr, data).1 is Ok {
        let got = w.mem.subrange(addr, addr + data.len());
        assert(got =~= Seq::new(data.len(), |i: int| m.mem[addr + i] & data[i]));
        if exists|i: int| 0 <= i < data.len() && #[trigger] data[i] & !m.mem[addr + i] != 0 {
            let i = choose|i: int| 0 <= i < data.len() && #[trigger] data[i] & !m.mem[addr + i] != 0;
            let (d, o) = (data[i], m.mem[addr + i]);
            assert(d & !o != 0 ==> o & d != d) by (bit_vector);
            assert(got[i] != data[i]);
        }
    }
}

} // verus!
