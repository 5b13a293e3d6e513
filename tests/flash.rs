use spi_flash_node::device::{NorFlash, STATUS_BUSY, STATUS_WEL};
use spi_flash_node::model::{FlashError, ERASED_BYTE, SECTOR_SIZE};
use spi_flash_node::store::{bytes_equal, FlashStore};

fn store(sectors: usize, latency: u32, max_polls: u32) -> FlashStore {
    FlashStore::new(NorFlash::new(sectors, latency), max_polls)
}

#[test]
fn new_device_is_erased() {
    let mut s = store(2, 0, 1);
    assert_eq!(s.capacity(), 2 * SECTOR_SIZE);
    let all = s.read(0, 2 * SECTOR_SIZE).unwrap();
    assert!(all.iter().all(|b| *b == ERASED_BYTE));
}

#[test]
fn write_then_read_round_trip() {
    let mut s = store(4, 3, 8);
    let data = vec![0x10u8, 0x00, 0xA5, 0xFF, 0x7E];
    assert_eq!(s.write(0x1FFE, &data), Ok(()));
    assert_eq!(s.read(0x1FFE, data.len()), Ok(data));
}

#[test]
fn verify_agrees_with_read() {
    let mut s = store(4, 1, 4);
    s.write(0x100, &[9, 8, 7]).unwrap();
    assert_eq!(s.read(0x100, 3), Ok(vec![9, 8, 7]));
    assert_eq!(s.verify(0x100, &[9, 8, 7]), Ok(true));
    assert_eq!(s.verify(0x100, &[9, 8, 6]), Ok(false));
    assert_eq!(s.verify(0x100, &[9, 8]), Ok(true));
    assert_eq!(s.verify(0x100, &[]), Ok(true));
    s.set_bus_fault(true);
    assert_eq!(s.read(0x100, 3), Err(FlashError::BusError));
    assert_eq!(s.verify(0x100, &[9, 8, 7]), Err(FlashError::BusError));
}

#[test]
fn erase_then_read_gives_erased_bytes() {
    let mut s = store(3, 2, 4);
    let ones = vec![0u8; SECTOR_SIZE];
    s.write(SECTOR_SIZE, &ones).unwrap();
    s.write(0, &[0x11]).unwrap();
    s.write(2 * SECTOR_SIZE, &[0x22]).unwrap();
    assert_eq!(s.erase_sector(SECTOR_SIZE + 123), Ok(()));
    let sector = s.read(SECTOR_SIZE, SECTOR_SIZE).unwrap();
    assert!(sector.iter().all(|b| *b == ERASED_BYTE));
    assert_eq!(s.read(SECTOR_SIZE + 40, 7), Ok(vec![ERASED_BYTE; 7]));
    // neighbouring sectors are untouched
    assert_eq!(s.read(0, 1), Ok(vec![0x11]));
    assert_eq!(s.read(2 * SECTOR_SIZE, 1), Ok(vec![0x22]));
}

#[test]
fn write_over_programmed_ands_bits() {
    let mut s = store(1, 0, 1);
    s.write(10, &[0x0F, 0xF0]).unwrap();
    s.write(10, &[0xF0, 0xFF]).unwrap();
    let got = s.read(10, 2).unwrap();
    assert_eq!(got, vec![0x00, 0xF0]);
    assert_ne!(got, vec![0xF0, 0xFF]);
    assert_eq!(s.verify(10, &[0xF0, 0xFF]), Ok(false));
}

#[test]
fn write_erase_verify_scenario() {
    let mut s = store(4, 5, 10);
    let data = [0x01u8, 0x02, 0x03];
    assert_eq!(s.write(0x2000, &data), Ok(()));
    assert_eq!(s.erase_sector(0x2000), Ok(()));
    assert_eq!(s.verify(0x2000, &data), Ok(false));
    assert_eq!(s.erase_sector(0x2000), Ok(()));
    assert_eq!(s.write(0x2000, &data), Ok(()));
    assert_eq!(s.verify(0x2000, &data), Ok(true));
}

#[test]
fn busy_poll_times_out() {
    // the device stays busy for 4 status reads; only 4 polls are allowed
    let mut s = store(1, 4, 4);
    assert_eq!(s.write(0, &[0x00]), Err(FlashError::Timeout));
    // the write was issued before the timeout
    assert_eq!(s.read(0, 1), Ok(vec![0x00]));
}

#[test]
fn busy_poll_completes_within_bound() {
    let mut s = store(1, 3, 4);
    assert_eq!(s.write(0, &[0x5A]), Ok(()));
    assert_eq!(s.erase_sector(0), Ok(()));
    assert_eq!(s.read(0, 1), Ok(vec![ERASED_BYTE]));
}

#[test]
fn timeout_then_pending_busy_times_out_again() {
    // 9 busy reads, 4 polls each: the write and the next read time out
    let mut s = store(1, 9, 4);
    assert_eq!(s.write(0, &[0x00]), Err(FlashError::Timeout));
    assert_eq!(s.read(0, 1), Err(FlashError::Timeout));
    assert_eq!(s.read(0, 1), Ok(vec![0x00]));
}

#[test]
fn bus_fault_leaves_contents() {
    let mut s = store(1, 0, 1);
    s.write(5, &[0x33]).unwrap();
    s.set_bus_fault(true);
    assert_eq!(s.write(5, &[0x00]), Err(FlashError::BusError));
    assert_eq!(s.erase_sector(5), Err(FlashError::BusError));
    s.set_bus_fault(false);
    assert_eq!(s.read(5, 1), Ok(vec![0x33]));
}

#[test]
fn device_ignores_program_without_write_enable() {
    let mut d = NorFlash::new(1, 2);
    assert_eq!(d.page_program(0, &[0x00]), Ok(()));
    assert_eq!(d.read_data(0, 1), Ok(vec![ERASED_BYTE]));
    assert_eq!(d.sector_erase(0), Ok(()));
    assert_eq!(d.write_enable(), Ok(()));
    assert_eq!(d.read_status(), Ok(STATUS_WEL));
    assert_eq!(d.page_program(0, &[0x00]), Ok(()));
    assert_eq!(d.read_status(), Ok(STATUS_BUSY));
    assert_eq!(d.read_status(), Ok(STATUS_BUSY));
    assert_eq!(d.read_status(), Ok(0));
    assert_eq!(d.read_data(0, 1), Ok(vec![0x00]));
}

#[test]
fn status_bits() {
    assert!(NorFlash::status_is_busy(STATUS_BUSY));
    assert!(NorFlash::status_is_busy(STATUS_BUSY | STATUS_WEL));
    assert!(!NorFlash::status_is_busy(STATUS_WEL));
    assert!(!NorFlash::status_is_busy(0));
}

#[test]
fn bytes_equal_compares_exactly() {
    assert!(bytes_equal(&vec![1, 2, 3], &[1, 2, 3]));
    assert!(!bytes_equal(&vec![1, 2, 3], &[1, 2, 4]));
    assert!(!bytes_equal(&vec![1, 2], &[1, 2, 3]));
    assert!(bytes_equal(&vec![], &[]));
}
