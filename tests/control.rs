use spi_flash_node::control::{
    response_body, ControlLoop, MaintainPlan, Phase, ServiceAction, RESPONSE_STATUS,
};
use spi_flash_node::device::NorFlash;
use spi_flash_node::model::{FlashError, ERASED_BYTE};
use spi_flash_node::store::FlashStore;

fn fresh_store() -> FlashStore {
    FlashStore::new(NorFlash::new(8, 2), 16)
}

#[test]
fn reply_is_status_200_with_fixed_body() {
    assert_eq!(RESPONSE_STATUS, 200);
    assert_eq!(response_body(), "ESP32 Web Server is working!");
}

#[test]
fn service_without_request_is_idle_and_sleeps() {
    let mut c = ControlLoop::new(MaintainPlan::demonstration());
    let mut s = fresh_store();
    c.maintain(&mut s);
    assert_eq!(c.service(false), ServiceAction::Idle);
    assert_eq!(c.phase, Phase::Sleep);
    c.wake();
    assert_eq!(c.phase, Phase::Maintain);
}

#[test]
fn service_with_request_responds_once_and_sleeps() {
    let mut c = ControlLoop::new(MaintainPlan::demonstration());
    let mut s = fresh_store();
    c.maintain(&mut s);
    assert_eq!(c.phase, Phase::Service);
    assert_eq!(c.service(true), ServiceAction::Respond);
    assert_eq!(c.phase, Phase::Sleep);
}

#[test]
fn maintenance_cycle_on_healthy_device() {
    let mut c = ControlLoop::new(MaintainPlan::demonstration());
    let mut s = fresh_store();
    for _ in 0..3 {
        let r = c.maintain(&mut s);
        assert_eq!(r.read, Ok(vec![ERASED_BYTE; 256]));
        assert_eq!(r.write, Ok(()));
        assert_eq!(r.erase, Ok(()));
        assert_eq!(r.verify, Ok(true));
        c.service(false);
        c.wake();
    }
    assert_eq!(c.incidents, 0);
    assert_eq!(s.read(0x2000, 3), Ok(vec![1, 2, 3]));
}

#[test]
fn bus_fault_in_maintenance_does_not_block_service() {
    let mut c = ControlLoop::new(MaintainPlan::demonstration());
    let mut s = fresh_store();
    s.set_bus_fault(true);
    let r = c.maintain(&mut s);
    assert_eq!(r.read, Err(FlashError::BusError));
    assert_eq!(r.write, Err(FlashError::BusError));
    assert_eq!(r.erase, Err(FlashError::BusError));
    assert_eq!(r.verify, Err(FlashError::BusError));
    assert_eq!(c.incidents, 4);
    assert_eq!(c.phase, Phase::Service);
    assert_eq!(c.service(true), ServiceAction::Respond);
    assert_eq!(c.phase, Phase::Sleep);
}

#[test]
fn verify_mismatch_is_counted() {
    let mut c = ControlLoop::new(MaintainPlan::demonstration());
    let mut s = fresh_store();
    s.write(0x2000, &[0x00, 0x00, 0x00]).unwrap();
    let r = c.maintain(&mut s);
    assert_eq!(r.write, Ok(()));
    assert_eq!(r.verify, Ok(false));
    assert_eq!(c.incidents, 1);
}

#[test]
fn timeout_in_maintenance_is_counted() {
    let mut c = ControlLoop::new(MaintainPlan::demonstration());
    let mut s = FlashStore::new(NorFlash::new(8, 3), 2);
    let r = c.maintain(&mut s);
    assert_eq!(r.read, Ok(vec![ERASED_BYTE; 256]));
    assert_eq!(r.write, Err(FlashError::Timeout));
    assert_eq!(c.phase, Phase::Service);
    assert!(c.incidents >= 1);
}

#[test]
fn failed_reply_is_counted_once() {
    let mut c = ControlLoop::new(MaintainPlan::demonstration());
    let mut s = fresh_store();
    c.maintain(&mut s);
    c.service(true);
    c.record_reply(false);
    assert_eq!(c.incidents, 1);
    c.record_reply(true);
    assert_eq!(c.incidents, 1);
}

#[test]
fn plan_rejects_out_of_bounds_regions() {
    let cap = 0x4000;
    assert!(MaintainPlan::new(0x3F00, 0x101, 0x2000, vec![1], 0x3000, cap).is_none());
    assert!(MaintainPlan::new(0, 1, 0x3FFF, vec![1, 2], 0x1000, cap).is_none());
    assert!(MaintainPlan::new(0, 1, 0x2000, vec![1], 0x4000, cap).is_none());
    assert!(MaintainPlan::new(0x3F00, 0x100, 0x3FFE, vec![1, 2], 0x0, cap).is_some());
}

#[test]
fn plan_rejects_erase_over_written_region() {
    let cap = 0x4000;
    assert!(MaintainPlan::new(0, 1, 0x2000, vec![1, 2, 3], 0x2FFF, cap).is_none());
    assert!(MaintainPlan::new(0, 1, 0x1FFF, vec![1, 2], 0x2000, cap).is_none());
    assert!(MaintainPlan::new(0, 1, 0x1FFE, vec![1, 2], 0x2000, cap).is_some());
    assert!(MaintainPlan::new(0, 1, 0x2000, vec![1, 2, 3], 0x3000, cap).is_some());
}

#[test]
fn demonstration_plan_values() {
    let p = MaintainPlan::demonstration();
    assert_eq!(p.read_addr, 0x1000);
    assert_eq!(p.read_len, 256);
    assert_eq!(p.write_addr, 0x2000);
    assert_eq!(p.write_data, vec![1, 2, 3]);
    assert_eq!(p.erase_addr, 0x3000);
}
