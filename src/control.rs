use vstd::prelude::*;
use crate::model::{in_bounds, sector_base, DeviceModel, FlashError, SECTOR_SIZE};
use crate::store::{
    bytes_of, erase_outcome, read_outcome, verify_outcome, write_outcome, FlashStore,
};

verus! {

/// HTTP status of the reply to every request.
pub const RESPONSE_STATUS: u16 = 200;

/// Phase of the control loop, which cycles `Maintain -> Service -> Sleep -> Maintain`.
#[derive(Clone, Copy, Debug, PartialEq, Eq, Structural)]
pub enum Phase {
    /// One flash maintenance cycle.
    Maintain,
    /// At most one request is answered.
    Service,
    /// The processor yields before the next cycle.
    Sleep,
}

/// The phase that follows `p`.
pub open spec fn next_phase(p: Phase) -> Phase {
    match p {
        Phase::Maintain => Phase::Service,
        Phase::Service => Phase::Sleep,
        Phase::Sleep => Phase::Maintain,
    }
}

/// Three steps of the loop bring every phase back to itself, and no phase
/// is skipped: maintenance always comes round to service.
pub proof fn lemma_phase_cycle(p: Phase)
    ensures
        next_phase(next_phase(next_phase(p))) == p,
        next_phase(p) != p,
        next_phase(Phase::Maintain) == Phase::Service,
{
}

/// What the service phase does with the request source's answer.
#[derive(Clone, Copy, Debug, PartialEq, Eq, Structural)]
pub enum ServiceAction {
    /// No request was pending: nothing to send.
    Idle,
    /// A request was pending: send the reply once.
    Respond,
}

/// The body of the reply to every request.
pub fn response_body() -> (r: &'static str)
    ensures
        r@ == "ESP32 Web Server is working!"@,
{
    "ESP32 Web Server is working!"
}

/// The addresses and data of one flash maintenance cycle: read region A,
/// write region B, erase the sector that holds C, verify region B.
pub struct MaintainPlan {
    pub read_addr: usize,
    pub read_len: usize,
    pub write_addr: usize,
    pub write_data: Vec<u8>,
    pub erase_addr: usize,
}

impl MaintainPlan {
    /// Every region lies inside a device of `capacity` bytes, and the erased
    /// sector does not overlap the written region, so the erase cannot
    /// destroy what the verify step checks.
    pub open spec fn valid_for(&self, capacity: nat) -> bool {
        &&& in_bounds(capacity as int, self.read_addr as int, self.read_len as int)
        &&& in_bounds(capacity as int, self.write_addr as int, self.write_data@.len() as int)
        &&& self.erase_addr < capacity
        &&& (self.write_addr + self.write_data@.len() <= sector_base(self.erase_addr as int)
            || sector_base(self.erase_addr as int) + SECTOR_SIZE <= self.write_addr)
    }

    /// A plan for a device of `capacity` bytes, or `None` where a region
    /// falls outside the device or the erased sector overlaps the written
    /// region.
    pub fn new(
        read_addr: usize,
        read_len: usize,
        write_addr: usize,
        write_data: Vec<u8>,
        erase_addr: usize,
        capacity: usize,
    ) -> (r: Option<MaintainPlan>)
        ensures
            r is Some <==> (MaintainPlan {
                read_addr,
                read_len,
                write_addr,
                write_data,
                erase_addr,
            }).valid_for(capacity as nat),
            r is Some ==> r->Some_0 == (MaintainPlan {
                read_addr,
                read_len,
                write_addr,
                write_data,
                erase_addr,
            }),
    {
        if read_addr > capacity || read_len > capacity - read_addr {
            return None;
        }
        if write_addr > capacity || write_data.len() > capacity - write_addr {
            return None;
        }
        if erase_addr >= capacity {
            return None;
        }
        let base: usize = erase_addr - erase_addr % SECTOR_SIZE;
        let below: bool = write_addr + write_data.len() <= base;
        let above: bool = base <= write_addr && SECTOR_SIZE <= write_addr - base;
        if !below && !above {
            return None;
        }
        Some(MaintainPlan { read_addr, read_len, write_addr, write_data, erase_addr })
    }

    /// The fixed demonstration cycle: read 256 bytes at 0x1000, write
    /// `[1, 2, 3]` at 0x2000, erase the sector at 0x3000, verify 0x2000.
    pub fn demonstration() -> (r: MaintainPlan)
        ensures
            r.read_addr == 0x1000,
            r.read_len == 256,
            r.write_addr == 0x2000,
            r.write_data@ == seq![1u8, 2u8, 3u8],
            r.erase_addr == 0x3000,
            forall|capacity: nat| capacity >= 0x4000 ==> #[trigger] r.valid_for(capacity),
    {
        let mut data: Vec<u8> = Vec::new();
        data.push(1u8);
        data.push(2u8);
        data.push(3u8);
        assert(data@ =~= seq![1u8, 2u8, 3u8]);
        MaintainPlan {
            read_addr: 0x1000,
            read_len: 256,
            write_addr: 0x2000,
            write_data: data,
            erase_addr: 0x3000,
        }
    }
}

/// Outcome of the read step of `plan` on `m`.
pub open spec fn read_step(plan: MaintainPlan, m: DeviceModel, max: nat) -> (
    DeviceModel,
    Result<Seq<u8>, FlashError>,
) {
    read_outcome(m, max, plan.read_addr as int, plan.read_len as nat)
}

/// Outcome of the write step, which follows the read step.
pub open spec fn write_step(plan: MaintainPlan, m: DeviceModel, max: nat) -> (
    DeviceModel,
    Result<(), FlashError>,
) {
    write_outcome(read_step(plan, m, max).0, max, plan.write_addr as int, plan.write_data@)
}

/// Outcome of the erase step, which follows the write step.
pub open spec fn erase_step(plan: MaintainPlan, m: DeviceModel, max: nat) -> (
    DeviceModel,
    Result<(), FlashError>,
) {
    erase_outcome(write_step(plan, m, max).0, max, plan.erase_addr as int)
}

/// Outcome of the verify step, which follows the erase step.
pub open spec fn verify_step(plan: MaintainPlan, m: DeviceModel, max: nat) -> (
    DeviceModel,
    Result<bool, FlashError>,
) {
    verify_outcome(erase_step(plan, m, max).0, max, plan.write_addr as int, plan.write_data@)
}

/// What one maintenance cycle observed. A failed step is recorded here and
/// does not stop the steps after it.
pub struct MaintainReport {
    pub read: Result<Vec<u8>, FlashError>,
    pub write: Result<(), FlashError>,
    pub erase: Result<(), FlashError>,
    pub verify: Result<bool, FlashError>,
}

/// Number of incidents in a cycle: one per failed step, and one for a verify
/// that found other bytes than were written.
pub open spec fn incidents_in(r: MaintainReport) -> nat {
    (if r.read is Err { 1nat } else { 0nat }) + (if r.write is Err { 1nat } else { 0nat }) + (
    if r.erase is Err { 1nat } else { 0nat }) + (if r.verify == Ok::<bool, FlashError>(true) {
        0nat
    } else {
        1nat
    })
}

/// `count + n`, held at `u64::MAX`.
pub open spec fn saturating_add(count: nat, n: nat) -> nat {
    if count + n > u64::MAX { u64::MAX as nat } else { count + n }
}

/// The decisions of the firmware's control loop. The caller performs what
/// they ask for (flash access through the store, one receive, one reply, one
/// sleep) and hands the outcome back.
pub struct ControlLoop {
    pub phase: Phase,
    pub plan: MaintainPlan,
    pub incidents: u64,
}

impl ControlLoop {
    /// A loop that starts in the maintenance phase with no incidents.
    pub fn new(plan: MaintainPlan) -> (r: ControlLoop)
        ensures
            r.phase == Phase::Maintain,
            r.plan == plan,
            r.incidents == 0,
    {
        ControlLoop { phase: Phase::Maintain, plan, incidents: 0 }
    }

    /// Runs the maintenance cycle on `store`: read, write, erase, verify.
    /// Whatever fails is reported and counted, and the loop moves on to
    /// the service phase in every case.
    pub fn maintain(&mut self, store: &mut FlashStore) -> (r: MaintainReport)
        requires
            old(self).phase == Phase::Maintain,
            old(store).wf(),
            old(self).plan.valid_for(old(store).model().mem.len()),
        ensures
            final(self).phase == next_phase(old(self).phase),
            final(self).phase == Phase::Service,
            final(self).plan == old(self).plan,
            final(store).wf(),
            final(store).poll_limit() == old(store).poll_limit(),
            bytes_of(r.read) == read_step(old(self).plan, old(store).model(), old(store).poll_limit()).1,
            r.write == write_step(old(self).plan, old(store).model(), old(store).poll_limit()).1,
            r.erase == erase_step(old(self).plan, old(store).model(), old(store).poll_limit()).1,
            r.verify == verify_step(old(self).plan, old(store).model(), old(store).poll_limit()).1,
            final(store).model() == verify_step(
                old(self).plan,
                old(store).model(),
                old(store).poll_limit(),
            ).0,
            final(self).incidents == saturating_add(old(self).incidents as nat, incidents_in(r)),
    {
        let read = store.read(self.plan.read_addr, self.plan.read_len);
        let write = store.write(self.plan.write_addr, self.plan.write_data.as_slice());
        let erase = store.erase_sector(self.plan.erase_addr);
        let verify = store.verify(self.plan.write_addr, self.plan.write_data.as_slice());
        let mut n: u64 = 0;
        if read.is_err() {
            n = n + 1;
        }
        if write.is_err() {
            n = n + 1;
        }
        if erase.is_err() {
            n = n + 1;
        }
        match verify {
            Ok(true) => {},
            _ => {
                n = n + 1;
            },
        }
        self.incidents = self.incidents.saturating_add(n);
        self.phase = Phase::Service;
        MaintainReport { read, write, erase, verify }
    }

    /// Service phase: answers a pending request once, or does nothing when
    /// none is pending; the loop then sleeps.
    pub fn service(&mut self, request_pending: bool) -> (r: ServiceAction)
        requires
            old(self).phase == Phase::Service,
        ensures
            r == (if request_pending { ServiceAction::Respond } else { ServiceAction::Idle }),
            final(self).phase == next_phase(old(self).phase),
            final(self).phase == Phase::Sleep,
            final(self).plan == old(self).plan,
            final(self).incidents == old(self).incidents,
    {
        self.phase = Phase::Sleep;
        if request_pending {
            ServiceAction::Respond
        } else {
            ServiceAction::Idle
        }
    }

    /// Records whether the reply could be sent; a reply that failed is
    /// counted once and not retried.
    pub fn record_reply(&mut self, sent: bool)
        ensures
            final(self).phase == old(self).phase,
            final(self).plan == old(self).plan,
            final(self).incidents == saturating_add(
                old(self).incidents as nat,
                if sent { 0nat } else { 1nat },
            ),
    {
        if !sent {
            self.incidents = self.incidents.saturating_add(1);
        }
    }

    /// The sleep has passed: the next cycle begins.
    pub fn wake(&mut self)
        requires
            old(self).phase == Phase::Sleep,
        ensures
            final(self).phase == next_phase(old(self).phase),
            final(self).phase == Phase::Maintain,
            final(self).plan == old(self).plan,
            final(self).incidents == old(self).incidents,
    {
        self.phase = Phase::Maintain;
    }
}

} // verus!
