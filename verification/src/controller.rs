//! The controller engine: the request dispatcher that turns requests into blocks on the
//! rings, and the event loop that routes completions back.
//!
//! The engine owns no register and no memory. Posting says which doorbell to ring;
//! handling an event says whom to answer, which permit to release and what was posted
//! again. The caller does those things.

use crate::device::USBDevice;
use crate::device_context::{DeviceContextList, SlotInner};
use crate::event::{CommandCompletion, Event, PortStatusChange};
use crate::event_ring::EventRing;
use crate::operations::{
    CallbackValue, CompleteAction, ConfigureSemaphore, ControlTransfer, Direction, ExtraAction,
    InterfaceInfo, InterruptTransfer, RequestResult, RequestedOperation, TopologyRoute,
    USBRequest,
};
use crate::ring::{Ring, RingModel};
use crate::trb::{
    spec_data_stage_trb, spec_normal_trb, spec_setup_stage_trb, spec_status_stage_trb, Trb,
    TransferType, MAX_TRB_TRANSFER_LENGTH,
};
use std::collections::BTreeMap;
use vstd::prelude::*;

verus! {

broadcast use vstd::std_specs::btree::group_btree_axioms;

/// What to do when a posted block completes, as the in-flight table keeps it.
#[derive(Copy, Clone, Debug, PartialEq, Eq, Structural)]
pub enum XHCICompleteAction {
    /// A command: hand the whole completion to the waiter.
    CommandCallback(CallbackValue),
    /// A transfer: do what the request asked for.
    STANDARD(CompleteAction),
}

/// A doorbell to ring: the register index `slot`, and the stream id and target to
/// write where they are given.
#[derive(Copy, Clone, Debug, PartialEq, Eq, Structural)]
pub struct Doorbell {
    pub slot: u8,
    pub stream: Option<u16>,
    pub target: Option<u8>,
}

/// What was posted: the physical address of the terminal block, under which the
/// completion will be reported, and the doorbell that starts the ring.
#[derive(Copy, Clone, Debug, PartialEq, Eq, Structural)]
pub struct Posted {
    pub key: u64,
    pub doorbell: Doorbell,
}

/// Why a request could not be posted.
#[derive(Copy, Clone, Debug, PartialEq, Eq, Structural, Hash)]
pub enum PostError {
    /// The device of the request has no slot yet.
    SlotNotAssigned,
    /// The endpoint of the request has no transfer ring.
    NoSuchRing,
    /// The buffer is longer than one block can transfer.
    TooLong,
}

/// What the dispatcher did with a request, or asks the caller to do.
#[derive(Clone, Debug)]
pub enum Dispatch {
    /// Blocks were enqueued; ring the doorbell.
    Posted(Posted),
    /// Run the enumeration of device number `device`, then release `release`.
    AssignAddress { device: usize, release: Option<ConfigureSemaphore> },
    /// Configure the interface on `slot`, then release `release`.
    EnableFunction {
        slot: u8,
        config: u8,
        interface: InterfaceInfo,
        release: Option<ConfigureSemaphore>,
    },
    /// Nothing to do.
    Nothing,
}

/// What the completion of a transfer asks the caller to do.
#[derive(Copy, Clone, Debug)]
pub enum Completion {
    Nothing,
    /// Hand `result` to `waiter`: the outcome, or the raw code where the code is not a
    /// defined one.
    Respond { waiter: CallbackValue, result: Result<RequestResult, u8> },
    /// Release the permit.
    ReleaseSemaphore(ConfigureSemaphore),
}

/// What handling an event led to.
#[derive(Clone, Debug)]
pub enum EventOutcome {
    /// A transfer event: what its completion asks for, and what became of the refill if
    /// the block was one of a keep-fill transfer.
    Transfer { completion: Completion, refill: Option<Result<Posted, PostError>> },
    /// A command completion: the waiter to hand it to, if the command is in flight.
    Command { waiter: Option<CallbackValue>, completion: CommandCompletion },
    /// A port changed its status.
    PortStatusChange(PortStatusChange),
    /// An event that the engine does not act on.
    Ignored,
}

/// The transfer type that the setup stage announces: none without a data buffer, else
/// the direction of the request.
pub open spec fn spec_transfer_type(req: ControlTransfer) -> TransferType {
    if req.data.is_some() {
        match req.request_type.direction {
            Direction::In => TransferType::In,
            Direction::Out => TransferType::Out,
        }
    } else {
        TransferType::No
    }
}

/// The `wLength` of the setup packet: the length of the data buffer, as far as 16 bits
/// hold it, and 0 without a buffer.
pub open spec fn spec_wlength(req: ControlTransfer) -> u16 {
    match req.data {
        Some((_, len)) => (len as int % 0x1_0000) as u16,
        None => 0,
    }
}

/// The setup stage block of a control transfer.
pub open spec fn spec_setup(req: ControlTransfer) -> Trb {
    spec_setup_stage_trb(
        req.request_type.spec_byte(),
        req.request,
        req.value,
        req.index,
        spec_wlength(req),
        spec_transfer_type(req),
    )
}

/// The data stage block of a control transfer with a data buffer.
pub open spec fn spec_data(req: ControlTransfer) -> Trb {
    spec_data_stage_trb(
        req.data.unwrap().0 as u64,
        req.data.unwrap().1 as u32,
        req.request_type.direction.spec_bit(),
    )
}

/// Whether one data stage block can carry the buffer of the control transfer.
pub open spec fn control_fits(req: ControlTransfer) -> bool {
    req.data matches Some((_, len)) ==> len <= MAX_TRB_TRANSFER_LENGTH
}

/// The control ring after the blocks of a control transfer have been enqueued: setup,
/// data if there is a buffer, status; the status stage runs towards the host exactly
/// when the request asks for a response.
pub open spec fn after_control(ring: RingModel, req: ControlTransfer) -> RingModel {
    if req.data.is_some() {
        ring.enqueue(spec_setup(req)).enqueue(spec_data(req)).enqueue(
            spec_status_stage_trb(req.response),
        )
    } else {
        ring.enqueue(spec_setup(req)).enqueue(spec_status_stage_trb(req.response))
    }
}

/// The address of the status stage block of a control transfer, its terminal block.
pub open spec fn control_key(ring: RingModel, req: ControlTransfer) -> int {
    if req.data.is_some() {
        ring.enqueue(spec_setup(req)).enqueue(spec_data(req)).next_addr()
    } else {
        ring.enqueue(spec_setup(req)).next_addr()
    }
}

/// The normal block of an interrupt transfer: the buffer, interrupter 0, an event on
/// completion and on a short packet.
pub open spec fn spec_interrupt_trb(t: InterruptTransfer) -> Trb {
    spec_normal_trb(t.buffer_addr_len.0 as u64, t.buffer_addr_len.1 as u32, 0)
}

/// Whether one block can carry the buffer of the interrupt transfer.
pub open spec fn interrupt_fits(t: InterruptTransfer) -> bool {
    t.buffer_addr_len.1 <= MAX_TRB_TRANSFER_LENGTH
}

/// The request that a keep-fill transfer is posted again with: the same operation and
/// extra action, and no completion action.
pub open spec fn spec_refill_request(extra_action: ExtraAction, t: InterruptTransfer) -> USBRequest {
    USBRequest {
        extra_action,
        operation: RequestedOperation::Interrupt(t),
        complete_action: CompleteAction::NOOP,
    }
}

/// Whether `i` is the index of the first device on `route`.
pub open spec fn first_on_route(devices: Seq<USBDevice>, route: TopologyRoute, i: int) -> bool {
    &&& 0 <= i < devices.len()
    &&& devices[i].topology_path == route
    &&& forall|j: int| 0 <= j < i ==> (#[trigger] devices[j]).topology_path != route
}

/// Whether no device is on `route`.
pub open spec fn none_on_route(devices: Seq<USBDevice>, route: TopologyRoute) -> bool {
    forall|j: int| 0 <= j < devices.len() ==> (#[trigger] devices[j]).topology_path != route
}

/// The permit that a completion action carries, if it carries one.
pub open spec fn spec_carried_permit(action: CompleteAction) -> Option<ConfigureSemaphore> {
    match action {
        CompleteAction::DropSem(sem) => Some(sem),
        _ => None,
    }
}

/// The result that a completion code stands for: the outcome, or the raw code where
/// the code is not a defined one.
pub open spec fn spec_result_of_code(code: u8) -> Result<RequestResult, u8> {
    match RequestResult::spec_from_code(code) {
        Some(r) => Ok(r),
        None => Err(code),
    }
}

/// One change of the in-flight table: a block was posted with a completion record, or
/// the completion of a block was handled.
pub enum TableOp {
    Posted(u64),
    Completed(u64),
}

/// The keys of the in-flight table after a history of changes, starting from the empty
/// table: posting inserts the address, handling a completion removes it.
pub open spec fn keys_after(ops: Seq<TableOp>) -> Set<u64>
    decreases ops.len(),
{
    if ops.len() == 0 {
        Set::empty()
    } else {
        match ops.last() {
            TableOp::Posted(addr) => keys_after(ops.drop_last()).insert(addr),
            TableOp::Completed(addr) => keys_after(ops.drop_last()).remove(addr),
        }
    }
}

/// Whether the block at `addr` is posted and not completed at the end of a history: it
/// was posted at some point and no completion of it was handled after that.
pub open spec fn outstanding(ops: Seq<TableOp>, addr: u64) -> bool {
    exists|i: int|
        0 <= i < ops.len() && #[trigger] ops[i] == TableOp::Posted(addr) && forall|j: int|
            i < j < ops.len() ==> #[trigger] ops[j] != TableOp::Completed(addr)
}

/// In-flight table closure: after any history of postings and completions, the keys of
/// the in-flight table are exactly the addresses of the blocks that are posted and not
/// completed.
pub proof fn lemma_pending_closure(ops: Seq<TableOp>, addr: u64)
    ensures
        keys_after(ops).contains(addr) <==> outstanding(ops, addr),
    decreases ops.len(),
{
    if ops.len() > 0 {
        let before = ops.drop_last();
        let n = ops.len() - 1;
        lemma_pending_closure(before, addr);
        if outstanding(before, addr) && ops.last() != TableOp::Completed(addr) {
            let i = choose|i: int|
                0 <= i < before.len() && #[trigger] before[i] == TableOp::Posted(addr)
                    && forall|j: int|
                    i < j < before.len() ==> #[trigger] before[j] != TableOp::Completed(addr);
            assert(ops[i] == TableOp::Posted(addr));
            assert forall|j: int| i < j < ops.len() implies #[trigger] ops[j]
                != TableOp::Completed(addr) by {
                if j < n {
                    assert(before[j] != TableOp::Completed(addr));
                }
            }
        }
        if ops.last() == TableOp::Posted(addr) {
            assert(ops[n] == TableOp::Posted(addr));
        }
        if outstanding(ops, addr) {
            let i = choose|i: int|
                0 <= i < ops.len() && #[trigger] ops[i] == TableOp::Posted(addr) && forall|j: int|
                    i < j < ops.len() ==> #[trigger] ops[j] != TableOp::Completed(addr);
            if i < n {
                assert(before[i] == TableOp::Posted(addr));
                assert forall|j: int| i < j < before.len() implies #[trigger] before[j]
                    != TableOp::Completed(addr) by {
                    assert(ops[j] != TableOp::Completed(addr));
                }
                assert(ops[n] != TableOp::Completed(addr));
            }
        }
    }
}

/// One more change: what it does to the keys.
pub proof fn lemma_keys_step(ops: Seq<TableOp>, op: TableOp)
    ensures
        keys_after(ops.push(op)) == (match op {
            TableOp::Posted(addr) => keys_after(ops).insert(addr),
            TableOp::Completed(addr) => keys_after(ops).remove(addr),
        }),
{
    assert(ops.push(op).drop_last() =~= ops);
}

/// The engine of one controller.
pub struct XHCIController {
    pub max_slots: u8,
    pub max_ports: u8,
    pub max_irqs: u16,
    /// The command ring.
    pub cmd: Ring,
    /// The event ring.
    pub event: EventRing,
    pub dev_ctx: DeviceContextList,
    /// The devices found at the initial probe, in port order.
    pub devices: Vec<USBDevice>,
    /// The in-flight table: what to do when the block at a physical address completes.
    pub finish_jobs: BTreeMap<u64, XHCICompleteAction>,
    /// The refill table: the slot and the request to post again when the block at a
    /// physical address completes.
    pub extra_works: BTreeMap<u64, (u8, USBRequest)>,
    /// What has happened to the in-flight table since the engine was made.
    pub history: Ghost<Seq<TableOp>>,
}

/// The memory that the caller has allocated for a controller, by physical address.
#[derive(Copy, Clone, Debug, PartialEq, Eq, Structural)]
pub struct ControllerMemory {
    pub dcbaa: u64,
    pub command_ring: u64,
    /// Number of entries of the command ring, the link block included.
    pub command_ring_len: usize,
    pub event_ring: u64,
    /// Number of entries of the event ring.
    pub event_ring_len: u16,
    pub event_ring_segment_table: u64,
    /// Number of entries of every transfer ring, the link block included.
    pub transfer_ring_len: usize,
}

/// The values that bring-up writes into the controller's registers.
#[derive(Copy, Clone, Debug, PartialEq, Eq, Structural)]
pub struct InitPlan {
    /// For the configure register: how many device slots to enable.
    pub max_device_slots_enabled: u8,
    /// For the device context base address array pointer.
    pub dcbaap: u64,
    /// For the command ring control register: where the command ring starts.
    pub command_ring_pointer: u64,
    /// For the command ring control register: the consumer cycle to start with.
    pub ring_cycle_state: bool,
    /// For interrupter 0: the size of the event ring segment table.
    pub erstsz: u16,
    /// For interrupter 0: the event ring dequeue pointer.
    pub erdp: u64,
    /// For interrupter 0: where the event ring segment table lies.
    pub erstba: u64,
    /// For interrupter 0: the interrupt moderation interval and counter.
    pub interrupt_moderation: u16,
}

impl XHCIController {
    /// The in-flight table.
    pub open spec fn pending(&self) -> Map<u64, XHCICompleteAction> {
        self.finish_jobs@
    }

    /// The refill table.
    pub open spec fn refills(&self) -> Map<u64, (u8, USBRequest)> {
        self.extra_works@
    }

    /// Whether a request is one that the refill table may hold: an interrupt transfer
    /// that is to be kept filled, with no completion action.
    pub open spec fn refillable(req: USBRequest) -> bool {
        &&& req.operation is Interrupt
        &&& req.extra_action is KeepFill
        &&& req.complete_action == CompleteAction::NOOP
    }

    /// The invariant of the engine: that of its rings and of its device context list,
    /// every device on a real port, nothing in the refill table but keep-fill interrupt
    /// transfers, and in the in-flight table the keys that its history leaves.
    pub open spec fn wf(&self) -> bool {
        &&& self.cmd.wf()
        &&& self.event.wf()
        &&& self.dev_ctx.wf()
        &&& forall|k: int| 0 <= k < self.devices@.len() ==> (#[trigger] self.devices@[k]).wf()
        &&& Self::refills_ok(self.refills())
        &&& self.pending().dom() == keys_after(self.history@)
    }

    /// Whether a refill table holds nothing but keep-fill interrupt transfers.
    pub open spec fn refills_ok(refills: Map<u64, (u8, USBRequest)>) -> bool {
        forall|addr: u64| #[trigger]
            refills.contains_key(addr) ==> Self::refillable(refills[addr].1)
    }

    /// Whether `self` differs from `before` at most in the device context list and in
    /// the two tables: limits, command ring, event ring and devices are the same.
    pub open spec fn only_transfers_changed(&self, before: Self) -> bool {
        &&& self.max_slots == before.max_slots
        &&& self.max_ports == before.max_ports
        &&& self.max_irqs == before.max_irqs
        &&& self.cmd == before.cmd
        &&& self.event == before.event
        &&& self.devices == before.devices
    }

    /// Whether a controller can be made over the memory.
    pub open spec fn placeable(mem: ControllerMemory) -> bool {
        &&& DeviceContextList::placeable(mem.dcbaa, mem.transfer_ring_len)
        &&& Ring::placeable(mem.command_ring, mem.command_ring_len)
        &&& EventRing::placeable(mem.event_ring, mem.event_ring_len, mem.event_ring_segment_table)
    }

    /// Makes the engine of a controller that reports the given limits, over the memory
    /// that the caller has allocated: a fresh command ring, event ring and device
    /// context list, no device, nothing in flight. Returns `None` exactly when one of
    /// the structures cannot lie where `mem` puts it.
    pub fn new(mem: ControllerMemory, max_slots: u8, max_ports: u8, max_irqs: u16) -> (r: Option<
        Self,
    >)
        ensures
            r.is_some() <==> Self::placeable(mem),
            r matches Some(c) ==> {
                &&& c.wf()
                &&& c.max_slots == max_slots
                &&& c.max_ports == max_ports
                &&& c.max_irqs == max_irqs
                &&& c.cmd@ == RingModel::fresh(mem.command_ring, mem.command_ring_len)
                &&& c.event.spec_base() == mem.event_ring
                &&& c.event.spec_len() == mem.event_ring_len
                &&& c.event.spec_erstba() == mem.event_ring_segment_table
                &&& c.event.spec_dequeue_index() == 0
                &&& c.event.spec_cycle()
                &&& c.dev_ctx.dcbaa_addr == mem.dcbaa
                &&& c.dev_ctx.ring_len == mem.transfer_ring_len
                &&& c.dev_ctx.slots() == Map::<u8, SlotInner>::empty()
                &&& c.devices@.len() == 0
                &&& c.pending() == Map::<u64, XHCICompleteAction>::empty()
                &&& c.refills() == Map::<u64, (u8, USBRequest)>::empty()
                &&& c.history@ == Seq::<TableOp>::empty()
            },
    {
        let dev_ctx = match DeviceContextList::new(mem.dcbaa, mem.transfer_ring_len) {
            Some(d) => d,
            None => {
                return None;
            },
        };
        let cmd = match Ring::new(mem.command_ring, mem.command_ring_len) {
            Some(r) => r,
            None => {
                return None;
            },
        };
        let event = match EventRing::new(
            mem.event_ring,
            mem.event_ring_len,
            mem.event_ring_segment_table,
        ) {
            Some(e) => e,
            None => {
                return None;
            },
        };
        Some(
            XHCIController {
                max_slots,
                max_ports,
                max_irqs,
                cmd,
                event,
                dev_ctx,
                devices: Vec::new(),
                finish_jobs: BTreeMap::new(),
                extra_works: BTreeMap::new(),
                history: Ghost(Seq::empty()),
            },
        )
    }

    /// The values that bring-up writes into the registers, in the order of the fields:
    /// the slots to enable, the base address array, the command ring with its cycle,
    /// and for interrupter 0 a segment table of one entry, the dequeue pointer, the
    /// table's address and no moderation.
    pub fn init_plan(&self) -> (p: InitPlan)
        requires
            self.wf(),
        ensures
            p == (InitPlan {
                max_device_slots_enabled: self.max_slots,
                dcbaap: self.dev_ctx.dcbaa_addr,
                command_ring_pointer: self.cmd@.base,
                ring_cycle_state: self.cmd@.cycle,
                erstsz: 1,
                erdp: self.event.spec_erdp(),
                erstba: self.event.spec_erstba(),
                interrupt_moderation: 0,
            }),
    {
        InitPlan {
            max_device_slots_enabled: self.max_slots,
            dcbaap: self.dev_ctx.dcbaap(),
            command_ring_pointer: self.cmd.register(),
            ring_cycle_state: self.cmd.cycle(),
            erstsz: 1,
            erdp: self.event.erdp(),
            erstba: self.event.erstba(),
            interrupt_moderation: 0,
        }
    }

    /// The initial probe: for every port that reports a connected device, in port
    /// order, a device on that port is appended to the devices. `connected[i]` is the
    /// connect status of port `i`, counted from 0; ports beyond 255 cannot be named and
    /// are not looked at. Returns how many devices were added.
    pub fn initial_probe(&mut self, connected: &Vec<bool>) -> (added: usize)
        requires
            old(self).wf(),
        ensures
            final(self).wf(),
            final(self).devices@ == old(self).devices@ + probed_devices(connected@),
            added == probed_devices(connected@).len(),
            final(self).max_slots == old(self).max_slots,
            final(self).max_ports == old(self).max_ports,
            final(self).max_irqs == old(self).max_irqs,
            final(self).cmd == old(self).cmd,
            final(self).event == old(self).event,
            final(self).dev_ctx == old(self).dev_ctx,
            final(self).finish_jobs == old(self).finish_jobs,
            final(self).extra_works == old(self).extra_works,
            final(self).history == old(self).history,
    {
        let n: usize = if connected.len() < 255 {
            connected.len()
        } else {
            255
        };
        let mut k: usize = 0;
        let mut added: usize = 0;
        assert(connected@.take(0) =~= Seq::<bool>::empty());
        assert(self.devices@ + probed_devices(connected@.take(0)) =~= self.devices@);
        while k < n
            invariant
                k <= n <= 255,
                n == (if connected@.len() < 255 {
                    connected@.len() as int
                } else {
                    255int
                }),
                self.cmd.wf(),
                self.event.wf(),
                self.dev_ctx.wf(),
                forall|j: int| 0 <= j < self.devices@.len() ==> (#[trigger] self.devices@[j]).wf(),
                Self::refills_ok(self.refills()),
                self.devices@ == old(self).devices@ + probed_devices(connected@.take(k as int)),
                added == probed_devices(connected@.take(k as int)).len(),
                added <= k,
                self.max_slots == old(self).max_slots,
                self.max_ports == old(self).max_ports,
                self.max_irqs == old(self).max_irqs,
                self.cmd == old(self).cmd,
                self.event == old(self).event,
                self.dev_ctx == old(self).dev_ctx,
                self.finish_jobs == old(self).finish_jobs,
                self.extra_works == old(self).extra_works,
                self.history == old(self).history,
                self.pending().dom() == keys_after(self.history@),
            decreases n - k,
        {
            assert(connected@.take(k + 1).drop_last() =~= connected@.take(k as int));
            if connected[k] {
                let device = USBDevice::new(TopologyRoute::on_root_port(k as u8));
                self.devices.push(device);
                added = added + 1;
            }
            k = k + 1;
        }
        proof {
            lemma_probed_beyond(connected@, n as int);
        }
        added
    }

    /// Looks for the first device on `route`.
    pub fn find_device(&self, route: TopologyRoute) -> (r: Option<usize>)
        ensures
            r matches Some(i) ==> first_on_route(self.devices@, route, i as int),
            r.is_none() ==> none_on_route(self.devices@, route),
            r == Self::spec_find_device(self.devices@, route),
    {
        let mut k: usize = 0;
        while k < self.devices.len()
            invariant
                k <= self.devices@.len(),
                forall|j: int| 0 <= j < k ==> (#[trigger] self.devices@[j]).topology_path != route,
            decreases self.devices@.len() - k,
        {
            if self.devices[k].topology_path == route {
                proof {
                    lemma_first_unique(self.devices@, route, k as int);
                }
                return Some(k);
            }
            k = k + 1;
        }
        None
    }

    /// The doorbell of the command ring: register 0, stream 0, target 0.
    pub open spec fn command_doorbell() -> Doorbell {
        Doorbell { slot: 0, stream: Some(0), target: Some(0) }
    }

    /// Posts a command: enqueues `trb` on the command ring and records in the in-flight
    /// table that the completion of the block goes to `waiter`. The caller rings the
    /// command doorbell and waits for the completion whose command pointer is the key
    /// returned.
    pub fn post_command(&mut self, trb: Trb, waiter: CallbackValue) -> (p: Posted)
        requires
            old(self).wf(),
        ensures
            final(self).wf(),
            p.key == old(self).cmd@.next_addr(),
            p.doorbell == Self::command_doorbell(),
            final(self).cmd@ == old(self).cmd@.enqueue(trb),
            final(self).cmd@.get(p.key) == Some(trb.spec_with_cycle(old(self).cmd@.cycle)),
            final(self).pending() == old(self).pending().insert(
                p.key,
                XHCICompleteAction::CommandCallback(waiter),
            ),
            final(self).history@ == old(self).history@.push(TableOp::Posted(p.key)),
            final(self).extra_works == old(self).extra_works,
            final(self).dev_ctx == old(self).dev_ctx,
            final(self).event == old(self).event,
            final(self).devices == old(self).devices,
            final(self).max_slots == old(self).max_slots,
            final(self).max_ports == old(self).max_ports,
            final(self).max_irqs == old(self).max_irqs,
    {
        let addr = self.cmd.enqueue_command(trb);
        self.finish_jobs.insert(addr, XHCICompleteAction::CommandCallback(waiter));
        proof {
            lemma_keys_step(self.history@, TableOp::Posted(addr));
            self.history@ = self.history@.push(TableOp::Posted(addr));
        }
        Posted { key: addr, doorbell: Doorbell { slot: 0, stream: Some(0), target: Some(0) } }
    }

    /// What a completion event means to one who waits for the command at `addr`:
    /// nothing if the event is no command completion, has no defined completion code,
    /// or is about another command; else the completion if the code is `Success`, and
    /// the code if it is not.
    pub open spec fn spec_match_command_completion(addr: u64, event: Event) -> Option<
        Result<CommandCompletion, RequestResult>,
    > {
        match event {
            Event::CommandCompletion(c) => match RequestResult::spec_from_code(c.completion_code) {
                Some(code) => if c.command_trb_pointer != addr {
                    None
                } else if code == RequestResult::Success {
                    Some(Ok(c))
                } else {
                    Some(Err(code))
                },
                None => None,
            },
            _ => None,
        }
    }

    /// Decides, for one who polls the event ring for the completion of the command at
    /// `addr`, whether `event` ends the wait and with what.
    pub fn match_command_completion(addr: u64, event: Event) -> (r: Option<
        Result<CommandCompletion, RequestResult>,
    >)
        ensures
            r == Self::spec_match_command_completion(addr, event),
    {
        match event {
            Event::CommandCompletion(c) => match RequestResult::from_code(c.completion_code) {
                Some(code) => if c.command_trb_pointer != addr {
                    None
                } else {
                    match code {
                        RequestResult::Success => Some(Ok(c)),
                        _ => Some(Err(code)),
                    }
                },
                None => None,
            },
            _ => None,
        }
    }

    /// What to write into the controller's dequeue pointer register after a batch of
    /// events: the physical address of the last event consumed.
    pub fn update_erdp(&self) -> (p: u64)
        requires
            self.wf(),
        ensures
            p == self.event.spec_erdp(),
    {
        self.event.erdp()
    }
}

/// The first device on a route is one device: no other index is first.
pub proof fn lemma_first_unique(devices: Seq<USBDevice>, route: TopologyRoute, i: int)
    requires
        first_on_route(devices, route, i),
    ensures
        forall|j: int| first_on_route(devices, route, j) ==> j == i,
        (choose|j: int| first_on_route(devices, route, j)) == i,
{
    assert forall|j: int| first_on_route(devices, route, j) implies j == i by {
        if j < i {
            assert(devices[j].topology_path != route);
        } else if i < j {
            assert(devices[i].topology_path != route);
        }
    }
}

/// The devices that a probe of the ports finds: one for each of the first 255 ports
/// that reports a connection, in port order, on root hub port `index + 1`.
pub open spec fn probed_devices(connected: Seq<bool>) -> Seq<USBDevice>
    decreases connected.len(),
{
    if connected.len() == 0 {
        Seq::empty()
    } else {
        let before = probed_devices(connected.drop_last());
        if connected.last() && connected.len() <= 255 {
            before.push(
                USBDevice::spec_new(
                    TopologyRoute { port_number: connected.len() as u8, route_string: 0 },
                ),
            )
        } else {
            before
        }
    }
}

/// Ports beyond the first `n`, for `n` at least 255, add no device.
proof fn lemma_probed_beyond(connected: Seq<bool>, n: int)
    requires
        n == (if connected.len() < 255 {
            connected.len() as int
        } else {
            255int
        }),
    ensures
        probed_devices(connected) == probed_devices(connected.take(n)),
    decreases connected.len(),
{
    if connected.len() <= 255 {
        assert(connected.take(n) =~= connected);
    } else {
        let shorter = connected.drop_last();
        lemma_probed_beyond(shorter, 255);
        assert(shorter.take(255) =~= connected.take(255));
    }
}

} // verus!
