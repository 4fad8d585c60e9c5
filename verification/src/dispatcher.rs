//! The request dispatcher: from a request to blocks on a transfer ring, an entry in the
//! in-flight table or the refill table, and a doorbell.

use crate::context::CONTROL_DCI;
use crate::controller::{
    after_control, control_fits, control_key, first_on_route, interrupt_fits, lemma_keys_step,
    spec_carried_permit, spec_interrupt_trb, spec_refill_request, Dispatch, Doorbell, PostError,
    Posted, TableOp, XHCICompleteAction, XHCIController,
};
use crate::device::USBDevice;
use crate::device_context::DeviceContextList;
use crate::operations::{
    CompleteAction, ConfigureSemaphore, ControlTransfer, Direction, ExtraAction,
    InterruptTransfer, RequestedOperation, TopologyRoute, USBRequest,
};
use crate::trb::{
    data_stage_trb, normal_trb, setup_stage_trb, status_stage_in_trb, status_stage_trb,
    TransferType, MAX_TRB_TRANSFER_LENGTH,
};
use vstd::prelude::*;

verus! {

broadcast use vstd::std_specs::btree::group_btree_axioms;

/// The permit that a completion action carries, if it carries one.
pub fn carried_permit(action: CompleteAction) -> (r: Option<ConfigureSemaphore>)
    ensures
        r == spec_carried_permit(action),
{
    match action {
        CompleteAction::DropSem(sem) => Some(sem),
        _ => None,
    }
}

impl XHCIController {
    /// What `control_transfer` answers.
    pub open spec fn spec_control_transfer(&self, slot: u8, req: ControlTransfer) -> Result<
        Posted,
        PostError,
    > {
        if !self.dev_ctx.spec_has_transfer_ring(slot, CONTROL_DCI) {
            Err(PostError::NoSuchRing)
        } else if !control_fits(req) {
            Err(PostError::TooLong)
        } else {
            Ok(
                Posted {
                    key: control_key(self.dev_ctx.ring(slot, CONTROL_DCI), req) as u64,
                    doorbell: Doorbell { slot, stream: None, target: Some(1) },
                },
            )
        }
    }

    /// Enqueues the blocks of a control transfer on the control ring of `slot`, one
    /// after the other with nothing in between: the setup stage, the data stage if the
    /// request has a buffer, and the status stage, as `after_control` says. Returns the
    /// address of the status stage block and the doorbell of the control endpoint.
    ///
    /// Refused, with nothing changed: a slot without a control ring (`NoSuchRing`), a
    /// buffer that is longer than one block can transfer (`TooLong`).
    pub fn control_transfer(&mut self, slot: u8, urb_req: ControlTransfer) -> (r: Result<
        Posted,
        PostError,
    >)
        requires
            old(self).wf(),
        ensures
            final(self).wf(),
            r == old(self).spec_control_transfer(slot, urb_req),
            r.is_err() ==> *final(self) == *old(self),
            r.is_ok() ==> {
                &&& final(self).only_transfers_changed(*old(self))
                &&& final(self).finish_jobs == old(self).finish_jobs
                &&& final(self).extra_works == old(self).extra_works
                &&& final(self).history == old(self).history
                &&& final(self).dev_ctx.only_ring_changed(old(self).dev_ctx, slot, CONTROL_DCI)
                &&& final(self).dev_ctx.ring(slot, CONTROL_DCI) == after_control(
                    old(self).dev_ctx.ring(slot, CONTROL_DCI),
                    urb_req,
                )
            },
    {
        if !self.dev_ctx.has_transfer_ring(slot, CONTROL_DCI) {
            return Err(PostError::NoSuchRing);
        }
        let direction = urb_req.request_type.direction;
        let mut len: usize = 0;
        let transfer_type = match urb_req.data {
            Some((_, length)) => {
                if length > MAX_TRB_TRANSFER_LENGTH as usize {
                    return Err(PostError::TooLong);
                }
                len = length;
                match direction {
                    Direction::In => TransferType::In,
                    Direction::Out => TransferType::Out,
                }
            },
            None => TransferType::No,
        };
        let setup = setup_stage_trb(
            urb_req.request_type.byte(),
            urb_req.request,
            urb_req.value,
            urb_req.index,
            (len % 0x1_0000) as u16,
            transfer_type,
        );
        let status = if urb_req.response {
            status_stage_in_trb()
        } else {
            status_stage_trb()
        };
        let ghost before = self.dev_ctx;
        let _ = self.dev_ctx.enqueue_transfer(slot, CONTROL_DCI, setup);
        let ghost mid = self.dev_ctx;
        match urb_req.data {
            Some((addr, length)) => {
                let data = data_stage_trb(addr as u64, length as u32, direction.bit());
                let _ = self.dev_ctx.enqueue_transfer(slot, CONTROL_DCI, data);
                proof {
                    lemma_only_ring_changed_trans(before, mid, self.dev_ctx, slot, CONTROL_DCI);
                }
            },
            None => {},
        }
        let ghost mid2 = self.dev_ctx;
        let key = self.dev_ctx.enqueue_transfer(slot, CONTROL_DCI, status);
        proof {
            lemma_only_ring_changed_trans(before, mid2, self.dev_ctx, slot, CONTROL_DCI);
        }
        Ok(Posted { key: key.unwrap(), doorbell: Doorbell { slot, stream: None, target: Some(1) } })
    }

    /// What `interrupt_transfer` answers.
    pub open spec fn spec_interrupt_transfer(&self, slot: u8, req: InterruptTransfer) -> Result<
        Posted,
        PostError,
    > {
        if !self.dev_ctx.spec_has_transfer_ring(slot, req.endpoint_id) {
            Err(PostError::NoSuchRing)
        } else if !interrupt_fits(req) {
            Err(PostError::TooLong)
        } else {
            Ok(
                Posted {
                    key: self.dev_ctx.ring(slot, req.endpoint_id).next_addr() as u64,
                    doorbell: Doorbell { slot, stream: None, target: Some(req.endpoint_id as u8) },
                },
            )
        }
    }

    /// Enqueues the one normal block of an interrupt transfer on the ring of its
    /// endpoint: the buffer, with an event on completion and on a short packet. Returns
    /// the address of the block and the doorbell of the endpoint.
    ///
    /// Refused, with nothing changed: an endpoint without a ring (`NoSuchRing`), a
    /// buffer that is longer than one block can transfer (`TooLong`).
    pub fn interrupt_transfer(&mut self, slot: u8, urb_req: &InterruptTransfer) -> (r: Result<
        Posted,
        PostError,
    >)
        requires
            old(self).wf(),
        ensures
            final(self).wf(),
            r == old(self).spec_interrupt_transfer(slot, *urb_req),
            r.is_err() ==> *final(self) == *old(self),
            r.is_ok() ==> {
                &&& final(self).only_transfers_changed(*old(self))
                &&& final(self).finish_jobs == old(self).finish_jobs
                &&& final(self).extra_works == old(self).extra_works
                &&& final(self).history == old(self).history
                &&& final(self).dev_ctx.only_ring_changed(
                    old(self).dev_ctx,
                    slot,
                    urb_req.endpoint_id,
                )
                &&& final(self).dev_ctx.ring(slot, urb_req.endpoint_id) == old(self).dev_ctx.ring(
                    slot,
                    urb_req.endpoint_id,
                ).enqueue(spec_interrupt_trb(*urb_req))
                &&& final(self).dev_ctx.ring(slot, urb_req.endpoint_id).enqueued == old(self).dev_ctx.ring(slot, urb_req.endpoint_id).enqueued + 1
            },
    {
        let (addr, len) = urb_req.buffer_addr_len;
        let dci: usize = urb_req.endpoint_id;
        if !self.dev_ctx.has_transfer_ring(slot, dci) {
            return Err(PostError::NoSuchRing);
        }
        if len > MAX_TRB_TRANSFER_LENGTH as usize {
            return Err(PostError::TooLong);
        }
        let trb = normal_trb(addr as u64, len as u32, 0);
        let key = self.dev_ctx.enqueue_transfer(slot, dci, trb);
        assert(dci <= 31);
        Ok(
            Posted {
                key: key.unwrap(),
                doorbell: Doorbell { slot, stream: None, target: Some(dci as u8) },
            },
        )
    }
}

impl XHCIController {
    /// Posts a control transfer and records what to do when it completes: the blocks
    /// go onto the control ring as `control_transfer` says, and the in-flight table
    /// maps the address of the status stage block to `complete`.
    ///
    /// Refused, with nothing changed, where `control_transfer` refuses.
    pub fn post_control_transfer(
        &mut self,
        control_transfer: ControlTransfer,
        complete: CompleteAction,
        slot: u8,
    ) -> (r: Result<Posted, PostError>)
        requires
            old(self).wf(),
        ensures
            final(self).wf(),
            r == old(self).spec_control_transfer(slot, control_transfer),
            r.is_err() ==> *final(self) == *old(self),
            r matches Ok(p) ==> {
                &&& final(self).only_transfers_changed(*old(self))
                &&& final(self).pending() == old(self).pending().insert(
                    p.key,
                    XHCICompleteAction::STANDARD(complete),
                )
                &&& final(self).history@ == old(self).history@.push(TableOp::Posted(p.key))
                &&& final(self).extra_works == old(self).extra_works
                &&& final(self).dev_ctx.only_ring_changed(old(self).dev_ctx, slot, CONTROL_DCI)
                &&& final(self).dev_ctx.ring(slot, CONTROL_DCI) == after_control(
                    old(self).dev_ctx.ring(slot, CONTROL_DCI),
                    control_transfer,
                )
            },
    {
        let posted = match self.control_transfer(slot, control_transfer) {
            Ok(p) => p,
            Err(e) => {
                return Err(e);
            },
        };
        self.finish_jobs.insert(posted.key, XHCICompleteAction::STANDARD(complete));
        proof {
            lemma_keys_step(self.history@, TableOp::Posted(posted.key));
            self.history@ = self.history@.push(TableOp::Posted(posted.key));
        }
        Ok(posted)
    }

    /// Posts an interrupt transfer and, where `complete` is given, records what to do
    /// when it completes: the block goes onto the ring of the endpoint as
    /// `interrupt_transfer` says, and the in-flight table maps its address to
    /// `complete`.
    ///
    /// Refused, with nothing changed, where `interrupt_transfer` refuses.
    pub fn post_interrupt_transfer(
        &mut self,
        transfer: &InterruptTransfer,
        complete: Option<CompleteAction>,
        slot: u8,
    ) -> (r: Result<Posted, PostError>)
        requires
            old(self).wf(),
        ensures
            final(self).wf(),
            r == old(self).spec_interrupt_transfer(slot, *transfer),
            r.is_err() ==> *final(self) == *old(self),
            r matches Ok(p) ==> {
                &&& final(self).only_transfers_changed(*old(self))
                &&& final(self).pending() == (match complete {
                    Some(c) => old(self).pending().insert(p.key, XHCICompleteAction::STANDARD(c)),
                    None => old(self).pending(),
                })
                &&& final(self).history@ == (match complete {
                    Some(_) => old(self).history@.push(TableOp::Posted(p.key)),
                    None => old(self).history@,
                })
                &&& final(self).extra_works == old(self).extra_works
                &&& final(self).dev_ctx.only_ring_changed(
                    old(self).dev_ctx,
                    slot,
                    transfer.endpoint_id,
                )
                &&& final(self).dev_ctx.ring(slot, transfer.endpoint_id) == old(self).dev_ctx.ring(
                    slot,
                    transfer.endpoint_id,
                ).enqueue(spec_interrupt_trb(*transfer))
            },
    {
        let posted = match self.interrupt_transfer(slot, transfer) {
            Ok(p) => p,
            Err(e) => {
                return Err(e);
            },
        };
        match complete {
            Some(c) => {
                self.finish_jobs.insert(posted.key, XHCICompleteAction::STANDARD(c));
                proof {
                    lemma_keys_step(self.history@, TableOp::Posted(posted.key));
                    self.history@ = self.history@.push(TableOp::Posted(posted.key));
                }
            },
            None => {},
        }
        Ok(posted)
    }

    /// Posts a keep-fill interrupt transfer: the block goes onto the ring of the
    /// endpoint, and the refill table maps its address to the slot and to the request
    /// to post again, which carries no completion action. The in-flight table is not
    /// touched, so the completion code of the block reaches nobody.
    ///
    /// Refused, with nothing changed, where `interrupt_transfer` refuses.
    pub fn post_keep_fill(
        &mut self,
        transfer: InterruptTransfer,
        extra_action: ExtraAction,
        slot: u8,
    ) -> (r: Result<Posted, PostError>)
        requires
            old(self).wf(),
            extra_action is KeepFill,
        ensures
            final(self).wf(),
            r == old(self).spec_interrupt_transfer(slot, transfer),
            r.is_err() ==> *final(self) == *old(self),
            r matches Ok(p) ==> {
                &&& final(self).only_transfers_changed(*old(self))
                &&& final(self).pending() == old(self).pending()
                &&& final(self).history@ == old(self).history@
                &&& final(self).refills() == old(self).refills().insert(
                    p.key,
                    (slot, spec_refill_request(extra_action, transfer)),
                )
                &&& final(self).dev_ctx.only_ring_changed(
                    old(self).dev_ctx,
                    slot,
                    transfer.endpoint_id,
                )
                &&& final(self).dev_ctx.ring(slot, transfer.endpoint_id) == old(self).dev_ctx.ring(
                    slot,
                    transfer.endpoint_id,
                ).enqueue(spec_interrupt_trb(transfer))
            },
    {
        let posted = match self.post_interrupt_transfer(&transfer, None, slot) {
            Ok(p) => p,
            Err(e) => {
                return Err(e);
            },
        };
        self.extra_works.insert(
            posted.key,
            (
                slot,
                USBRequest {
                    extra_action,
                    operation: RequestedOperation::Interrupt(transfer),
                    complete_action: CompleteAction::NOOP,
                },
            ),
        );
        Ok(posted)
    }

    /// The index of the first device on `route`, if there is a device on it.
    pub open spec fn spec_find_device(devices: Seq<USBDevice>, route: TopologyRoute) -> Option<
        usize,
    > {
        if exists|i: int| first_on_route(devices, route, i) {
            Some((choose|i: int| first_on_route(devices, route, i)) as usize)
        } else {
            None
        }
    }

    /// Whether the dispatcher can take the request: a request to initialize a device
    /// must name a route on which a device is known.
    pub open spec fn dispatchable(&self, req: USBRequest) -> bool {
        req.operation matches RequestedOperation::InitializeDevice(route)
            ==> Self::spec_find_device(self.devices@, route).is_some()
    }

    /// What `post_transfer` answers to a request that it can take.
    pub open spec fn spec_post_transfer(&self, req: USBRequest, slot: Option<u8>) -> Result<
        Dispatch,
        PostError,
    > {
        match req.operation {
            RequestedOperation::Control(ct) => match slot {
                Some(s) => match self.spec_control_transfer(s, ct) {
                    Ok(p) => Ok(Dispatch::Posted(p)),
                    Err(e) => Err(e),
                },
                None => Err(PostError::SlotNotAssigned),
            },
            RequestedOperation::Interrupt(t) => match slot {
                Some(s) => match self.spec_interrupt_transfer(s, t) {
                    Ok(p) => Ok(Dispatch::Posted(p)),
                    Err(e) => Err(e),
                },
                None => Err(PostError::SlotNotAssigned),
            },
            RequestedOperation::InitializeDevice(route) => Ok(
                Dispatch::AssignAddress {
                    device: Self::spec_find_device(self.devices@, route).unwrap(),
                    release: spec_carried_permit(req.complete_action),
                },
            ),
            RequestedOperation::EnableFunction(config, interface) => match slot {
                Some(s) => Ok(
                    Dispatch::EnableFunction {
                        slot: s,
                        config,
                        interface,
                        release: spec_carried_permit(req.complete_action),
                    },
                ),
                None => Err(PostError::SlotNotAssigned),
            },
            _ => Ok(Dispatch::Nothing),
        }
    }

    /// The in-flight table after `post_transfer`: a control transfer, or an interrupt
    /// transfer that is not kept filled, adds its completion action under the address
    /// of its terminal block, if it was posted; nothing else changes the table.
    pub open spec fn spec_pending_after(&self, req: USBRequest, slot: Option<u8>) -> Map<
        u64,
        XHCICompleteAction,
    > {
        match self.spec_post_transfer(req, slot) {
            Ok(Dispatch::Posted(p)) => if req.operation is Control || req.extra_action
                == ExtraAction::NOOP {
                self.pending().insert(p.key, XHCICompleteAction::STANDARD(req.complete_action))
            } else {
                self.pending()
            },
            _ => self.pending(),
        }
    }

    /// The history of the in-flight table after `post_transfer`: one posting more where
    /// the table got an entry.
    pub open spec fn spec_history_after(&self, req: USBRequest, slot: Option<u8>) -> Seq<TableOp> {
        match self.spec_post_transfer(req, slot) {
            Ok(Dispatch::Posted(p)) => if req.operation is Control || req.extra_action
                == ExtraAction::NOOP {
                self.history@.push(TableOp::Posted(p.key))
            } else {
                self.history@
            },
            _ => self.history@,
        }
    }

    /// The refill table after `post_transfer`: an interrupt transfer that is kept
    /// filled adds its slot and its request, stripped of the completion action, under
    /// the address of its block, if it was posted; nothing else changes the table.
    pub open spec fn spec_refills_after(&self, req: USBRequest, slot: Option<u8>) -> Map<
        u64,
        (u8, USBRequest),
    > {
        match self.spec_post_transfer(req, slot) {
            Ok(Dispatch::Posted(p)) => match req.operation {
                RequestedOperation::Interrupt(t) => if req.extra_action is KeepFill {
                    self.refills().insert(
                        p.key,
                        (slot.unwrap(), spec_refill_request(req.extra_action, t)),
                    )
                } else {
                    self.refills()
                },
                _ => self.refills(),
            },
            _ => self.refills(),
        }
    }

    /// How the device context list stands after `post_transfer`, relative to `before`:
    /// a transfer that was posted has changed the ring of its endpoint and nothing
    /// else; otherwise nothing has changed.
    pub open spec fn dev_ctx_posted(&self, before: Self, req: USBRequest, slot: Option<u8>) -> bool {
        match before.spec_post_transfer(req, slot) {
            Ok(Dispatch::Posted(p)) => match req.operation {
                RequestedOperation::Control(ct) => {
                    &&& self.dev_ctx.only_ring_changed(before.dev_ctx, slot.unwrap(), CONTROL_DCI)
                    &&& self.dev_ctx.ring(slot.unwrap(), CONTROL_DCI) == after_control(
                        before.dev_ctx.ring(slot.unwrap(), CONTROL_DCI),
                        ct,
                    )
                },
                RequestedOperation::Interrupt(t) => {
                    &&& self.dev_ctx.only_ring_changed(
                        before.dev_ctx,
                        slot.unwrap(),
                        t.endpoint_id,
                    )
                    &&& self.dev_ctx.ring(slot.unwrap(), t.endpoint_id) == before.dev_ctx.ring(
                        slot.unwrap(),
                        t.endpoint_id,
                    ).enqueue(spec_interrupt_trb(t))
                },
                _ => self.dev_ctx == before.dev_ctx,
            },
            _ => self.dev_ctx == before.dev_ctx,
        }
    }

    /// Dispatches one request of the device in `slot`.
    ///
    /// - A control transfer is posted on the control ring; its completion action goes
    ///   into the in-flight table.
    /// - An interrupt transfer is posted on the ring of its endpoint. Its completion
    ///   action goes into the in-flight table, unless the transfer is to be kept
    ///   filled: then the request goes into the refill table instead, without its
    ///   completion action.
    /// - Initializing a device and enabling a function take several commands; the
    ///   caller is told to run them and to release the permit that the request carries.
    ///   The device to initialize is the first one on the route of the request; a route
    ///   on which no device is known is not for the dispatcher, and the caller finds
    ///   that out with `find_device`.
    /// - Bulk and isochronous transfers and the empty operation do nothing.
    ///
    /// Refused, with nothing changed: a transfer or a function for a device without a
    /// slot (`SlotNotAssigned`), and what `control_transfer` and `interrupt_transfer`
    /// refuse.
    pub fn post_transfer(&mut self, req: USBRequest, slot: Option<u8>) -> (r: Result<
        Dispatch,
        PostError,
    >)
        requires
            old(self).wf(),
            old(self).dispatchable(req),
        ensures
            final(self).wf(),
            r == old(self).spec_post_transfer(req, slot),
            final(self).only_transfers_changed(*old(self)),
            final(self).pending() == old(self).spec_pending_after(req, slot),
            final(self).history@ == old(self).spec_history_after(req, slot),
            final(self).refills() == old(self).spec_refills_after(req, slot),
            final(self).dev_ctx_posted(*old(self), req, slot),
            r.is_err() ==> *final(self) == *old(self),
    {
        match req.operation {
            RequestedOperation::Control(control_transfer) => {
                let s = match slot {
                    Some(s) => s,
                    None => {
                        return Err(PostError::SlotNotAssigned);
                    },
                };
                match self.post_control_transfer(control_transfer, req.complete_action, s) {
                    Ok(p) => Ok(Dispatch::Posted(p)),
                    Err(e) => Err(e),
                }
            },
            RequestedOperation::Interrupt(interrupt_transfer) => {
                let s = match slot {
                    Some(s) => s,
                    None => {
                        return Err(PostError::SlotNotAssigned);
                    },
                };
                let posted = match req.extra_action {
                    ExtraAction::NOOP => self.post_interrupt_transfer(
                        &interrupt_transfer,
                        Some(req.complete_action),
                        s,
                    ),
                    ExtraAction::KeepFill(_) => self.post_keep_fill(
                        interrupt_transfer,
                        req.extra_action,
                        s,
                    ),
                };
                match posted {
                    Ok(p) => Ok(Dispatch::Posted(p)),
                    Err(e) => Err(e),
                }
            },
            RequestedOperation::InitializeDevice(route) => {
                let device = self.find_device(route).unwrap();
                Ok(Dispatch::AssignAddress { device, release: carried_permit(req.complete_action) })
            },
            RequestedOperation::EnableFunction(config, interface) => {
                match slot {
                    Some(s) => Ok(
                        Dispatch::EnableFunction {
                            slot: s,
                            config,
                            interface,
                            release: carried_permit(req.complete_action),
                        },
                    ),
                    None => Err(PostError::SlotNotAssigned),
                }
            },
            _ => Ok(Dispatch::Nothing),
        }
    }
}

/// Changing one ring twice changes one ring.
pub proof fn lemma_only_ring_changed_trans(
    a: DeviceContextList,
    b: DeviceContextList,
    c: DeviceContextList,
    slot: u8,
    dci: usize,
)
    requires
        b.only_ring_changed(a, slot, dci),
        c.only_ring_changed(b, slot, dci),
    ensures
        c.only_ring_changed(a, slot, dci),
{
    assert forall|s: u8| s != slot && a.slots().contains_key(s) implies #[trigger] c.slots()[s]
        == a.slots()[s] by {
        assert(b.slots()[s] == a.slots()[s]);
    }
    assert forall|d: usize| d != dci && a.spec_has_transfer_ring(slot, d) implies #[trigger] c.ring(
        slot,
        d,
    ) == a.ring(slot, d) by {
        assert(b.ring(slot, d) == a.ring(slot, d));
        assert(b.spec_has_transfer_ring(slot, d));
    }
}

} // verus!
