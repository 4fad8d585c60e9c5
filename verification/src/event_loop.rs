//! The event loop: from an event off the event ring to the waiter that is answered, the
//! permit that is released, or the transfer that is posted again.

use crate::controller::{
    keys_after, lemma_keys_step, lemma_pending_closure, outstanding, spec_interrupt_trb,
    spec_result_of_code, Completion, EventOutcome, PostError, Posted, TableOp,
    XHCICompleteAction, XHCIController,
};
use crate::event::{Event, TransferEvent};
use crate::operations::{
    CallbackValue, CompleteAction, ConfigureSemaphore, RequestResult, RequestedOperation,
    USBRequest,
};
use crate::trb::Trb;
use vstd::prelude::*;

verus! {

broadcast use vstd::std_specs::btree::group_btree_axioms;

/// The result that a completion code stands for: the outcome, or the raw code where the
/// code is not a defined one.
pub fn result_of_code(code: u8) -> (r: Result<RequestResult, u8>)
    ensures
        r == spec_result_of_code(code),
{
    match RequestResult::from_code(code) {
        Some(r) => Ok(r),
        None => Err(code),
    }
}

/// Whether a completion code reports a transfer as done: `Success` or `ShortPacket`.
pub open spec fn spec_code_is_success(code: u8) -> bool {
    code == 1 || code == 13
}

/// What the completion of a transfer with the given code asks for, given what the
/// in-flight table holds for the block: nothing where it holds nothing or asks for
/// nothing; the result for the waiter; and the release of the permit, which happens
/// only on `Success` and `ShortPacket`.
pub open spec fn spec_completion(action: Option<XHCICompleteAction>, code: u8) -> Completion {
    match action {
        Some(XHCICompleteAction::STANDARD(CompleteAction::SimpleResponse(waiter))) => {
            Completion::Respond { waiter, result: spec_result_of_code(code) }
        },
        Some(XHCICompleteAction::STANDARD(CompleteAction::DropSem(sem))) => {
            if spec_code_is_success(code) {
                Completion::ReleaseSemaphore(sem)
            } else {
                Completion::Nothing
            }
        },
        _ => Completion::Nothing,
    }
}

impl XHCIController {
    /// What the in-flight table holds for the block at `addr`, if anything.
    pub open spec fn in_flight(&self, addr: u64) -> Option<XHCICompleteAction> {
        if self.pending().contains_key(addr) {
            Some(self.pending()[addr])
        } else {
            None
        }
    }

    /// Whether a command completion for the block at `addr` can be handled: the block
    /// is not in flight, or it is in flight as a command.
    pub open spec fn command_acceptable(&self, addr: u64) -> bool {
        match self.in_flight(addr) {
            Some(XHCICompleteAction::STANDARD(_)) => false,
            _ => true,
        }
    }

    /// Whether a transfer event with the given code for the block at `addr` can be
    /// handled: the block is not in flight, or it is in flight as a transfer that asks
    /// for nothing or for a response, or as one that asks for the release of a permit
    /// and the code is `Success` or `ShortPacket`.
    pub open spec fn transfer_acceptable(&self, addr: u64, code: u8) -> bool {
        match self.in_flight(addr) {
            None => true,
            Some(XHCICompleteAction::STANDARD(CompleteAction::NOOP)) => true,
            Some(XHCICompleteAction::STANDARD(CompleteAction::SimpleResponse(_))) => true,
            Some(XHCICompleteAction::STANDARD(CompleteAction::DropSem(_))) => spec_code_is_success(
                code,
            ),
            _ => false,
        }
    }

    /// Whether an event can be handled; an event that cannot shows that the controller
    /// or the engine's caller has broken the protocol.
    pub open spec fn event_acceptable(&self, event: Event) -> bool {
        match event {
            Event::TransferEvent(te) => self.transfer_acceptable(
                te.trb_pointer,
                te.completion_code,
            ),
            Event::CommandCompletion(cc) => self.command_acceptable(cc.command_trb_pointer),
            _ => true,
        }
    }

    /// Tells whether an event can be handled.
    pub fn check_event(&self, event: &Event) -> (ok: bool)
        ensures
            ok == self.event_acceptable(*event),
    {
        match event {
            Event::TransferEvent(te) => {
                match self.finish_jobs.get(&te.trb_pointer) {
                    None => true,
                    Some(XHCICompleteAction::STANDARD(CompleteAction::NOOP)) => true,
                    Some(XHCICompleteAction::STANDARD(CompleteAction::SimpleResponse(_))) => true,
                    Some(XHCICompleteAction::STANDARD(CompleteAction::DropSem(_))) => {
                        te.completion_code == 1 || te.completion_code == 13
                    },
                    _ => false,
                }
            },
            Event::CommandCompletion(cc) => {
                match self.finish_jobs.get(&cc.command_trb_pointer) {
                    Some(XHCICompleteAction::STANDARD(_)) => false,
                    _ => true,
                }
            },
            _ => true,
        }
    }

    /// Takes the next event off the event ring, given the block `raw` that the memory
    /// holds at the ring's dequeue pointer; see `EventRing::next`.
    pub fn next_event(&mut self, raw: Trb) -> (r: Option<(Event, bool)>)
        requires
            old(self).wf(),
        ensures
            final(self).wf(),
            r == old(self).event.spec_next(raw),
            r.is_none() ==> *final(self) == *old(self),
            final(self).max_slots == old(self).max_slots,
            final(self).max_ports == old(self).max_ports,
            final(self).max_irqs == old(self).max_irqs,
            final(self).cmd == old(self).cmd,
            final(self).dev_ctx == old(self).dev_ctx,
            final(self).devices == old(self).devices,
            final(self).finish_jobs == old(self).finish_jobs,
            final(self).extra_works == old(self).extra_works,
            final(self).history == old(self).history,
            final(self).event.spec_base() == old(self).event.spec_base(),
            final(self).event.spec_len() == old(self).event.spec_len(),
            final(self).event.spec_erstba() == old(self).event.spec_erstba(),
            r.is_some() ==> final(self).event.consumed() == old(self).event.consumed() + 1,
    {
        self.event.next(raw)
    }

    /// Handles the completion of the command at `addr`: the entry of the block leaves
    /// the in-flight table, and its waiter comes back. Where the block is not in
    /// flight, nothing changes and `None` comes back.
    pub fn mark_command_completed(&mut self, addr: u64) -> (waiter: Option<CallbackValue>)
        requires
            old(self).wf(),
            old(self).command_acceptable(addr),
        ensures
            final(self).wf(),
            waiter == (match old(self).in_flight(addr) {
                Some(XHCICompleteAction::CommandCallback(w)) => Some(w),
                _ => None,
            }),
            final(self).pending() == old(self).pending().remove(addr),
            final(self).history@ == old(self).history@.push(TableOp::Completed(addr)),
            final(self).only_transfers_changed(*old(self)),
            final(self).dev_ctx == old(self).dev_ctx,
            final(self).extra_works == old(self).extra_works,
    {
        let taken = self.finish_jobs.remove(&addr);
        proof {
            lemma_keys_step(self.history@, TableOp::Completed(addr));
            self.history@ = self.history@.push(TableOp::Completed(addr));
        }
        match taken {
            Some(XHCICompleteAction::CommandCallback(w)) => Some(w),
            _ => None,
        }
    }

    /// What becomes of the refill when the block at `addr` completes: nothing where the
    /// block is in flight, or where the refill table holds nothing for it; else what
    /// posting the stored transfer again answers.
    pub open spec fn spec_refill(&self, addr: u64) -> Option<Result<Posted, PostError>> {
        if self.pending().contains_key(addr) {
            None
        } else if self.refills().contains_key(addr) {
            match self.refills()[addr].1.operation {
                RequestedOperation::Interrupt(t) => Some(
                    self.spec_interrupt_transfer(self.refills()[addr].0, t),
                ),
                _ => None,
            }
        } else {
            None
        }
    }

    /// The refill table after the block at `addr` has completed. Where the block was
    /// in flight, the table is as before. Else the entry of the block is gone, and
    /// where its transfer was posted again, the same slot and request stand under the
    /// address of the new block.
    pub open spec fn spec_refills_after_completion(&self, addr: u64) -> Map<u64, (u8, USBRequest)> {
        if self.pending().contains_key(addr) {
            self.refills()
        } else {
            match self.spec_refill(addr) {
                Some(Ok(p)) => self.refills().remove(addr).insert(p.key, self.refills()[addr]),
                _ => self.refills().remove(addr),
            }
        }
    }

    /// How the device context list stands after the block at `addr` has completed,
    /// relative to `before`: where a transfer was posted again, exactly one block has
    /// been enqueued on the ring of its endpoint; otherwise nothing has changed.
    pub open spec fn dev_ctx_refilled(&self, before: Self, addr: u64) -> bool {
        match before.spec_refill(addr) {
            Some(Ok(p)) => {
                let slot = before.refills()[addr].0;
                let t = before.refills()[addr].1.operation->Interrupt_0;
                &&& self.dev_ctx.only_ring_changed(before.dev_ctx, slot, t.endpoint_id)
                &&& self.dev_ctx.ring(slot, t.endpoint_id) == before.dev_ctx.ring(
                    slot,
                    t.endpoint_id,
                ).enqueue(spec_interrupt_trb(t))
                &&& self.dev_ctx.ring(slot, t.endpoint_id).enqueued == before.dev_ctx.ring(
                    slot,
                    t.endpoint_id,
                ).enqueued + 1
            },
            _ => self.dev_ctx == before.dev_ctx,
        }
    }

    /// Handles the completion of the transfer block at `addr` with completion code
    /// `code`.
    ///
    /// Where the block is in flight, its entry leaves the in-flight table, and what it
    /// asks for comes back: a response for the waiter, or the release of a permit.
    /// Else, where the refill table holds the block, its entry is taken out and the
    /// stored transfer is posted again, once, under the address of the new block; the
    /// completion code of such a block reaches nobody. Events for blocks in neither
    /// table change nothing.
    pub fn mark_transfer_completed(&mut self, code: u8, addr: u64) -> (r: (
        Completion,
        Option<Result<Posted, PostError>>,
    ))
        requires
            old(self).wf(),
            old(self).transfer_acceptable(addr, code),
        ensures
            final(self).wf(),
            r.0 == spec_completion(old(self).in_flight(addr), code),
            r.1 == old(self).spec_refill(addr),
            final(self).pending() == old(self).pending().remove(addr),
            final(self).history@ == old(self).history@.push(TableOp::Completed(addr)),
            final(self).refills() == old(self).spec_refills_after_completion(addr),
            final(self).dev_ctx_refilled(*old(self), addr),
            final(self).only_transfers_changed(*old(self)),
    {
        let taken = self.finish_jobs.remove(&addr);
        proof {
            lemma_keys_step(self.history@, TableOp::Completed(addr));
            self.history@ = self.history@.push(TableOp::Completed(addr));
        }
        let action = match taken {
            Some(action) => action,
            None => {
                let refill = match self.extra_works.remove(&addr) {
                    Some((slot, morereq)) => {
                        match morereq.operation {
                            RequestedOperation::Interrupt(t) => {
                                let posted = self.post_keep_fill(t, morereq.extra_action, slot);
                                Some(posted)
                            },
                            _ => None,
                        }
                    },
                    None => None,
                };
                return (Completion::Nothing, refill);
            },
        };
        let completion = match action {
            XHCICompleteAction::STANDARD(CompleteAction::SimpleResponse(waiter)) => {
                Completion::Respond { waiter, result: result_of_code(code) }
            },
            XHCICompleteAction::STANDARD(CompleteAction::DropSem(sem)) => {
                Completion::ReleaseSemaphore(sem)
            },
            _ => Completion::Nothing,
        };
        (completion, None)
    }

    /// What handling an event answers.
    pub open spec fn spec_on_event(&self, event: Event) -> EventOutcome {
        match event {
            Event::TransferEvent(te) => EventOutcome::Transfer {
                completion: spec_completion(self.in_flight(te.trb_pointer), te.completion_code),
                refill: self.spec_refill(te.trb_pointer),
            },
            Event::CommandCompletion(cc) => EventOutcome::Command {
                waiter: match self.in_flight(cc.command_trb_pointer) {
                    Some(XHCICompleteAction::CommandCallback(w)) => Some(w),
                    _ => None,
                },
                completion: cc,
            },
            Event::PortStatusChange(p) => EventOutcome::PortStatusChange(p),
            _ => EventOutcome::Ignored,
        }
    }

    /// Handles one event.
    ///
    /// - A transfer event is matched by the address of its block; see
    ///   `mark_transfer_completed`.
    /// - A command completion is matched by the address of its command; the waiter of
    ///   the command gets the whole completion, slot id included; see
    ///   `mark_command_completed`.
    /// - A port status change is handed on. Every other event is ignored.
    ///
    /// After a batch of events the caller writes `update_erdp` to the controller.
    pub fn on_event_arrived(&mut self, event: Event) -> (r: EventOutcome)
        requires
            old(self).wf(),
            old(self).event_acceptable(event),
        ensures
            final(self).wf(),
            r == old(self).spec_on_event(event),
            final(self).only_transfers_changed(*old(self)),
            match event {
                Event::TransferEvent(te) => {
                    &&& final(self).pending() == old(self).pending().remove(te.trb_pointer)
                    &&& final(self).history@ == old(self).history@.push(
                        TableOp::Completed(te.trb_pointer),
                    )
                    &&& final(self).refills() == old(self).spec_refills_after_completion(
                        te.trb_pointer,
                    )
                    &&& final(self).dev_ctx_refilled(*old(self), te.trb_pointer)
                },
                Event::CommandCompletion(cc) => {
                    &&& final(self).pending() == old(self).pending().remove(
                        cc.command_trb_pointer,
                    )
                    &&& final(self).history@ == old(self).history@.push(
                        TableOp::Completed(cc.command_trb_pointer),
                    )
                    &&& final(self).extra_works == old(self).extra_works
                    &&& final(self).dev_ctx == old(self).dev_ctx
                },
                _ => *final(self) == *old(self),
            },
    {
        match event {
            Event::TransferEvent(transfer_event) => {
                let (completion, refill) = self.mark_transfer_completed(
                    transfer_event.completion_code,
                    transfer_event.trb_pointer,
                );
                EventOutcome::Transfer { completion, refill }
            },
            Event::CommandCompletion(command_completion) => {
                let waiter = self.mark_command_completed(command_completion.command_trb_pointer);
                EventOutcome::Command { waiter, completion: command_completion }
            },
            Event::PortStatusChange(port_status_change) => EventOutcome::PortStatusChange(
                port_status_change,
            ),
            _ => EventOutcome::Ignored,
        }
    }
}

/// In-flight table closure: at any time, the keys of the engine's in-flight table are
/// exactly the addresses of the blocks that were posted with a completion record and
/// whose completion has not been handled since.
pub proof fn lemma_in_flight_closure(c: XHCIController, addr: u64)
    requires
        c.wf(),
    ensures
        c.pending().contains_key(addr) <==> outstanding(c.history@, addr),
{
    lemma_pending_closure(c.history@, addr);
    assert(c.pending().dom().contains(addr) <==> keys_after(c.history@).contains(addr));
}

/// Semaphore release: the completion of a transfer releases a permit exactly when the
/// in-flight table holds the release of that permit for the block and the completion
/// code is `Success` or `ShortPacket`; on any other code no permit is released.
pub proof fn lemma_semaphore_release(
    action: Option<XHCICompleteAction>,
    code: u8,
    sem: ConfigureSemaphore,
)
    ensures
        spec_completion(action, code) == Completion::ReleaseSemaphore(sem) <==> (action == Some(
            XHCICompleteAction::STANDARD(CompleteAction::DropSem(sem)),
        ) && (RequestResult::spec_from_code(code) == Some(RequestResult::Success)
            || RequestResult::spec_from_code(code) == Some(RequestResult::ShortPacket))),
{
}

/// Semaphore release by the event loop: where the in-flight table holds the release of a
/// permit for the block of a transfer event, the event can be handled exactly when its
/// completion code is `Success` or `ShortPacket`, and handling it then asks for the
/// release of that permit and for nothing else. On any other code the event is not one
/// that the event loop takes, and no completion of it releases any permit: the permit
/// stays out.
pub proof fn lemma_semaphore_release_on_event(
    c: XHCIController,
    event: TransferEvent,
    sem: ConfigureSemaphore,
)
    requires
        c.wf(),
        c.in_flight(event.trb_pointer) == Some(
            XHCICompleteAction::STANDARD(CompleteAction::DropSem(sem)),
        ),
    ensures
        c.event_acceptable(Event::TransferEvent(event)) <==> spec_code_is_success(
            event.completion_code,
        ),
        spec_code_is_success(event.completion_code) <==> (RequestResult::spec_from_code(
            event.completion_code,
        ) == Some(RequestResult::Success) || RequestResult::spec_from_code(event.completion_code)
            == Some(RequestResult::ShortPacket)),
        c.event_acceptable(Event::TransferEvent(event)) ==> c.spec_on_event(
            Event::TransferEvent(event),
        ) == (EventOutcome::Transfer { completion: Completion::ReleaseSemaphore(sem), refill: None }),
        !spec_code_is_success(event.completion_code) ==> forall|any: ConfigureSemaphore|
            spec_completion(c.in_flight(event.trb_pointer), event.completion_code)
                != Completion::ReleaseSemaphore(any),
{
}

/// Keep-fill continuity: when a block of a keep-fill transfer completes, the completion
/// asks for nothing whatever the code (the block is in the refill table and not in the
/// in-flight table); the transfer is posted again; and where that succeeds, the refill
/// table holds the same slot and request under the address of the new block, in place
/// of the entry of the block that completed.
pub proof fn lemma_keep_fill_continuity(c: XHCIController, addr: u64, code: u8)
    requires
        c.wf(),
        c.refills().contains_key(addr),
        !c.pending().contains_key(addr),
    ensures
        c.transfer_acceptable(addr, code),
        spec_completion(c.in_flight(addr), code) == Completion::Nothing,
        c.spec_refill(addr).is_some(),
        c.spec_refill(addr) matches Some(Ok(p)) ==> {
            &&& c.spec_refills_after_completion(addr).dom() == c.refills().dom().remove(
                addr,
            ).insert(p.key)
            &&& c.spec_refills_after_completion(addr)[p.key] == c.refills()[addr]
            &&& XHCIController::refillable(c.spec_refills_after_completion(addr)[p.key].1)
        },
{
}

} // verus!
