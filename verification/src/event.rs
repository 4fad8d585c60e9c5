//! Event blocks: what the controller writes onto the event ring.
//!
//! Which kind of event a block is, and whether it is a valid block at all, is decided
//! by the `xhci` crate. The kinds that the engine acts on are then read out field by
//! field; the others are carried as they came.

use crate::trb::{high_word, lemma_join_split, low_word, Trb};
use vstd::prelude::*;
use xhci::ring::trb::event::Allowed;

verus! {

/// The kinds of event that a controller reports.
#[derive(Copy, Clone, Debug, PartialEq, Eq, Structural, Hash)]
pub enum EventKind {
    TransferEvent,
    CommandCompletion,
    PortStatusChange,
    BandwidthRequest,
    Doorbell,
    HostController,
    DeviceNotification,
    MfindexWrap,
}

impl EventKind {
    /// The TRB type code of the kind.
    pub open spec fn type_code(self) -> u32 {
        match self {
            EventKind::TransferEvent => 32,
            EventKind::CommandCompletion => 33,
            EventKind::PortStatusChange => 34,
            EventKind::BandwidthRequest => 35,
            EventKind::Doorbell => 36,
            EventKind::HostController => 37,
            EventKind::DeviceNotification => 38,
            EventKind::MfindexWrap => 39,
        }
    }

    /// The bits that must be zero in a block of the kind, word by word.
    pub open spec fn reserved(self) -> Trb {
        match self {
            EventKind::TransferEvent => Trb { w0: 0, w1: 0, w2: 0, w3: 0x00e0_03fa },
            EventKind::CommandCompletion => Trb { w0: 0xf, w1: 0, w2: 0, w3: 0x3fe },
            EventKind::PortStatusChange => Trb {
                w0: 0x00ff_ffff,
                w1: 0xffff_ffff,
                w2: 0x00ff_ffff,
                w3: 0xffff_03fe,
            },
            EventKind::BandwidthRequest => Trb {
                w0: 0xffff_ffff,
                w1: 0xffff_ffff,
                w2: 0x00ff_ffff,
                w3: 0x00ff_03fe,
            },
            EventKind::Doorbell => Trb {
                w0: 0xffff_ffe0,
                w1: 0xffff_ffff,
                w2: 0x00ff_ffff,
                w3: 0x3fe,
            },
            EventKind::HostController => Trb {
                w0: 0xffff_ffff,
                w1: 0xffff_ffff,
                w2: 0x00ff_ffff,
                w3: 0xffff_03fe,
            },
            EventKind::DeviceNotification => Trb {
                w0: 0xffff_ffff,
                w1: 0xffff_ffff,
                w2: 0x00ff_ffff,
                w3: 0xffff_03fe,
            },
            EventKind::MfindexWrap => Trb { w0: 0xf, w1: 0, w2: 0x00ff_ffff, w3: 0x00ff_03fe },
        }
    }

    /// Whether `raw` is a valid block of the kind: it carries the kind's type code and
    /// all its reserved bits are zero.
    pub open spec fn accepts(self, raw: Trb) -> bool {
        &&& raw.spec_trb_type() == self.type_code()
        &&& raw.w0 & self.reserved().w0 == 0
        &&& raw.w1 & self.reserved().w1 == 0
        &&& raw.w2 & self.reserved().w2 == 0
        &&& raw.w3 & self.reserved().w3 == 0
    }
}

/// The kind of event that `raw` is a valid block of, if any.
pub open spec fn spec_event_kind(raw: Trb) -> Option<EventKind> {
    if EventKind::TransferEvent.accepts(raw) {
        Some(EventKind::TransferEvent)
    } else if EventKind::CommandCompletion.accepts(raw) {
        Some(EventKind::CommandCompletion)
    } else if EventKind::PortStatusChange.accepts(raw) {
        Some(EventKind::PortStatusChange)
    } else if EventKind::BandwidthRequest.accepts(raw) {
        Some(EventKind::BandwidthRequest)
    } else if EventKind::Doorbell.accepts(raw) {
        Some(EventKind::Doorbell)
    } else if EventKind::HostController.accepts(raw) {
        Some(EventKind::HostController)
    } else if EventKind::DeviceNotification.accepts(raw) {
        Some(EventKind::DeviceNotification)
    } else if EventKind::MfindexWrap.accepts(raw) {
        Some(EventKind::MfindexWrap)
    } else {
        None
    }
}

/// Classifies a block with `xhci`'s `TryFrom<[u32; 4]>` for the event `Allowed`. Claimed:
/// the conversion succeeds exactly for a block that carries the type code of an event
/// kind and has that kind's reserved bits all zero, and it yields that kind.
#[verifier::external_body]
pub(crate) fn event_kind(raw: Trb) -> (k: Option<EventKind>)
    ensures
        k == spec_event_kind(raw),
{
    match Allowed::try_from([raw.w0, raw.w1, raw.w2, raw.w3]) {
        Ok(Allowed::TransferEvent(_)) => Some(EventKind::TransferEvent),
        Ok(Allowed::CommandCompletion(_)) => Some(EventKind::CommandCompletion),
        Ok(Allowed::PortStatusChange(_)) => Some(EventKind::PortStatusChange),
        Ok(Allowed::BandwidthRequest(_)) => Some(EventKind::BandwidthRequest),
        Ok(Allowed::Doorbell(_)) => Some(EventKind::Doorbell),
        Ok(Allowed::HostController(_)) => Some(EventKind::HostController),
        Ok(Allowed::DeviceNotification(_)) => Some(EventKind::DeviceNotification),
        Ok(Allowed::MfindexWrap(_)) => Some(EventKind::MfindexWrap),
        Err(_) => None,
    }
}

/// A transfer has completed, or has made progress worth reporting.
#[derive(Copy, Clone, Debug, PartialEq, Eq, Structural, Hash)]
pub struct TransferEvent {
    /// Physical address of the transfer block that the event is about.
    pub trb_pointer: u64,
    /// Bytes not transferred, 24 bits.
    pub trb_transfer_length: u32,
    pub completion_code: u8,
    pub event_data: bool,
    /// Device context index of the endpoint, 5 bits.
    pub endpoint_id: u8,
    pub slot_id: u8,
    pub cycle_bit: bool,
}

impl TransferEvent {
    /// Every field fits the bits that the block has for it.
    pub open spec fn wf(self) -> bool {
        &&& self.trb_transfer_length <= 0x00ff_ffff
        &&& self.endpoint_id <= 0x1f
    }

    /// The fields read out of a block.
    pub open spec fn of_raw(raw: Trb) -> TransferEvent {
        TransferEvent {
            trb_pointer: raw.spec_pointer(),
            trb_transfer_length: raw.w2 & 0x00ff_ffff,
            completion_code: (raw.w2 >> 24) as u8,
            event_data: raw.w3 & 4 == 4,
            endpoint_id: ((raw.w3 >> 16) & 0x1f) as u8,
            slot_id: (raw.w3 >> 24) as u8,
            cycle_bit: raw.spec_cycle_bit(),
        }
    }

    /// The block that holds the fields.
    pub open spec fn spec_raw(self) -> Trb {
        Trb {
            w0: low_word(self.trb_pointer),
            w1: high_word(self.trb_pointer),
            w2: self.trb_transfer_length | ((self.completion_code as u32) << 24),
            w3: 0x8000 | (if self.cycle_bit {
                1u32
            } else {
                0u32
            }) | (if self.event_data {
                4u32
            } else {
                0u32
            }) | ((self.endpoint_id as u32) << 16) | ((self.slot_id as u32) << 24),
        }
    }
}

/// A command has completed.
#[derive(Copy, Clone, Debug, PartialEq, Eq, Structural, Hash)]
pub struct CommandCompletion {
    /// Physical address of the command block that the event is about, a multiple of 16.
    pub command_trb_pointer: u64,
    /// 24 bits whose meaning depends on the command.
    pub command_completion_parameter: u32,
    pub completion_code: u8,
    pub vf_id: u8,
    /// The slot that the command was about, or that an enable-slot command was given.
    pub slot_id: u8,
    pub cycle_bit: bool,
}

impl CommandCompletion {
    /// Every field fits the bits that the block has for it.
    pub open spec fn wf(self) -> bool {
        &&& self.command_completion_parameter <= 0x00ff_ffff
        &&& self.command_trb_pointer & 0xf == 0
    }

    /// The fields read out of a block.
    pub open spec fn of_raw(raw: Trb) -> CommandCompletion {
        CommandCompletion {
            command_trb_pointer: raw.spec_pointer(),
            command_completion_parameter: raw.w2 & 0x00ff_ffff,
            completion_code: (raw.w2 >> 24) as u8,
            vf_id: ((raw.w3 >> 16) & 0xff) as u8,
            slot_id: (raw.w3 >> 24) as u8,
            cycle_bit: raw.spec_cycle_bit(),
        }
    }

    /// The block that holds the fields.
    pub open spec fn spec_raw(self) -> Trb {
        Trb {
            w0: low_word(self.command_trb_pointer),
            w1: high_word(self.command_trb_pointer),
            w2: self.command_completion_parameter | ((self.completion_code as u32) << 24),
            w3: 0x8400 | (if self.cycle_bit {
                1u32
            } else {
                0u32
            }) | ((self.vf_id as u32) << 16) | ((self.slot_id as u32) << 24),
        }
    }
}

/// The status of a root hub port has changed.
#[derive(Copy, Clone, Debug, PartialEq, Eq, Structural, Hash)]
pub struct PortStatusChange {
    /// Root hub port number, counted from 1.
    pub port_id: u8,
    pub completion_code: u8,
    pub cycle_bit: bool,
}

impl PortStatusChange {
    /// The fields read out of a block.
    pub open spec fn of_raw(raw: Trb) -> PortStatusChange {
        PortStatusChange {
            port_id: (raw.w0 >> 24) as u8,
            completion_code: (raw.w2 >> 24) as u8,
            cycle_bit: raw.spec_cycle_bit(),
        }
    }

    /// The block that holds the fields.
    pub open spec fn spec_raw(self) -> Trb {
        Trb {
            w0: (self.port_id as u32) << 24,
            w1: 0,
            w2: (self.completion_code as u32) << 24,
            w3: 0x8800 | (if self.cycle_bit {
                1u32
            } else {
                0u32
            }),
        }
    }
}

/// An event as the event loop sees it. The three kinds that the engine acts on are read
/// out into fields; the others keep their block.
#[derive(Copy, Clone, Debug, PartialEq, Eq, Structural, Hash)]
pub enum Event {
    TransferEvent(TransferEvent),
    CommandCompletion(CommandCompletion),
    PortStatusChange(PortStatusChange),
    BandwidthRequest(Trb),
    Doorbell(Trb),
    HostController(Trb),
    DeviceNotification(Trb),
    MfindexWrap(Trb),
}

impl Event {
    /// The kind of the event.
    pub open spec fn spec_kind(self) -> EventKind {
        match self {
            Event::TransferEvent(_) => EventKind::TransferEvent,
            Event::CommandCompletion(_) => EventKind::CommandCompletion,
            Event::PortStatusChange(_) => EventKind::PortStatusChange,
            Event::BandwidthRequest(_) => EventKind::BandwidthRequest,
            Event::Doorbell(_) => EventKind::Doorbell,
            Event::HostController(_) => EventKind::HostController,
            Event::DeviceNotification(_) => EventKind::DeviceNotification,
            Event::MfindexWrap(_) => EventKind::MfindexWrap,
        }
    }

    /// The kind of the event.
    #[verifier::when_used_as_spec(spec_kind)]
    pub fn kind(self) -> (k: EventKind)
        ensures
            k == self.spec_kind(),
    {
        match self {
            Event::TransferEvent(_) => EventKind::TransferEvent,
            Event::CommandCompletion(_) => EventKind::CommandCompletion,
            Event::PortStatusChange(_) => EventKind::PortStatusChange,
            Event::BandwidthRequest(_) => EventKind::BandwidthRequest,
            Event::Doorbell(_) => EventKind::Doorbell,
            Event::HostController(_) => EventKind::HostController,
            Event::DeviceNotification(_) => EventKind::DeviceNotification,
            Event::MfindexWrap(_) => EventKind::MfindexWrap,
        }
    }

    /// The event could have come out of a block: fields fit their bits, and a carried
    /// block is a valid block of the event's kind.
    pub open spec fn wf(self) -> bool {
        match self {
            Event::TransferEvent(e) => e.wf(),
            Event::CommandCompletion(e) => e.wf(),
            Event::PortStatusChange(_) => true,
            Event::BandwidthRequest(raw) => EventKind::BandwidthRequest.accepts(raw),
            Event::Doorbell(raw) => EventKind::Doorbell.accepts(raw),
            Event::HostController(raw) => EventKind::HostController.accepts(raw),
            Event::DeviceNotification(raw) => EventKind::DeviceNotification.accepts(raw),
            Event::MfindexWrap(raw) => EventKind::MfindexWrap.accepts(raw),
        }
    }

    /// The block that the event is written as.
    pub open spec fn spec_raw(self) -> Trb {
        match self {
            Event::TransferEvent(e) => e.spec_raw(),
            Event::CommandCompletion(e) => e.spec_raw(),
            Event::PortStatusChange(e) => e.spec_raw(),
            Event::BandwidthRequest(raw) => raw,
            Event::Doorbell(raw) => raw,
            Event::HostController(raw) => raw,
            Event::DeviceNotification(raw) => raw,
            Event::MfindexWrap(raw) => raw,
        }
    }

    /// The event that a block of a given kind holds.
    pub open spec fn of_raw(kind: EventKind, raw: Trb) -> Event {
        match kind {
            EventKind::TransferEvent => Event::TransferEvent(TransferEvent::of_raw(raw)),
            EventKind::CommandCompletion => Event::CommandCompletion(
                CommandCompletion::of_raw(raw),
            ),
            EventKind::PortStatusChange => Event::PortStatusChange(PortStatusChange::of_raw(raw)),
            EventKind::BandwidthRequest => Event::BandwidthRequest(raw),
            EventKind::Doorbell => Event::Doorbell(raw),
            EventKind::HostController => Event::HostController(raw),
            EventKind::DeviceNotification => Event::DeviceNotification(raw),
            EventKind::MfindexWrap => Event::MfindexWrap(raw),
        }
    }

    /// The event that a block holds, if the block is a valid event block.
    pub open spec fn spec_parse(raw: Trb) -> Option<Event> {
        match spec_event_kind(raw) {
            Some(kind) => Some(Event::of_raw(kind, raw)),
            None => None,
        }
    }

    pub open spec fn spec_cycle_bit(self) -> bool {
        match self {
            Event::TransferEvent(e) => e.cycle_bit,
            Event::CommandCompletion(e) => e.cycle_bit,
            Event::PortStatusChange(e) => e.cycle_bit,
            Event::BandwidthRequest(raw) => raw.spec_cycle_bit(),
            Event::Doorbell(raw) => raw.spec_cycle_bit(),
            Event::HostController(raw) => raw.spec_cycle_bit(),
            Event::DeviceNotification(raw) => raw.spec_cycle_bit(),
            Event::MfindexWrap(raw) => raw.spec_cycle_bit(),
        }
    }

    /// The cycle bit that the event was written with.
    #[verifier::when_used_as_spec(spec_cycle_bit)]
    pub fn cycle_bit(self) -> (c: bool)
        ensures
            c == self.spec_cycle_bit(),
    {
        match self {
            Event::TransferEvent(e) => e.cycle_bit,
            Event::CommandCompletion(e) => e.cycle_bit,
            Event::PortStatusChange(e) => e.cycle_bit,
            Event::BandwidthRequest(raw) => raw.cycle_bit(),
            Event::Doorbell(raw) => raw.cycle_bit(),
            Event::HostController(raw) => raw.cycle_bit(),
            Event::DeviceNotification(raw) => raw.cycle_bit(),
            Event::MfindexWrap(raw) => raw.cycle_bit(),
        }
    }

    /// Reads a block as an event. Returns `None` exactly for a block that is no valid
    /// event block. An event that comes out is well formed, keeps the block's cycle
    /// bit, and is written back as the very block it came from.
    pub fn parse(raw: Trb) -> (r: Option<Event>)
        ensures
            r == Event::spec_parse(raw),
            r.is_some() <==> spec_event_kind(raw).is_some(),
            r matches Some(e) ==> {
                &&& e.wf()
                &&& e.spec_raw() == raw
                &&& e.spec_kind() == spec_event_kind(raw).unwrap()
                &&& e.spec_cycle_bit() == raw.spec_cycle_bit()
            },
    {
        let kind = event_kind(raw);
        match kind {
            None => None,
            Some(k) => {
                proof {
                    lemma_of_raw_round_trip(k, raw);
                }
                match k {
                    EventKind::TransferEvent => Some(
                        Event::TransferEvent(
                            TransferEvent {
                                trb_pointer: raw.pointer(),
                                trb_transfer_length: raw.w2 & 0x00ff_ffff,
                                completion_code: (raw.w2 >> 24) as u8,
                                event_data: raw.w3 & 4 == 4,
                                endpoint_id: ((raw.w3 >> 16) & 0x1f) as u8,
                                slot_id: (raw.w3 >> 24) as u8,
                                cycle_bit: raw.cycle_bit(),
                            },
                        ),
                    ),
                    EventKind::CommandCompletion => Some(
                        Event::CommandCompletion(
                            CommandCompletion {
                                command_trb_pointer: raw.pointer(),
                                command_completion_parameter: raw.w2 & 0x00ff_ffff,
                                completion_code: (raw.w2 >> 24) as u8,
                                vf_id: ((raw.w3 >> 16) & 0xff) as u8,
                                slot_id: (raw.w3 >> 24) as u8,
                                cycle_bit: raw.cycle_bit(),
                            },
                        ),
                    ),
                    EventKind::PortStatusChange => Some(
                        Event::PortStatusChange(
                            PortStatusChange {
                                port_id: (raw.w0 >> 24) as u8,
                                completion_code: (raw.w2 >> 24) as u8,
                                cycle_bit: raw.cycle_bit(),
                            },
                        ),
                    ),
                    EventKind::BandwidthRequest => Some(Event::BandwidthRequest(raw)),
                    EventKind::Doorbell => Some(Event::Doorbell(raw)),
                    EventKind::HostController => Some(Event::HostController(raw)),
                    EventKind::DeviceNotification => Some(Event::DeviceNotification(raw)),
                    EventKind::MfindexWrap => Some(Event::MfindexWrap(raw)),
                }
            },
        }
    }

    /// Writes the event as a block.
    pub fn into_raw(self) -> (t: Trb)
        ensures
            t == self.spec_raw(),
    {
        match self {
            Event::TransferEvent(e) => {
                let c: u32 = if e.cycle_bit {
                    1
                } else {
                    0
                };
                let d: u32 = if e.event_data {
                    4
                } else {
                    0
                };
                Trb {
                    w0: (e.trb_pointer & 0xffff_ffff) as u32,
                    w1: (e.trb_pointer >> 32) as u32,
                    w2: e.trb_transfer_length | ((e.completion_code as u32) << 24),
                    w3: 0x8000 | c | d | ((e.endpoint_id as u32) << 16) | ((e.slot_id as u32)
                        << 24),
                }
            },
            Event::CommandCompletion(e) => {
                let c: u32 = if e.cycle_bit {
                    1
                } else {
                    0
                };
                Trb {
                    w0: (e.command_trb_pointer & 0xffff_ffff) as u32,
                    w1: (e.command_trb_pointer >> 32) as u32,
                    w2: e.command_completion_parameter | ((e.completion_code as u32) << 24),
                    w3: 0x8400 | c | ((e.vf_id as u32) << 16) | ((e.slot_id as u32) << 24),
                }
            },
            Event::PortStatusChange(e) => {
                let c: u32 = if e.cycle_bit {
                    1
                } else {
                    0
                };
                Trb {
                    w0: (e.port_id as u32) << 24,
                    w1: 0,
                    w2: (e.completion_code as u32) << 24,
                    w3: 0x8800 | c,
                }
            },
            Event::BandwidthRequest(raw) => raw,
            Event::Doorbell(raw) => raw,
            Event::HostController(raw) => raw,
            Event::DeviceNotification(raw) => raw,
            Event::MfindexWrap(raw) => raw,
        }
    }
}

/// Reading a valid event block and writing the event back gives the block back, bit
/// for bit; and what was read is well formed.
pub proof fn lemma_of_raw_round_trip(kind: EventKind, raw: Trb)
    requires
        kind.accepts(raw),
    ensures
        Event::of_raw(kind, raw).spec_raw() == raw,
        Event::of_raw(kind, raw).wf(),
        Event::of_raw(kind, raw).spec_cycle_bit() == raw.spec_cycle_bit(),
        spec_event_kind(raw) == Some(kind),
{
    let w0 = raw.w0;
    let w1 = raw.w1;
    let w2 = raw.w2;
    let w3 = raw.w3;
    lemma_join_split(w0, w1);
    lemma_kinds_disjoint(kind, raw);
    assert((w2 & 0x00ff_ffff) | ((((w2 >> 24) as u8) as u32) << 24) == w2 && (w2 & 0x00ff_ffff)
        <= 0x00ff_ffff) by (bit_vector);
    match kind {
        EventKind::TransferEvent => {
            assert(0x8000 | (if w3 & 1 == 1 {
                1u32
            } else {
                0u32
            }) | (if w3 & 4 == 4 {
                4u32
            } else {
                0u32
            }) | (((((w3 >> 16) & 0x1f) as u8) as u32) << 16) | ((((w3 >> 24) as u8) as u32)
                << 24) == w3 && (((w3 >> 16) & 0x1f) as u8) <= 0x1f) by (bit_vector)
                requires
                    (w3 >> 10) & 0x3f == 32,
                    w3 & 0x00e0_03fa == 0,
            ;
        },
        EventKind::CommandCompletion => {
            assert(0x8400 | (if w3 & 1 == 1 {
                1u32
            } else {
                0u32
            }) | (((((w3 >> 16) & 0xff) as u8) as u32) << 16) | ((((w3 >> 24) as u8) as u32)
                << 24) == w3) by (bit_vector)
                requires
                    (w3 >> 10) & 0x3f == 33,
                    w3 & 0x3fe == 0,
            ;
            assert((((w1 as u64) << 32) | (w0 as u64)) & 0xf == 0) by (bit_vector)
                requires
                    w0 & 0xf == 0,
            ;
        },
        EventKind::PortStatusChange => {
            assert(0x8800 | (if w3 & 1 == 1 {
                1u32
            } else {
                0u32
            }) == w3 && (((w0 >> 24) as u8) as u32) << 24 == w0 && w1 == 0 && ((((w2 >> 24) as u8)
                as u32) << 24) == w2) by (bit_vector)
                requires
                    (w3 >> 10) & 0x3f == 34,
                    w3 & 0xffff_03fe == 0,
                    w0 & 0x00ff_ffff == 0,
                    w1 & 0xffff_ffff == 0,
                    w2 & 0x00ff_ffff == 0,
            ;
        },
        _ => {},
    }
}

/// A block is a valid block of at most one kind.
pub proof fn lemma_kinds_disjoint(kind: EventKind, raw: Trb)
    requires
        kind.accepts(raw),
    ensures
        spec_event_kind(raw) == Some(kind),
{
}

} // verus!
