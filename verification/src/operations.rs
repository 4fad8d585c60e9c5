//! The vocabulary of requests that drivers hand to the controller.

use vstd::prelude::*;

verus! {

/// The direction of a data transfer, seen from the host.
#[derive(Copy, Clone, Debug, PartialEq, Eq, Structural, Hash)]
pub enum Direction {
    /// Host to device.
    Out,
    /// Device to host.
    In,
}

impl Direction {
    /// The bit that stands for the direction on the wire: 0 for out, 1 for in.
    pub open spec fn spec_bit(self) -> bool {
        self == Direction::In
    }

    /// The bit that stands for the direction on the wire: 0 for out, 1 for in.
    #[verifier::when_used_as_spec(spec_bit)]
    pub fn bit(self) -> (b: bool)
        ensures
            b == self.spec_bit(),
    {
        match self {
            Direction::Out => false,
            Direction::In => true,
        }
    }
}

/// The kind of a control request, bits 5 and 6 of `bmRequestType`.
#[derive(Copy, Clone, Debug, PartialEq, Eq, Structural, Hash)]
pub enum DataTransferType {
    /// Defined by the USB standard.
    Standard,
    /// Defined by a device class.
    Class,
    /// Defined by the vendor.
    Vendor,
    /// Reserved.
    Reserved,
}

impl DataTransferType {
    /// The two-bit code of the kind.
    pub open spec fn spec_code(self) -> u8 {
        match self {
            DataTransferType::Standard => 0,
            DataTransferType::Class => 1,
            DataTransferType::Vendor => 2,
            DataTransferType::Reserved => 3,
        }
    }

    /// The two-bit code of the kind.
    #[verifier::when_used_as_spec(spec_code)]
    pub fn code(self) -> (c: u8)
        ensures
            c == self.spec_code(),
    {
        match self {
            DataTransferType::Standard => 0,
            DataTransferType::Class => 1,
            DataTransferType::Vendor => 2,
            DataTransferType::Reserved => 3,
        }
    }
}

/// Whom a control request addresses, bits 0 to 4 of `bmRequestType`.
#[derive(Copy, Clone, Debug, PartialEq, Eq, Structural, Hash)]
pub enum Recipient {
    /// The device as a whole.
    Device,
    /// One interface.
    Interface,
    /// One endpoint.
    Endpoint,
    /// Something else.
    Other,
}

impl Recipient {
    /// The code of the recipient.
    pub open spec fn spec_code(self) -> u8 {
        match self {
            Recipient::Device => 0,
            Recipient::Interface => 1,
            Recipient::Endpoint => 2,
            Recipient::Other => 3,
        }
    }

    /// The code of the recipient.
    #[verifier::when_used_as_spec(spec_code)]
    pub fn code(self) -> (c: u8)
        ensures
            c == self.spec_code(),
    {
        match self {
            Recipient::Device => 0,
            Recipient::Interface => 1,
            Recipient::Endpoint => 2,
            Recipient::Other => 3,
        }
    }
}

/// The `bmRequestType` byte of a setup packet, field by field.
#[derive(Copy, Clone, Debug, PartialEq, Eq, Structural, Hash)]
pub struct BmRequestType {
    pub direction: Direction,
    pub transfer_type: DataTransferType,
    pub recipient: Recipient,
}

impl BmRequestType {
    pub fn new(direction: Direction, transfer_type: DataTransferType, recipient: Recipient) -> (r:
        Self)
        ensures
            r == (BmRequestType { direction, transfer_type, recipient }),
    {
        BmRequestType { direction, transfer_type, recipient }
    }

    /// The byte as it goes into the setup packet: the direction in bit 7, the kind in
    /// bits 5 and 6, the recipient below.
    pub open spec fn spec_byte(self) -> u8 {
        ((if self.direction.spec_bit() {
            128int
        } else {
            0int
        }) + 32 * self.transfer_type.spec_code() + self.recipient.spec_code()) as u8
    }

    /// The byte as it goes into the setup packet.
    #[verifier::when_used_as_spec(spec_byte)]
    pub fn byte(self) -> (b: u8)
        ensures
            b == self.spec_byte(),
    {
        let d: u8 = if self.direction.bit() {
            128
        } else {
            0
        };
        d + 32 * self.transfer_type.code() + self.recipient.code()
    }
}

/// The standard requests that the stack itself issues.
#[derive(Copy, Clone, Debug, PartialEq, Eq, Structural, Hash)]
pub enum StandardRequest {
    GetStatus,
    ClearFeature,
    SetFeature,
    SetAddress,
    GetDescriptor,
    SetDescriptor,
    GetConfiguration,
    SetConfiguration,
    GetInterface,
    SetInterface,
    SynchFrame,
}

impl StandardRequest {
    /// The `bRequest` code of the request.
    pub open spec fn spec_code(self) -> u8 {
        match self {
            StandardRequest::GetStatus => 0,
            StandardRequest::ClearFeature => 1,
            StandardRequest::SetFeature => 3,
            StandardRequest::SetAddress => 5,
            StandardRequest::GetDescriptor => 6,
            StandardRequest::SetDescriptor => 7,
            StandardRequest::GetConfiguration => 8,
            StandardRequest::SetConfiguration => 9,
            StandardRequest::GetInterface => 10,
            StandardRequest::SetInterface => 11,
            StandardRequest::SynchFrame => 12,
        }
    }

    /// The `bRequest` code of the request.
    #[verifier::when_used_as_spec(spec_code)]
    pub fn code(self) -> (c: u8)
        ensures
            c == self.spec_code(),
    {
        match self {
            StandardRequest::GetStatus => 0,
            StandardRequest::ClearFeature => 1,
            StandardRequest::SetFeature => 3,
            StandardRequest::SetAddress => 5,
            StandardRequest::GetDescriptor => 6,
            StandardRequest::SetDescriptor => 7,
            StandardRequest::GetConfiguration => 8,
            StandardRequest::SetConfiguration => 9,
            StandardRequest::GetInterface => 10,
            StandardRequest::SetInterface => 11,
            StandardRequest::SynchFrame => 12,
        }
    }
}

/// The descriptor type code of a device descriptor.
pub const DESCRIPTOR_TYPE_DEVICE: u8 = 1;

/// The descriptor type code of a configuration descriptor.
pub const DESCRIPTOR_TYPE_CONFIGURATION: u8 = 2;

/// The `wValue` of a `GetDescriptor` request: the descriptor type in the high byte, the
/// descriptor index in the low byte.
pub open spec fn spec_descriptor_selector(descriptor_type: u8, index: u8) -> u16 {
    (256 * descriptor_type + index) as u16
}

/// The `wValue` of a `GetDescriptor` request.
#[verifier::when_used_as_spec(spec_descriptor_selector)]
pub fn construct_control_transfer_type(descriptor_type: u8, index: u8) -> (v: u16)
    ensures
        v == spec_descriptor_selector(descriptor_type, index),
{
    let t: u16 = descriptor_type as u16;
    let i: u16 = index as u16;
    256 * t + i
}

/// A control transfer: the setup packet, the optional data buffer (physical address and
/// length), and whether the status stage runs towards the host.
#[derive(Copy, Clone, Debug)]
pub struct ControlTransfer {
    pub request_type: BmRequestType,
    pub request: u8,
    pub index: u16,
    pub value: u16,
    pub data: Option<(usize, usize)>,
    pub response: bool,
}

/// An interrupt transfer on one endpoint into one buffer.
#[derive(Copy, Clone, Debug)]
pub struct InterruptTransfer {
    /// The device context index of the endpoint.
    pub endpoint_id: usize,
    /// Physical address and length of the buffer.
    pub buffer_addr_len: (usize, usize),
    pub short_packet_ok: bool,
}

/// A bulk transfer. Reserved: the controller does not post it yet.
#[derive(Copy, Clone, Debug)]
pub struct BulkTransfer {
    pub endpoint_id: usize,
    pub buffer_addr_len: (usize, usize),
}

/// An isochronous transfer. Reserved: the controller does not post it yet.
#[derive(Copy, Clone, Debug)]
pub struct IsochTransfer {
    pub endpoint_id: usize,
    pub buffer_addr_len: (usize, usize),
}

/// Where a device hangs: the root hub port it is reached through, and the route string
/// below that port.
#[derive(Copy, Clone, Debug, PartialEq, Eq, Structural, Hash)]
pub struct TopologyRoute {
    /// Root hub port number, counted from 1.
    pub port_number: u8,
    /// Route through hubs below the root port; 0 for a device directly on the root hub.
    pub route_string: u32,
}

impl TopologyRoute {
    /// A route names a real port: ports are counted from 1.
    pub open spec fn wf(self) -> bool {
        self.port_number >= 1
    }

    /// The route of the device on root hub port `port_idx + 1`.
    pub fn on_root_port(port_idx: u8) -> (r: Self)
        requires
            port_idx < 255,
        ensures
            r.wf(),
            r.port_number == port_idx + 1,
            r.route_string == 0,
            r.spec_port_idx() == port_idx,
    {
        TopologyRoute { port_number: port_idx + 1, route_string: 0 }
    }

    pub open spec fn spec_port_idx(self) -> u8 {
        (self.port_number - 1) as u8
    }

    /// Index of the root hub port in the port register set, counted from 0.
    #[verifier::when_used_as_spec(spec_port_idx)]
    pub fn port_idx(self) -> (i: u8)
        requires
            self.wf(),
        ensures
            i == self.spec_port_idx(),
            i + 1 == self.port_number,
    {
        self.port_number - 1
    }
}

/// One endpoint of an interface, as its descriptor gives it.
#[derive(Copy, Clone, Debug, PartialEq, Eq, Structural)]
pub struct EndpointInfo {
    /// `bEndpointAddress`: the endpoint number in bits 0 to 3, the direction in bit 7.
    pub endpoint_address: u8,
    /// `bmAttributes`: the transfer type in bits 0 and 1.
    pub attributes: u8,
    pub max_packet_size: u16,
    pub interval: u8,
}

/// The endpoint types as the controller's endpoint context numbers them.
#[derive(Copy, Clone, Debug, PartialEq, Eq, Structural, Hash)]
pub enum EndpointType {
    NotValid,
    IsochOut,
    BulkOut,
    InterruptOut,
    Control,
    IsochIn,
    BulkIn,
    InterruptIn,
}

impl EndpointType {
    /// The three-bit code of the type in an endpoint context.
    pub open spec fn spec_code(self) -> u8 {
        match self {
            EndpointType::NotValid => 0,
            EndpointType::IsochOut => 1,
            EndpointType::BulkOut => 2,
            EndpointType::InterruptOut => 3,
            EndpointType::Control => 4,
            EndpointType::IsochIn => 5,
            EndpointType::BulkIn => 6,
            EndpointType::InterruptIn => 7,
        }
    }

    /// The three-bit code of the type in an endpoint context.
    #[verifier::when_used_as_spec(spec_code)]
    pub fn code(self) -> (c: u8)
        ensures
            c == self.spec_code(),
    {
        match self {
            EndpointType::NotValid => 0,
            EndpointType::IsochOut => 1,
            EndpointType::BulkOut => 2,
            EndpointType::InterruptOut => 3,
            EndpointType::Control => 4,
            EndpointType::IsochIn => 5,
            EndpointType::BulkIn => 6,
            EndpointType::InterruptIn => 7,
        }
    }

    /// The type that a code stands for.
    pub open spec fn spec_from_code(c: u8) -> EndpointType {
        if c == 1 {
            EndpointType::IsochOut
        } else if c == 2 {
            EndpointType::BulkOut
        } else if c == 3 {
            EndpointType::InterruptOut
        } else if c == 4 {
            EndpointType::Control
        } else if c == 5 {
            EndpointType::IsochIn
        } else if c == 6 {
            EndpointType::BulkIn
        } else if c == 7 {
            EndpointType::InterruptIn
        } else {
            EndpointType::NotValid
        }
    }
}

impl EndpointInfo {
    /// The endpoint number: bits 0 to 3 of the endpoint address.
    pub open spec fn number(self) -> int {
        self.endpoint_address as int % 16
    }

    /// Whether the endpoint sends to the host: bit 7 of the endpoint address.
    pub open spec fn is_in(self) -> bool {
        self.endpoint_address >= 128
    }

    /// The device context index of the endpoint: twice the endpoint number, plus one
    /// for an endpoint that sends to the host.
    pub open spec fn spec_dci(self) -> u8 {
        (2 * self.number() + if self.is_in() {
            1int
        } else {
            0int
        }) as u8
    }

    /// The device context index of the endpoint, which is also the doorbell target that
    /// starts its ring.
    #[verifier::when_used_as_spec(spec_dci)]
    pub fn dci(self) -> (d: u8)
        ensures
            d == self.spec_dci(),
            d <= 31,
    {
        2 * (self.endpoint_address % 16) + self.endpoint_address / 128
    }

    /// The endpoint type for the controller. Attributes of zero mean the control
    /// endpoint; otherwise the transfer type in bits 0 and 1 of the attributes is
    /// counted from `NotValid` for an endpoint that receives and from `Control` for one
    /// that sends to the host.
    pub open spec fn spec_endpoint_type(self) -> EndpointType {
        if self.attributes == 0 {
            EndpointType::Control
        } else {
            EndpointType::spec_from_code(
                (self.attributes as int % 4 + if self.is_in() {
                    4int
                } else {
                    0int
                }) as u8,
            )
        }
    }

    /// The endpoint type for the controller.
    #[verifier::when_used_as_spec(spec_endpoint_type)]
    pub fn endpoint_type(self) -> (t: EndpointType)
        ensures
            t == self.spec_endpoint_type(),
    {
        if self.attributes == 0 {
            return EndpointType::Control;
        }
        let base: u8 = if self.endpoint_address >= 128 {
            4
        } else {
            0
        };
        let c: u8 = self.attributes % 4 + base;
        match c {
            1 => EndpointType::IsochOut,
            2 => EndpointType::BulkOut,
            3 => EndpointType::InterruptOut,
            4 => EndpointType::Control,
            5 => EndpointType::IsochIn,
            6 => EndpointType::BulkIn,
            7 => EndpointType::InterruptIn,
            _ => EndpointType::NotValid,
        }
    }
}

/// The largest device context index among `endpoints`, and at least 1: the number of
/// context entries that a slot with these endpoints needs.
pub open spec fn max_dci(endpoints: Seq<EndpointInfo>) -> u8
    decreases endpoints.len(),
{
    if endpoints.len() == 0 {
        1
    } else {
        let rest = max_dci(endpoints.drop_last());
        let last = endpoints.last().spec_dci();
        if last > rest {
            last
        } else {
            rest
        }
    }
}

/// One alternate setting of an interface with its endpoints.
#[derive(Clone, Debug)]
pub struct InterfaceInfo {
    pub interface_number: u8,
    pub alternate_setting: u8,
    pub endpoints: Vec<EndpointInfo>,
}

impl InterfaceInfo {
    /// The largest device context index among the endpoints of the interface, and at
    /// least 1.
    pub fn max_dci(&self) -> (m: u8)
        ensures
            m == max_dci(self.endpoints@),
            1 <= m <= 31,
            forall|k: int|
                0 <= k < self.endpoints@.len() ==> (#[trigger] self.endpoints@[k]).spec_dci() <= m,
    {
        let n: usize = self.endpoints.len();
        let mut m: u8 = 1;
        let mut k: usize = 0;
        assert(self.endpoints@.take(0) =~= Seq::<EndpointInfo>::empty());
        while k < n
            invariant
                k <= n,
                n == self.endpoints@.len(),
                m == max_dci(self.endpoints@.take(k as int)),
                1 <= m <= 31,
                forall|j: int| 0 <= j < k ==> (#[trigger] self.endpoints@[j]).spec_dci() <= m,
            decreases n - k,
        {
            let d: u8 = self.endpoints[k].dci();
            assert(self.endpoints@.take(k + 1).drop_last() =~= self.endpoints@.take(k as int));
            if d > m {
                m = d;
            }
            k = k + 1;
        }
        assert(self.endpoints@.take(n as int) =~= self.endpoints@);
        m
    }
}

/// Identifies the task that waits for a result; the runtime maps it to its channel.
pub type CallbackValue = u64;

/// Identifies a subscriber that wants every result of a repeated transfer.
pub type KeepCallbackValue = u64;

/// Identifies a repeated transfer.
pub type ChannelNumber = u16;

/// A held permit of a device's configuration semaphore. Whoever holds the value holds
/// the permit; the runtime releases it when told to.
#[derive(Copy, Clone, Debug, PartialEq, Eq, Structural)]
pub struct ConfigureSemaphore(pub u64);

/// What to do beyond posting the operation once.
#[derive(Copy, Clone, Debug, PartialEq, Eq, Structural)]
pub enum ExtraAction {
    /// Nothing.
    NOOP,
    /// Post the transfer again each time it completes.
    KeepFill(ChannelNumber),
}

/// What to do when the operation completes.
#[derive(Copy, Clone, Debug, PartialEq, Eq, Structural)]
pub enum CompleteAction {
    /// Nothing.
    NOOP,
    /// Hand the result to the one waiter.
    SimpleResponse(CallbackValue),
    /// Hand the result to a subscriber.
    KeepResponse(KeepCallbackValue),
    /// Release the configuration semaphore.
    DropSem(ConfigureSemaphore),
}

/// The operation that a request asks for.
#[derive(Clone, Debug)]
pub enum RequestedOperation {
    Control(ControlTransfer),
    Bulk(BulkTransfer),
    Interrupt(InterruptTransfer),
    Isoch(IsochTransfer),
    /// Enumerate the device on the given route.
    InitializeDevice(TopologyRoute),
    /// Select a configuration and set up the endpoints of one interface of it.
    EnableFunction(u8, InterfaceInfo),
    NOOP,
}

/// A request as it travels from a device or driver to the controller.
#[derive(Clone, Debug)]
pub struct USBRequest {
    pub extra_action: ExtraAction,
    pub operation: RequestedOperation,
    pub complete_action: CompleteAction,
}

impl USBRequest {
    /// A request that does nothing.
    pub fn new() -> (r: Self)
        ensures
            r.extra_action == ExtraAction::NOOP,
            r.operation is NOOP,
            r.complete_action == CompleteAction::NOOP,
    {
        USBRequest {
            extra_action: ExtraAction::NOOP,
            operation: RequestedOperation::NOOP,
            complete_action: CompleteAction::NOOP,
        }
    }

    pub open spec fn spec_is_control(&self) -> bool {
        self.operation is Control
    }

    /// Whether the request is a control transfer.
    #[verifier::when_used_as_spec(spec_is_control)]
    pub fn is_control(&self) -> (b: bool)
        ensures
            b == self.spec_is_control(),
    {
        match self.operation {
            RequestedOperation::Control(_) => true,
            _ => false,
        }
    }
}

/// The outcome that the controller reports for a command or a transfer.
#[derive(Copy, Clone, Debug, PartialEq, Eq, Structural, Hash)]
pub enum RequestResult {
    /// The completion code field was never written by the producer of the event.
    Invalid,
    /// The operation completed successfully.
    Success,
    /// The controller could not keep up with the data stream (overrun or underrun).
    DataBufferError,
    /// Babbling was detected during the transaction.
    BabbleDetectedError,
    /// The device gave no valid response.
    UsbTransactionError,
    /// A TRB parameter was out of range.
    TrbError,
    /// The endpoint stalled.
    StallError,
    /// The controller ran out of resources for the command.
    ResourceError,
    /// The bandwidth for a periodic endpoint could not be allocated.
    BandwidthError,
    /// Every device slot is already in use.
    NoSlotsAvailableError,
    /// A stream context held an invalid type.
    InvalidStreamTypeError,
    /// The command addressed a slot that is disabled.
    SlotNotEnabledError,
    /// The doorbell addressed an endpoint that is disabled.
    EndpointNotEnabledError,
    /// Fewer bytes arrived than the transfer asked for.
    ShortPacket,
    /// An isochronous endpoint found its ring empty when it had to transmit.
    RingUnderrun,
    /// An isochronous endpoint found its ring empty when it had to receive.
    RingOverrun,
    /// The event ring of the target virtual function is full.
    VfEventRingFullError,
    /// A context parameter was invalid.
    ParameterError,
    /// An isochronous transfer exceeded the endpoint's bandwidth.
    BandwidthOverrunError,
    /// The command would leave from a context state that does not allow it.
    ContextStateError,
    /// No ping response arrived in time for a periodic transfer.
    NoPingResponseError,
    /// The event ring is full.
    EventRingFullError,
    /// The device cannot be operated by this controller.
    IncompatibleDeviceError,
    /// An isochronous endpoint was not serviced within its interval.
    MissedServiceError,
    /// The command ring was stopped.
    CommandRingStopped,
    /// The command was aborted.
    CommandAborted,
    /// The transfer was ended by a stop-endpoint command.
    Stopped,
    /// The transfer was stopped and the reported length is invalid.
    StoppedLengthInvalid,
    /// The transfer was stopped after a short packet.
    StoppedShortPacket,
    /// The proposed exit latency is too large for the periodic endpoints.
    MaxExitLatencyTooLargeError,
    /// The device sent more than the isochronous buffer can hold.
    IsochBufferOverrun,
    /// The controller lost an event internally.
    EventLostError,
    /// An error that no other code describes.
    UndefinedError,
    /// The stream id was invalid.
    InvalidStreamIdError,
    /// The bandwidth of a secondary domain could not be allocated.
    SecondaryBandwidthError,
    /// A split transaction failed.
    SplitTransactionError,
}

impl RequestResult {
    /// The completion code that the controller writes for this outcome.
    pub open spec fn spec_code(self) -> u8 {
        match self {
            RequestResult::Invalid => 0,
            RequestResult::Success => 1,
            RequestResult::DataBufferError => 2,
            RequestResult::BabbleDetectedError => 3,
            RequestResult::UsbTransactionError => 4,
            RequestResult::TrbError => 5,
            RequestResult::StallError => 6,
            RequestResult::ResourceError => 7,
            RequestResult::BandwidthError => 8,
            RequestResult::NoSlotsAvailableError => 9,
            RequestResult::InvalidStreamTypeError => 10,
            RequestResult::SlotNotEnabledError => 11,
            RequestResult::EndpointNotEnabledError => 12,
            RequestResult::ShortPacket => 13,
            RequestResult::RingUnderrun => 14,
            RequestResult::RingOverrun => 15,
            RequestResult::VfEventRingFullError => 16,
            RequestResult::ParameterError => 17,
            RequestResult::BandwidthOverrunError => 18,
            RequestResult::ContextStateError => 19,
            RequestResult::NoPingResponseError => 20,
            RequestResult::EventRingFullError => 21,
            RequestResult::IncompatibleDeviceError => 22,
            RequestResult::MissedServiceError => 23,
            RequestResult::CommandRingStopped => 24,
            RequestResult::CommandAborted => 25,
            RequestResult::Stopped => 26,
            RequestResult::StoppedLengthInvalid => 27,
            RequestResult::StoppedShortPacket => 28,
            RequestResult::MaxExitLatencyTooLargeError => 29,
            RequestResult::IsochBufferOverrun => 31,
            RequestResult::EventLostError => 32,
            RequestResult::UndefinedError => 33,
            RequestResult::InvalidStreamIdError => 34,
            RequestResult::SecondaryBandwidthError => 35,
            RequestResult::SplitTransactionError => 36,
        }
    }

    /// The completion code that the controller writes for this outcome.
    #[verifier::when_used_as_spec(spec_code)]
    pub fn code(self) -> (c: u8)
        ensures
            c == self.spec_code(),
            Self::spec_from_code(c) == Some(self),
    {
        match self {
            RequestResult::Invalid => 0,
            RequestResult::Success => 1,
            RequestResult::DataBufferError => 2,
            RequestResult::BabbleDetectedError => 3,
            RequestResult::UsbTransactionError => 4,
            RequestResult::TrbError => 5,
            RequestResult::StallError => 6,
            RequestResult::ResourceError => 7,
            RequestResult::BandwidthError => 8,
            RequestResult::NoSlotsAvailableError => 9,
            RequestResult::InvalidStreamTypeError => 10,
            RequestResult::SlotNotEnabledError => 11,
            RequestResult::EndpointNotEnabledError => 12,
            RequestResult::ShortPacket => 13,
            RequestResult::RingUnderrun => 14,
            RequestResult::RingOverrun => 15,
            RequestResult::VfEventRingFullError => 16,
            RequestResult::ParameterError => 17,
            RequestResult::BandwidthOverrunError => 18,
            RequestResult::ContextStateError => 19,
            RequestResult::NoPingResponseError => 20,
            RequestResult::EventRingFullError => 21,
            RequestResult::IncompatibleDeviceError => 22,
            RequestResult::MissedServiceError => 23,
            RequestResult::CommandRingStopped => 24,
            RequestResult::CommandAborted => 25,
            RequestResult::Stopped => 26,
            RequestResult::StoppedLengthInvalid => 27,
            RequestResult::StoppedShortPacket => 28,
            RequestResult::MaxExitLatencyTooLargeError => 29,
            RequestResult::IsochBufferOverrun => 31,
            RequestResult::EventLostError => 32,
            RequestResult::UndefinedError => 33,
            RequestResult::InvalidStreamIdError => 34,
            RequestResult::SecondaryBandwidthError => 35,
            RequestResult::SplitTransactionError => 36,
        }
    }

    /// The outcome that a completion code stands for, if the code is defined.
    pub open spec fn spec_from_code(c: u8) -> Option<RequestResult> {
        if c == 0 {
            Some(RequestResult::Invalid)
        } else if c == 1 {
            Some(RequestResult::Success)
        } else if c == 2 {
            Some(RequestResult::DataBufferError)
        } else if c == 3 {
            Some(RequestResult::BabbleDetectedError)
        } else if c == 4 {
            Some(RequestResult::UsbTransactionError)
        } else if c == 5 {
            Some(RequestResult::TrbError)
        } else if c == 6 {
            Some(RequestResult::StallError)
        } else if c == 7 {
            Some(RequestResult::ResourceError)
        } else if c == 8 {
            Some(RequestResult::BandwidthError)
        } else if c == 9 {
            Some(RequestResult::NoSlotsAvailableError)
        } else if c == 10 {
            Some(RequestResult::InvalidStreamTypeError)
        } else if c == 11 {
            Some(RequestResult::SlotNotEnabledError)
        } else if c == 12 {
            Some(RequestResult::EndpointNotEnabledError)
        } else if c == 13 {
            Some(RequestResult::ShortPacket)
        } else if c == 14 {
            Some(RequestResult::RingUnderrun)
        } else if c == 15 {
            Some(RequestResult::RingOverrun)
        } else if c == 16 {
            Some(RequestResult::VfEventRingFullError)
        } else if c == 17 {
            Some(RequestResult::ParameterError)
        } else if c == 18 {
            Some(RequestResult::BandwidthOverrunError)
        } else if c == 19 {
            Some(RequestResult::ContextStateError)
        } else if c == 20 {
            Some(RequestResult::NoPingResponseError)
        } else if c == 21 {
            Some(RequestResult::EventRingFullError)
        } else if c == 22 {
            Some(RequestResult::IncompatibleDeviceError)
        } else if c == 23 {
            Some(RequestResult::MissedServiceError)
        } else if c == 24 {
            Some(RequestResult::CommandRingStopped)
        } else if c == 25 {
            Some(RequestResult::CommandAborted)
        } else if c == 26 {
            Some(RequestResult::Stopped)
        } else if c == 27 {
            Some(RequestResult::StoppedLengthInvalid)
        } else if c == 28 {
            Some(RequestResult::StoppedShortPacket)
        } else if c == 29 {
            Some(RequestResult::MaxExitLatencyTooLargeError)
        } else if c == 31 {
            Some(RequestResult::IsochBufferOverrun)
        } else if c == 32 {
            Some(RequestResult::EventLostError)
        } else if c == 33 {
            Some(RequestResult::UndefinedError)
        } else if c == 34 {
            Some(RequestResult::InvalidStreamIdError)
        } else if c == 35 {
            Some(RequestResult::SecondaryBandwidthError)
        } else if c == 36 {
            Some(RequestResult::SplitTransactionError)
        } else {
            None
        }
    }

    /// Reads a completion code. Codes above 36, and the reserved code 30, have no outcome.
    pub fn from_code(c: u8) -> (r: Option<RequestResult>)
        ensures
            r == Self::spec_from_code(c),
            r.is_some() <==> (c <= 36 && c != 30),
            r matches Some(v) ==> v.spec_code() == c,
    {
        match c {
            0 => Some(RequestResult::Invalid),
            1 => Some(RequestResult::Success),
            2 => Some(RequestResult::DataBufferError),
            3 => Some(RequestResult::BabbleDetectedError),
            4 => Some(RequestResult::UsbTransactionError),
            5 => Some(RequestResult::TrbError),
            6 => Some(RequestResult::StallError),
            7 => Some(RequestResult::ResourceError),
            8 => Some(RequestResult::BandwidthError),
            9 => Some(RequestResult::NoSlotsAvailableError),
            10 => Some(RequestResult::InvalidStreamTypeError),
            11 => Some(RequestResult::SlotNotEnabledError),
            12 => Some(RequestResult::EndpointNotEnabledError),
            13 => Some(RequestResult::ShortPacket),
            14 => Some(RequestResult::RingUnderrun),
            15 => Some(RequestResult::RingOverrun),
            16 => Some(RequestResult::VfEventRingFullError),
            17 => Some(RequestResult::ParameterError),
            18 => Some(RequestResult::BandwidthOverrunError),
            19 => Some(RequestResult::ContextStateError),
            20 => Some(RequestResult::NoPingResponseError),
            21 => Some(RequestResult::EventRingFullError),
            22 => Some(RequestResult::IncompatibleDeviceError),
            23 => Some(RequestResult::MissedServiceError),
            24 => Some(RequestResult::CommandRingStopped),
            25 => Some(RequestResult::CommandAborted),
            26 => Some(RequestResult::Stopped),
            27 => Some(RequestResult::StoppedLengthInvalid),
            28 => Some(RequestResult::StoppedShortPacket),
            29 => Some(RequestResult::MaxExitLatencyTooLargeError),
            31 => Some(RequestResult::IsochBufferOverrun),
            32 => Some(RequestResult::EventLostError),
            33 => Some(RequestResult::UndefinedError),
            34 => Some(RequestResult::InvalidStreamIdError),
            35 => Some(RequestResult::SecondaryBandwidthError),
            36 => Some(RequestResult::SplitTransactionError),
            _ => None,
        }
    }

    /// Whether a data transfer with this outcome counts as done: only `Success` and
    /// `ShortPacket` do.
    pub open spec fn spec_is_transfer_success(self) -> bool {
        self == RequestResult::Success || self == RequestResult::ShortPacket
    }

    /// Whether a data transfer with this outcome counts as done.
    #[verifier::when_used_as_spec(spec_is_transfer_success)]
    pub fn is_transfer_success(self) -> (b: bool)
        ensures
            b == self.spec_is_transfer_success(),
    {
        match self {
            RequestResult::Success => true,
            RequestResult::ShortPacket => true,
            _ => false,
        }
    }
}
} // verus!
