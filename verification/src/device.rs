//! The device facade: what a driver sees of one physical device, and the requests that
//! the device itself issues to get enumerated.

use crate::operations::{
    construct_control_transfer_type, spec_descriptor_selector, BmRequestType, CallbackValue,
    CompleteAction, ConfigureSemaphore, ControlTransfer, DataTransferType, Direction,
    ExtraAction, Recipient, RequestedOperation, StandardRequest, TopologyRoute, USBRequest,
    DESCRIPTOR_TYPE_CONFIGURATION, DESCRIPTOR_TYPE_DEVICE,
};
use vstd::prelude::*;

verus! {

/// Where a device stands in its life.
#[derive(Copy, Clone, Debug, PartialEq, Eq, Structural, Hash)]
pub enum DeviceState {
    /// Found on a port, not yet addressed.
    Probed,
    /// Addressed: it has a slot.
    Assigned,
    /// A driver has configured it.
    Configured,
    /// About to go away.
    PreDrop,
}

/// What a device has to do before it may post a request.
#[derive(Copy, Clone, Debug, PartialEq, Eq, Structural, Hash)]
pub enum StatusCheck {
    /// Nothing: the request may be posted.
    Ready,
    /// The device must be enumerated first.
    NeedsAssign,
}

/// How far the enumeration of a device has come. Each stage but the first and the last
/// carries the slot that the enable-slot command gave the device; every later command
/// of the enumeration names that slot.
#[derive(Copy, Clone, Debug, PartialEq, Eq, Structural, Hash)]
pub enum EnumerationStage {
    /// No address-device command has been posted for the device.
    NotStarted,
    /// The address-device command is posted and has not completed.
    Addressing(u8),
    /// The address-device command has completed with `Success`.
    Addressed(u8),
    /// The first read of the device descriptor is posted and has not completed.
    ReadingPacketSize(u8),
    /// The first read of the device descriptor has completed with `Success`.
    PacketSizeRead(u8),
    /// The evaluate-context command is posted and has not completed.
    Evaluating(u8),
    /// The evaluate-context command has completed with `Success`.
    Done,
}

impl EnumerationStage {
    /// The slot that the enumeration runs on, while it runs.
    pub open spec fn spec_slot(self) -> Option<u8> {
        match self {
            EnumerationStage::Addressing(slot) => Some(slot),
            EnumerationStage::Addressed(slot) => Some(slot),
            EnumerationStage::ReadingPacketSize(slot) => Some(slot),
            EnumerationStage::PacketSizeRead(slot) => Some(slot),
            EnumerationStage::Evaluating(slot) => Some(slot),
            _ => None,
        }
    }

    /// The slot that the enumeration runs on, while it runs.
    #[verifier::when_used_as_spec(spec_slot)]
    pub fn slot(self) -> (r: Option<u8>)
        ensures
            r == self.spec_slot(),
    {
        match self {
            EnumerationStage::Addressing(slot) => Some(slot),
            EnumerationStage::Addressed(slot) => Some(slot),
            EnumerationStage::ReadingPacketSize(slot) => Some(slot),
            EnumerationStage::PacketSizeRead(slot) => Some(slot),
            EnumerationStage::Evaluating(slot) => Some(slot),
            _ => None,
        }
    }
}

/// One physical device.
#[derive(Copy, Clone, Debug, PartialEq, Eq, Structural)]
pub struct USBDevice {
    pub state: DeviceState,
    /// The slot that the controller gave the device; set once, when the address-device
    /// command for the device has succeeded.
    pub slot_id: Option<u8>,
    /// How far the enumeration of the device has come.
    pub enumeration: EnumerationStage,
    pub vendor_id: Option<u16>,
    pub product_id: Option<u16>,
    pub topology_path: TopologyRoute,
    pub current_config: u8,
    /// Whether the one permit of the configuration semaphore is free.
    pub configure_sem_free: bool,
    /// How many permits have been handed out so far; it names the next one.
    pub permits_issued: u64,
}

impl USBDevice {
    /// The record is consistent: the route names a real port.
    pub open spec fn wf(self) -> bool {
        self.topology_path.wf()
    }

    /// A device as it stands when a port probe finds it: probed, without a slot, its
    /// enumeration not started, on configuration 1, with its semaphore free.
    pub open spec fn spec_new(topology_path: TopologyRoute) -> USBDevice {
        USBDevice {
            state: DeviceState::Probed,
            slot_id: None,
            enumeration: EnumerationStage::NotStarted,
            vendor_id: None,
            product_id: None,
            topology_path,
            current_config: 1,
            configure_sem_free: true,
            permits_issued: 0,
        }
    }

    /// A device as it stands when a port probe finds it.
    pub fn new(topology_path: TopologyRoute) -> (d: USBDevice)
        ensures
            d == Self::spec_new(topology_path),
            topology_path.wf() ==> d.wf(),
    {
        USBDevice {
            state: DeviceState::Probed,
            slot_id: None,
            enumeration: EnumerationStage::NotStarted,
            vendor_id: None,
            product_id: None,
            topology_path,
            current_config: 1,
            configure_sem_free: true,
            permits_issued: 0,
        }
    }

    /// The permit that an acquire hands out: the next one, if the permit is free and can
    /// be named.
    pub open spec fn spec_acquire(self) -> Option<ConfigureSemaphore> {
        if self.configure_sem_free && self.permits_issued < u64::MAX {
            Some(ConfigureSemaphore(self.permits_issued))
        } else {
            None
        }
    }

    /// Takes the permit of the configuration semaphore if it is free. Returns `None`,
    /// with nothing changed, exactly when the permit is out (or no further permit can
    /// be named).
    pub fn acquire_cfg_sem(&mut self) -> (r: Option<ConfigureSemaphore>)
        ensures
            r == old(self).spec_acquire(),
            r.is_some() <==> old(self).configure_sem_free && old(self).permits_issued < u64::MAX,
            r.is_none() ==> *final(self) == *old(self),
            r matches Some(sem) ==> {
                &&& sem == ConfigureSemaphore(old(self).permits_issued)
                &&& *final(self) == (USBDevice {
                    configure_sem_free: false,
                    permits_issued: (old(self).permits_issued + 1) as u64,
                    ..*old(self)
                })
            },
    {
        if !self.configure_sem_free || self.permits_issued == u64::MAX {
            return None;
        }
        let sem = ConfigureSemaphore(self.permits_issued);
        self.configure_sem_free = false;
        self.permits_issued = self.permits_issued + 1;
        Some(sem)
    }

    /// Gives the permit back: the semaphore is free again.
    pub fn release_cfg_sem(&mut self, sem: ConfigureSemaphore)
        ensures
            *final(self) == (USBDevice { configure_sem_free: true, ..*old(self) }),
    {
        let _ = sem;
        self.configure_sem_free = true;
    }

    /// What the device has to do before it may post a request: a probed device must be
    /// enumerated first, every other device may post.
    pub fn check_self_status(&self) -> (c: StatusCheck)
        requires
            self.state != DeviceState::PreDrop,
        ensures
            c == (if self.state == DeviceState::Probed {
                StatusCheck::NeedsAssign
            } else {
                StatusCheck::Ready
            }),
    {
        match self.state {
            DeviceState::Probed => StatusCheck::NeedsAssign,
            _ => StatusCheck::Ready,
        }
    }

    /// The request by which this device posts `operation` and waits for nothing.
    pub fn request_no_response(&self, operation: RequestedOperation) -> (r: USBRequest)
        ensures
            r == (USBRequest {
                extra_action: ExtraAction::NOOP,
                operation,
                complete_action: CompleteAction::NOOP,
            }),
    {
        USBRequest { extra_action: ExtraAction::NOOP, operation, complete_action: CompleteAction::NOOP }
    }

    /// The request by which this device posts `operation` once and has the result
    /// handed to `waiter`.
    pub fn request_once(&self, operation: RequestedOperation, waiter: CallbackValue) -> (r:
        USBRequest)
        ensures
            r == (USBRequest {
                extra_action: ExtraAction::NOOP,
                operation,
                complete_action: CompleteAction::SimpleResponse(waiter),
            }),
    {
        USBRequest {
            extra_action: ExtraAction::NOOP,
            operation,
            complete_action: CompleteAction::SimpleResponse(waiter),
        }
    }

    /// The request that starts the enumeration of this device and releases `sem` when
    /// the enumeration is done.
    pub fn request_assign(&self, sem: ConfigureSemaphore) -> (r: USBRequest)
        ensures
            r == (USBRequest {
                extra_action: ExtraAction::NOOP,
                operation: RequestedOperation::InitializeDevice(self.topology_path),
                complete_action: CompleteAction::DropSem(sem),
            }),
    {
        USBRequest {
            extra_action: ExtraAction::NOOP,
            operation: RequestedOperation::InitializeDevice(self.topology_path),
            complete_action: CompleteAction::DropSem(sem),
        }
    }

    /// Records the slot that the controller gave the device. The slot is set once: a
    /// device that has a slot keeps it.
    pub fn set_slot_id(&mut self, slot_id: u8)
        ensures
            *final(self) == (USBDevice {
                slot_id: if old(self).slot_id.is_some() {
                    old(self).slot_id
                } else {
                    Some(slot_id)
                },
                ..*old(self)
            }),
    {
        if self.slot_id.is_none() {
            self.slot_id = Some(slot_id);
        }
    }

    /// Records that the enumeration of the device is through: a probed device becomes
    /// assigned, and a device in any other state stays as it is.
    pub fn mark_assigned(&mut self)
        ensures
            *final(self) == (USBDevice {
                state: if old(self).state == DeviceState::Probed {
                    DeviceState::Assigned
                } else {
                    old(self).state
                },
                ..*old(self)
            }),
    {
        match self.state {
            DeviceState::Probed => {
                self.state = DeviceState::Assigned;
            },
            _ => {},
        }
    }

    /// Records that a driver has configured the device: an assigned device becomes
    /// configured, and a device in any other state stays as it is.
    pub fn mark_configured(&mut self)
        ensures
            *final(self) == (USBDevice {
                state: if old(self).state == DeviceState::Assigned {
                    DeviceState::Configured
                } else {
                    old(self).state
                },
                ..*old(self)
            }),
    {
        match self.state {
            DeviceState::Assigned => {
                self.state = DeviceState::Configured;
            },
            _ => {},
        }
    }
}

/// The control transfer that reads a descriptor of the device into `buffer`: a standard
/// `GetDescriptor` request to the device, towards the host, with the descriptor type
/// and index in `wValue`.
pub open spec fn spec_get_descriptor(descriptor_type: u8, index: u8, buffer: (usize, usize)) -> ControlTransfer {
    ControlTransfer {
        request_type: BmRequestType {
            direction: Direction::In,
            transfer_type: DataTransferType::Standard,
            recipient: Recipient::Device,
        },
        request: StandardRequest::GetDescriptor.spec_code(),
        index: 0,
        value: spec_descriptor_selector(descriptor_type, index),
        data: Some(buffer),
        response: false,
    }
}

/// The control transfer that reads a descriptor of the device into `buffer`.
pub fn get_descriptor(descriptor_type: u8, index: u8, buffer: (usize, usize)) -> (t: ControlTransfer)
    ensures
        t == spec_get_descriptor(descriptor_type, index, buffer),
{
    ControlTransfer {
        request_type: BmRequestType::new(
            Direction::In,
            DataTransferType::Standard,
            Recipient::Device,
        ),
        request: StandardRequest::GetDescriptor.code(),
        index: 0,
        value: construct_control_transfer_type(descriptor_type, index),
        data: Some(buffer),
        response: false,
    }
}

/// The request that reads the device descriptor into `buffer` and releases `sem` when
/// the transfer is done.
pub fn device_descriptor_request(buffer: (usize, usize), sem: ConfigureSemaphore) -> (r: USBRequest)
    ensures
        r == (USBRequest {
            extra_action: ExtraAction::NOOP,
            operation: RequestedOperation::Control(
                spec_get_descriptor(DESCRIPTOR_TYPE_DEVICE, 0, buffer),
            ),
            complete_action: CompleteAction::DropSem(sem),
        }),
{
    USBRequest {
        extra_action: ExtraAction::NOOP,
        operation: RequestedOperation::Control(get_descriptor(DESCRIPTOR_TYPE_DEVICE, 0, buffer)),
        complete_action: CompleteAction::DropSem(sem),
    }
}

/// The request that reads configuration descriptor number `index` into `buffer` and
/// releases `sem` when the transfer is done.
pub fn config_descriptor_request(index: u8, buffer: (usize, usize), sem: ConfigureSemaphore) -> (r:
    USBRequest)
    ensures
        r == (USBRequest {
            extra_action: ExtraAction::NOOP,
            operation: RequestedOperation::Control(
                spec_get_descriptor(DESCRIPTOR_TYPE_CONFIGURATION, index, buffer),
            ),
            complete_action: CompleteAction::DropSem(sem),
        }),
{
    USBRequest {
        extra_action: ExtraAction::NOOP,
        operation: RequestedOperation::Control(
            get_descriptor(DESCRIPTOR_TYPE_CONFIGURATION, index, buffer),
        ),
        complete_action: CompleteAction::DropSem(sem),
    }
}

/// One permit: after an acquire has succeeded, no acquire succeeds until the permit is
/// released, and after the release the next acquire hands out a permit that was not
/// handed out before.
pub proof fn lemma_one_permit(d: USBDevice)
    requires
        d.spec_acquire().is_some(),
    ensures
        ({
            let held = USBDevice {
                configure_sem_free: false,
                permits_issued: (d.permits_issued + 1) as u64,
                ..d
            };
            let released = USBDevice { configure_sem_free: true, ..held };
            &&& held.spec_acquire().is_none()
            &&& released.spec_acquire() matches Some(next) ==> next != d.spec_acquire().unwrap()
        }),
{
}

} // verus!
