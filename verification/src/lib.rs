//! The engine of an xHCI USB host controller driver: rings, contexts, the request
//! dispatcher and the event loop, as plain state and transitions. The caller owns the
//! registers and the DMA memory and carries out what the engine decides.

pub mod operations;
pub mod trb;
pub mod event;
pub mod ring;
pub mod event_ring;
pub mod context;
pub mod device_context;
pub mod slot;
pub mod device;
pub mod controller;
pub mod dispatcher;
pub mod event_loop;
pub mod enumeration;
