//! Host-side driver logic for a dual-zone RGB accessory that is configured
//! over USB control transfers.
//!
//! The crate holds the protocol itself: the fixed-layout command buffers the
//! firmware expects, validation of the user-supplied light level and colors,
//! enumeration of candidate endpoints from a device's descriptor tree, and
//! the session state machine that sequences configuration, transfers and
//! teardown. The unverified binary around it performs the actual USB calls
//! and feeds their outcomes back into the state machine.

use vstd::prelude::*;

pub mod cli;
pub mod codec;
pub mod resolver;
pub mod session;

verus! {

/// The failure kinds a run of the driver can surface.
#[derive(Clone, Copy, Debug, PartialEq, Eq, Structural)]
pub enum DriverError {
    /// A user-supplied light level or color string was rejected before any
    /// device access.
    InvalidArgument,
    /// No attached device matches the expected vendor/product pair, or the
    /// matching device could not be opened.
    DeviceNotFound,
    /// Opening, configuring or claiming failed for lack of permissions.
    AccessDenied,
    /// A configuration step or control transfer failed at the USB layer.
    TransportError,
    /// Enumeration succeeded but produced no usable endpoint.
    NoEndpoint,
}

} // verus!
