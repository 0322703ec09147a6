//! Error kinds surfaced to callers of the driver.

use vstd::prelude::*;

verus! {

/// The reason a requested output configuration was rejected.
#[derive(Clone, Copy, Debug, PartialEq, Eq, Structural)]
pub enum BadConfigKind {
    /// The requested pulse period is below the device's minimum tick count.
    TooShort,
    /// The requested pulse period exceeds the largest prescaled counter value.
    TooLong,
    /// The requested pulse width does not fit inside the period.
    InvalidDuty,
    /// The channel index does not name an output of the device.
    InvalidChannel,
}

/// Error kinds surfaced to callers.
#[derive(Clone, Copy, Debug, PartialEq, Eq, Structural)]
pub enum NscopeError {
    /// No matching device is present or it could not be opened.
    NotAvailable,
    /// An attempt was made to reopen a live handle.
    AlreadyOpen,
    /// A requested configuration was rejected before reaching the device.
    BadConfig(BadConfigKind),
    /// A transport read or write failed or timed out beyond the threshold.
    TransportError,
    /// The worker has terminated; subsequent commands fail.
    Disconnected,
    /// The request was retired due to shutdown or an explicit stop.
    Cancelled,
}

impl BadConfigKind {
    /// The text carried by the corresponding rejection.
    pub open spec fn spec_message(self) -> Seq<char> {
        match self {
            BadConfigKind::TooShort => "Desired pulse length is too short"@,
            BadConfigKind::TooLong => "Desired pulse length is too long"@,
            BadConfigKind::InvalidDuty => "Desired pulse width exceeds the period"@,
            BadConfigKind::InvalidChannel => "No such output channel"@,
        }
    }

    /// A human-readable description of the rejection.
    pub fn message(&self) -> (r: &'static str)
        ensures
            r@ == self.spec_message(),
    {
        match self {
            BadConfigKind::TooShort => "Desired pulse length is too short",
            BadConfigKind::TooLong => "Desired pulse length is too long",
            BadConfigKind::InvalidDuty => "Desired pulse width exceeds the period",
            BadConfigKind::InvalidChannel => "No such output channel",
        }
    }
}

impl NscopeError {
    /// The text describing this error.
    pub open spec fn spec_message(self) -> Seq<char> {
        match self {
            NscopeError::NotAvailable => "No available device"@,
            NscopeError::AlreadyOpen => "Device is already open"@,
            NscopeError::BadConfig(kind) => kind.spec_message(),
            NscopeError::TransportError => "Transport read or write failed"@,
            NscopeError::Disconnected => "Device is disconnected"@,
            NscopeError::Cancelled => "Request was cancelled"@,
        }
    }

    /// A human-readable description of the error.
    pub fn message(&self) -> (r: &'static str)
        ensures
            r@ == self.spec_message(),
    {
        match self {
            NscopeError::NotAvailable => "No available device",
            NscopeError::AlreadyOpen => "Device is already open",
            NscopeError::BadConfig(kind) => kind.message(),
            NscopeError::TransportError => "Transport read or write failed",
            NscopeError::Disconnected => "Device is disconnected",
            NscopeError::Cancelled => "Request was cancelled",
        }
    }
}

} // verus!
