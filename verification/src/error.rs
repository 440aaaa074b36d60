//! Error kinds surfaced to callers.

use vstd::prelude::*;

verus! {

/// What went wrong in an operation of this library.
///
/// The lifecycle kinds carry the native error message verbatim when the
/// native layer supplied one.
#[derive(Debug, PartialEq, Eq)]
pub enum SCError {
    /// A required native handle was null at construction time.
    ResourceUnavailable,
    /// The operating system has not granted capture permission.
    PermissionDenied,
    /// A configuration or filter that is rejected before capture is attempted.
    InvalidConfiguration,
    /// The native completion of a start reported failure.
    CaptureStartFailed(Option<String>),
    /// The native completion of a reconfiguration reported failure.
    ReconfigurationFailed(Option<String>),
    /// The native completion of a stop reported failure.
    CaptureStopFailed(Option<String>),
    /// Locking or unlocking pixel memory reported failure.
    LockFailed,
    /// A callback fired for a token that is not registered.
    InternalProtocolViolation,
    /// A failure inside the native bridge, with its message.
    InternalError(String),
    /// A single-shot capture failed, with the native message.
    ScreenshotError(String),
}

/// The ten kinds, without their messages.
#[derive(Debug, Clone, Copy, PartialEq, Eq, Structural)]
pub enum ErrorKind {
    ResourceUnavailable,
    PermissionDenied,
    InvalidConfiguration,
    CaptureStartFailed,
    ReconfigurationFailed,
    CaptureStopFailed,
    LockFailed,
    InternalProtocolViolation,
    InternalError,
    ScreenshotError,
}

impl SCError {
    /// The kind of `self`.
    pub open spec fn kind_of(self) -> ErrorKind {
        match self {
            SCError::ResourceUnavailable => ErrorKind::ResourceUnavailable,
            SCError::PermissionDenied => ErrorKind::PermissionDenied,
            SCError::InvalidConfiguration => ErrorKind::InvalidConfiguration,
            SCError::CaptureStartFailed(_) => ErrorKind::CaptureStartFailed,
            SCError::ReconfigurationFailed(_) => ErrorKind::ReconfigurationFailed,
            SCError::CaptureStopFailed(_) => ErrorKind::CaptureStopFailed,
            SCError::LockFailed => ErrorKind::LockFailed,
            SCError::InternalProtocolViolation => ErrorKind::InternalProtocolViolation,
            SCError::InternalError(_) => ErrorKind::InternalError,
            SCError::ScreenshotError(_) => ErrorKind::ScreenshotError,
        }
    }

    /// The kind of this error.
    pub fn kind(&self) -> (k: ErrorKind)
        ensures
            k == self.kind_of(),
    {
        match self {
            SCError::ResourceUnavailable => ErrorKind::ResourceUnavailable,
            SCError::PermissionDenied => ErrorKind::PermissionDenied,
            SCError::InvalidConfiguration => ErrorKind::InvalidConfiguration,
            SCError::CaptureStartFailed(_) => ErrorKind::CaptureStartFailed,
            SCError::ReconfigurationFailed(_) => ErrorKind::ReconfigurationFailed,
            SCError::CaptureStopFailed(_) => ErrorKind::CaptureStopFailed,
            SCError::LockFailed => ErrorKind::LockFailed,
            SCError::InternalProtocolViolation => ErrorKind::InternalProtocolViolation,
            SCError::InternalError(_) => ErrorKind::InternalError,
            SCError::ScreenshotError(_) => ErrorKind::ScreenshotError,
        }
    }

    /// Whether the caller never sees this error: it is recovered in place.
    pub fn is_defensive_only(&self) -> (b: bool)
        ensures
            b == (self.kind_of() == ErrorKind::InternalProtocolViolation),
    {
        match self {
            SCError::InternalProtocolViolation => true,
            _ => false,
        }
    }
}

} // verus!
