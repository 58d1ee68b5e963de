use vstd::prelude::*;

verus! {

/// Every failure this crate reports; each is recoverable at the session
/// boundary.
#[derive(Clone, Copy, Debug, PartialEq, Eq, Structural)]
pub enum AudioError {
    PlatformUnsupported,
    BackendQueryFailed,
    DeviceUnavailable,
    PermissionDenied,
    PermissionNotDetermined,
    UnsupportedFormat,
    AlreadyCapturing,
    NoDeviceAvailable,
    InvalidConfig,
}

} // verus!
