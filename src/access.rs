use vstd::prelude::*;
use crate::error::AudioError;

verus! {

/// The operating system's consent state for capturing system audio.
#[derive(Clone, Copy, Debug, PartialEq, Eq, Structural)]
pub enum SystemAudioAccess {
    Granted,
    Denied,
    NotDetermined,
    Unsupported,
}

/// Why capture may not start under `access`, or `None` when it may. The three
/// refusals stay distinct so that a caller can ask for consent where none was
/// given yet and fail outright otherwise.
pub fn access_error(access: SystemAudioAccess) -> (r: Option<AudioError>)
    ensures
        r == match access {
            SystemAudioAccess::Granted => None,
            SystemAudioAccess::Denied => Some(AudioError::PermissionDenied),
            SystemAudioAccess::NotDetermined => Some(AudioError::PermissionNotDetermined),
            SystemAudioAccess::Unsupported => Some(AudioError::PlatformUnsupported),
        },
{
    match access {
        SystemAudioAccess::Granted => None,
        SystemAudioAccess::Denied => Some(AudioError::PermissionDenied),
        SystemAudioAccess::NotDetermined => Some(AudioError::PermissionNotDetermined),
        SystemAudioAccess::Unsupported => Some(AudioError::PlatformUnsupported),
    }
}

} // verus!
