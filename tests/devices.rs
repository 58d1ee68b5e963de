use pluely_audio::{
    default_device, device_with_id, get_default_audio_device, list_audio_output_devices,
    list_system_audio_devices, AudioDeviceInfo, AudioError, BackendListing, ReportedDevice,
};

fn reported(uid: Option<&str>, name: Option<&str>, rate: Option<u32>, ch: Option<u16>) -> ReportedDevice {
    ReportedDevice {
        uid: uid.map(|s| s.to_string()),
        name: name.map(|s| s.to_string()),
        sample_rate: rate,
        channels: ch,
    }
}

fn default_only() -> BackendListing {
    BackendListing {
        devices: vec![reported(Some("BuiltInSpeakers"), Some("MacBook Speakers"), Some(48000), Some(2))],
        default_uid: Some("BuiltInSpeakers".to_string()),
    }
}

#[test]
fn default_only_backend_lists_one_default_device() {
    let devices = list_system_audio_devices(Ok(default_only())).unwrap();
    assert_eq!(devices.len(), 1);
    assert!(devices[0].is_default);
    assert_eq!(devices[0].id, "BuiltInSpeakers");
    assert_eq!(devices[0].name, "MacBook Speakers");
    assert_eq!(devices[0].sample_rate, Some(48000));
    assert_eq!(devices[0].channels, Some(2));
}

#[test]
fn listing_normalises_reported_devices() {
    let listing = BackendListing {
        devices: vec![
            reported(Some("sink.a"), None, Some(0), Some(0)),
            reported(None, Some("no id"), Some(44100), Some(2)),
            reported(Some("sink.b"), Some("Headphones"), Some(44100), Some(6)),
        ],
        default_uid: Some("sink.b".to_string()),
    };
    let devices = list_audio_output_devices(Ok(listing)).unwrap();
    assert_eq!(devices.len(), 2);
    assert_eq!(devices[0].id, "sink.a");
    assert_eq!(devices[0].name, "Unknown Device");
    assert!(!devices[0].is_default);
    assert_eq!(devices[0].sample_rate, None);
    assert_eq!(devices[0].channels, None);
    assert_eq!(devices[1].id, "sink.b");
    assert!(devices[1].is_default);
    assert_eq!(devices[1].channels, Some(6));
}

#[test]
fn backend_failures_are_passed_on() {
    assert_eq!(list_audio_output_devices(Err(AudioError::PlatformUnsupported)).unwrap_err(), AudioError::PlatformUnsupported);
    assert_eq!(get_default_audio_device(Err(AudioError::BackendQueryFailed)).unwrap_err(), AudioError::BackendQueryFailed);
}

#[test]
fn empty_listing_has_no_default() {
    let listing = BackendListing { devices: vec![], default_uid: None };
    assert!(list_audio_output_devices(Ok(listing)).unwrap().is_empty());
    let listing = BackendListing {
        devices: vec![reported(Some("x"), Some("X"), None, None)],
        default_uid: None,
    };
    assert!(get_default_audio_device(Ok(listing)).unwrap().is_none());
}

#[test]
fn default_device_is_found() {
    let d = get_default_audio_device(Ok(default_only())).unwrap().unwrap();
    assert_eq!(d.id, "BuiltInSpeakers");
}

fn info(id: &str, is_default: bool) -> AudioDeviceInfo {
    AudioDeviceInfo { id: id.to_string(), name: id.to_uppercase(), is_default, sample_rate: None, channels: None }
}

#[test]
fn first_default_and_lookup_by_id() {
    let devs = vec![info("a", false), info("b", true), info("c", true)];
    assert_eq!(default_device(&devs).unwrap().id, "b");
    assert_eq!(device_with_id(&devs, &"c".to_string()).unwrap().name, "C");
    assert!(device_with_id(&devs, &"d".to_string()).is_none());
    assert!(default_device(&vec![info("a", false)]).is_none());
    let copy = devs[1].duplicate();
    assert_eq!(copy.id, "b");
    assert!(copy.is_default);
}

#[test]
fn shared_identifiers_keep_only_the_first_device() {
    let listing = BackendListing {
        devices: vec![
            reported(Some("a"), Some("First"), Some(48000), Some(2)),
            reported(Some("b"), Some("Other"), None, None),
            reported(Some("a"), Some("Second"), Some(44100), Some(1)),
        ],
        default_uid: Some("a".to_string()),
    };
    let devices = list_audio_output_devices(Ok(listing)).unwrap();
    assert_eq!(devices.len(), 2);
    assert_eq!(devices[0].id, "a");
    assert_eq!(devices[0].name, "First");
    assert!(devices[0].is_default);
    assert_eq!(devices[1].id, "b");
    assert!(!devices[1].is_default);
}
