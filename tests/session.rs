use pluely_audio::{
    access_error, AudioDeviceInfo, AudioError, AudioState, BoundaryKind, Classification,
    SystemAudioAccess, UtteranceBoundary, VadConfig,
};

fn speakers() -> AudioDeviceInfo {
    AudioDeviceInfo {
        id: "spk".to_string(),
        name: "Speakers".to_string(),
        is_default: true,
        sample_rate: Some(48000),
        channels: Some(2),
    }
}

fn running() -> AudioState {
    let mut s = AudioState::new();
    s.start_capture(speakers(), Ok(7)).unwrap();
    s
}

#[test]
fn stopping_twice_is_ok_and_idle() {
    let mut s = running();
    assert_eq!(s.stop_capture(), Some(7));
    assert!(!s.get_capture_status().is_capturing);
    assert_eq!(s.stop_capture(), None);
    assert!(!s.get_capture_status().is_capturing);
    assert!(s.get_capture_status().device.is_none());
}

#[test]
fn start_while_capturing_is_rejected() {
    let mut s = running();
    assert_eq!(s.start_capture(speakers(), Ok(8)), Err(AudioError::AlreadyCapturing));
    assert_eq!(s.stream_task, Some(7));
    assert!(s.is_capturing);
    let r = s.resolve_device(None, Ok(vec![speakers()]));
    assert_eq!(r.unwrap_err(), AudioError::AlreadyCapturing);
}

#[test]
fn invalid_sensitivity_is_rejected_and_config_kept() {
    let mut s = AudioState::new();
    let before = s.get_vad_config();
    let bad = VadConfig { sensitivity: 1500, min_speech_ms: 100, hangover_ms: 100 };
    assert_eq!(s.update_vad_config(bad), Err(AudioError::InvalidConfig));
    assert_eq!(s.get_vad_config(), before);
    let good = VadConfig { sensitivity: 1000, min_speech_ms: 0, hangover_ms: 900 };
    assert_eq!(s.update_vad_config(good), Ok(()));
    assert_eq!(s.get_vad_config(), good);
}

#[test]
fn resolving_devices() {
    let s = AudioState::new();
    let other = AudioDeviceInfo { id: "hdmi".to_string(), name: "HDMI".to_string(), is_default: false, sample_rate: None, channels: None };
    let catalog = || Ok(vec![other.clone(), speakers()]);
    assert_eq!(s.resolve_device(None, catalog()).unwrap().id, "spk");
    assert_eq!(s.resolve_device(Some("hdmi".to_string()), catalog()).unwrap().name, "HDMI");
    assert_eq!(s.resolve_device(Some("usb".to_string()), catalog()).unwrap_err(), AudioError::DeviceUnavailable);
    assert_eq!(s.resolve_device(None, Ok(vec![other.clone()])).unwrap_err(), AudioError::NoDeviceAvailable);
    assert_eq!(s.resolve_device(None, Err(AudioError::BackendQueryFailed)).unwrap_err(), AudioError::BackendQueryFailed);
}

#[test]
fn failed_open_leaves_session_idle() {
    let mut s = AudioState::new();
    assert_eq!(s.start_capture(speakers(), Err(AudioError::PermissionDenied)), Err(AudioError::PermissionDenied));
    assert!(!s.is_capturing);
    assert_eq!(s.stream_task, None);
    assert_eq!(s.get_audio_sample_rate(), None);
}

#[test]
fn status_and_sample_rate_of_running_session() {
    let s = running();
    let st = s.get_capture_status();
    assert!(st.is_capturing);
    assert_eq!(st.device.unwrap().id, "spk");
    assert_eq!(s.get_audio_sample_rate(), Some(48000));
}

#[test]
fn buffers_drive_detector_of_live_task_only() {
    let mut s = running();
    s.update_vad_config(VadConfig { sensitivity: 500, min_speech_ms: 200, hangover_ms: 200 }).unwrap();
    assert_eq!(s.process_buffer(99, 900, 100, 0), None);
    assert_eq!(s.process_buffer(7, 900, 100, 0), Some((Classification::Silence, None)));
    assert_eq!(
        s.process_buffer(7, 900, 100, 100),
        Some((Classification::Speech, Some(UtteranceBoundary { kind: BoundaryKind::Start, timestamp_ms: 100 })))
    );
    assert_eq!(
        s.manual_stop_continuous(150),
        Some(UtteranceBoundary { kind: BoundaryKind::End, timestamp_ms: 150 })
    );
    assert!(s.is_capturing);
    assert_eq!(s.manual_stop_continuous(160), None);
}

#[test]
fn stream_failure_of_live_task_goes_idle() {
    let mut s = running();
    assert!(!s.stream_failed(3));
    assert!(s.is_capturing);
    assert!(s.stream_failed(7));
    assert!(!s.is_capturing);
    assert_eq!(s.process_buffer(7, 900, 100, 0), None);
}

#[test]
fn access_states_map_to_distinct_errors() {
    assert_eq!(access_error(SystemAudioAccess::Granted), None);
    assert_eq!(access_error(SystemAudioAccess::Denied), Some(AudioError::PermissionDenied));
    assert_eq!(access_error(SystemAudioAccess::NotDetermined), Some(AudioError::PermissionNotDetermined));
    assert_eq!(access_error(SystemAudioAccess::Unsupported), Some(AudioError::PlatformUnsupported));
}
