use vstd::prelude::*;
use crate::devices::{
    default_device, device_with_id, first_default_at, first_with_id_at, has_no_default, has_no_id,
    views, AudioDeviceInfo, DeviceView,
};
use crate::error::AudioError;
use crate::vad::{
    force_end_step, idle_state, step, Classification, UtteranceBoundary, VadConfig, VadState,
};

verus! {

/// The process-wide capture session: whether a capture runs, the token of
/// its background task, the device it reads, the detector configuration and
/// the detector state. The caller keeps one of these behind a lock and
/// performs the native work (opening streams, joining tasks) outside it.
pub struct AudioState {
    pub is_capturing: bool,
    /// Token of the live background task; there is at most one.
    pub stream_task: Option<u64>,
    pub device: Option<AudioDeviceInfo>,
    pub vad_config: VadConfig,
    pub vad: VadState,
}

/// What the front end sees of the session.
pub struct CaptureStatus {
    pub is_capturing: bool,
    pub device: Option<AudioDeviceInfo>,
}

pub open spec fn device_view(o: Option<AudioDeviceInfo>) -> Option<DeviceView> {
    match o {
        Some(d) => Some(d@),
        None => None,
    }
}

/// The session once capture has stopped: idle, no task, no device, the
/// configuration kept and the detector reset.
pub open spec fn stopped(s: AudioState) -> AudioState {
    AudioState {
        is_capturing: false,
        stream_task: None,
        device: None,
        vad_config: s.vad_config,
        vad: idle_state(),
    }
}

/// The session and the answer after a request to record a started capture
/// of `device`, whose stream and task the caller opened with outcome `opened`.
pub open spec fn start_outcome(s: AudioState, device: AudioDeviceInfo, opened: Result<u64, AudioError>) -> (
    AudioState,
    Result<(), AudioError>,
) {
    if s.is_capturing {
        (s, Err(AudioError::AlreadyCapturing))
    } else {
        match opened {
            Err(e) => (s, Err(e)),
            Ok(task) => (
                AudioState {
                    is_capturing: true,
                    stream_task: Some(task),
                    device: Some(device),
                    vad: idle_state(),
                    ..s
                },
                Ok(()),
            ),
        }
    }
}

/// The session after a request to replace its configuration with `c`: taken
/// whole when valid, ignored otherwise.
pub open spec fn reconfigured(s: AudioState, c: VadConfig) -> AudioState {
    AudioState { vad_config: if c.valid() { c } else { s.vad_config }, ..s }
}

/// The session after background task `task` delivered a buffer: the detector
/// steps under the configuration in force, taken as one value; a buffer
/// from a task that is not live changes nothing.
pub open spec fn processed(s: AudioState, task: u64, score: u32, duration_ms: u64) -> AudioState {
    if s.stream_task == Some(task) {
        AudioState { vad: step(s.vad, score, duration_ms, s.vad_config).0, ..s }
    } else {
        s
    }
}

/// The device a start request resolves to: the one asked for by identifier,
/// else the catalog's default.
pub open spec fn resolves_to(
    requested: Option<String>,
    catalog: Seq<AudioDeviceInfo>,
    r: Result<AudioDeviceInfo, AudioError>,
) -> bool {
    match requested {
        Some(id) => match r {
            Ok(d) => exists|i: int| first_with_id_at(views(catalog), id@, i) && d@ == views(catalog)[i],
            Err(e) => e == AudioError::DeviceUnavailable && has_no_id(views(catalog), id@),
        },
        None => match r {
            Ok(d) => exists|i: int| first_default_at(views(catalog), i) && d@ == views(catalog)[i],
            Err(e) => e == AudioError::NoDeviceAvailable && has_no_default(views(catalog)),
        },
    }
}

impl AudioState {
    pub open spec fn wf(&self) -> bool {
        &&& self.is_capturing == (self.stream_task is Some)
        &&& self.is_capturing ==> self.device is Some
        &&& self.vad_config.valid()
    }

    /// The idle session a process starts with.
    pub fn new() -> (s: AudioState)
        ensures
            s.wf(),
            !s.is_capturing,
            s.stream_task is None,
            s.device is None,
            s.vad_config == VadConfig::default_config_spec(),
            s.vad == idle_state(),
    {
        AudioState {
            is_capturing: false,
            stream_task: None,
            device: None,
            vad_config: VadConfig::default_config(),
            vad: VadState::new(),
        }
    }

    /// Decides which device a start request will open. Fails with
    /// `AlreadyCapturing` while a capture runs, passes on a catalog failure,
    /// and otherwise takes the device asked for (`DeviceUnavailable` if the
    /// catalog lacks it) or the catalog's default (`NoDeviceAvailable` if it
    /// marks none).
    pub fn resolve_device(
        &self,
        requested: Option<String>,
        catalog: Result<Vec<AudioDeviceInfo>, AudioError>,
    ) -> (r: Result<AudioDeviceInfo, AudioError>)
        ensures
            self.is_capturing ==> r == Err::<AudioDeviceInfo, AudioError>(AudioError::AlreadyCapturing),
            !self.is_capturing ==> match catalog {
                Err(e) => r == Err::<AudioDeviceInfo, AudioError>(e),
                Ok(devs) => resolves_to(requested, devs@, r),
            },
    {
        if self.is_capturing {
            return Err(AudioError::AlreadyCapturing);
        }
        let devices = match catalog {
            Err(e) => {
                return Err(e);
            },
            Ok(devs) => devs,
        };
        match requested {
            Some(id) => match device_with_id(&devices, &id) {
                Some(d) => Ok(d),
                None => Err(AudioError::DeviceUnavailable),
            },
            None => match default_device(&devices) {
                Some(d) => Ok(d),
                None => Err(AudioError::NoDeviceAvailable),
            },
        }
    }

    /// Records a started capture once the caller has opened `device` and
    /// spawned its task (`opened`). While a capture already runs the request
    /// fails with `AlreadyCapturing`; a failed open is passed on. Either way
    /// a failure leaves the session as it was.
    pub fn start_capture(&mut self, device: AudioDeviceInfo, opened: Result<u64, AudioError>) -> (r:
        Result<(), AudioError>)
        requires
            old(self).wf(),
        ensures
            final(self).wf(),
            (*final(self), r) == start_outcome(*old(self), device, opened),
            old(self).is_capturing ==> r == Err::<(), AudioError>(AudioError::AlreadyCapturing)
                && *final(self) == *old(self),
            !old(self).is_capturing ==> match opened {
                Err(e) => r == Err::<(), AudioError>(e) && *final(self) == *old(self),
                Ok(task) => r is Ok && final(self).is_capturing && final(self).stream_task == Some(task)
                    && final(self).device == Some(device) && final(self).vad_config == old(self).vad_config
                    && final(self).vad == idle_state(),
            },
    {
        if self.is_capturing {
            return Err(AudioError::AlreadyCapturing);
        }
        match opened {
            Err(e) => Err(e),
            Ok(task) => {
                self.is_capturing = true;
                self.stream_task = Some(task);
                self.device = Some(device);
                self.vad = VadState::new();
                Ok(())
            },
        }
    }

    /// Stops capturing and hands back the task the caller must cancel and
    /// join; stopping an idle session does nothing and hands back none.
    pub fn stop_capture(&mut self) -> (r: Option<u64>)
        requires
            old(self).wf(),
        ensures
            final(self).wf(),
            *final(self) == stopped(*old(self)),
            r == old(self).stream_task,
    {
        let task = self.stream_task;
        self.is_capturing = false;
        self.stream_task = None;
        self.device = None;
        self.vad = VadState::new();
        task
    }

    /// A capture stream failed mid-way: if `task` is the live task the
    /// session goes idle (and `true` is returned); a report from a task that
    /// is no longer live changes nothing.
    pub fn stream_failed(&mut self, task: u64) -> (r: bool)
        requires
            old(self).wf(),
        ensures
            final(self).wf(),
            r == (old(self).stream_task == Some(task)),
            r ==> *final(self) == stopped(*old(self)),
            !r ==> *final(self) == *old(self),
    {
        match self.stream_task {
            Some(t) => if t == task {
                self.stop_capture();
                true
            } else {
                false
            },
            None => false,
        }
    }

    /// Ends the utterance in progress without closing the stream.
    pub fn manual_stop_continuous(&mut self, timestamp_ms: u64) -> (r: Option<UtteranceBoundary>)
        requires
            old(self).wf(),
        ensures
            final(self).wf(),
            final(self).vad == force_end_step(old(self).vad).0,
            final(self).is_capturing == old(self).is_capturing,
            final(self).stream_task == old(self).stream_task,
            final(self).device == old(self).device,
            final(self).vad_config == old(self).vad_config,
            r == match force_end_step(old(self).vad).1 {
                Some(k) => Some(UtteranceBoundary { kind: k, timestamp_ms }),
                None => None,
            },
    {
        self.vad.force_end(timestamp_ms)
    }

    /// Feeds one buffer from background task `task` to the detector, using
    /// the configuration as it stands at this call, whole. Buffers from a
    /// task that is not the live one are ignored (`None`).
    pub fn process_buffer(&mut self, task: u64, score: u32, duration_ms: u64, timestamp_ms: u64) -> (r:
        Option<(Classification, Option<UtteranceBoundary>)>)
        requires
            old(self).wf(),
        ensures
            final(self).wf(),
            *final(self) == processed(*old(self), task, score, duration_ms),
            old(self).stream_task != Some(task) ==> r is None,
            old(self).stream_task == Some(task) ==> {
                let (next, b) = step(old(self).vad, score, duration_ms, old(self).vad_config);
                r == Some((
                    next.confirmed,
                    match b {
                        Some(k) => Some(UtteranceBoundary { kind: k, timestamp_ms }),
                        None => None,
                    },
                ))
            },
    {
        let live = match self.stream_task {
            Some(t) => t == task,
            None => false,
        };
        if !live {
            return None;
        }
        let cfg = self.vad_config;
        Some(self.vad.classify(score, duration_ms, timestamp_ms, &cfg))
    }

    /// Whether a capture runs and on which device; reads the session only.
    pub fn get_capture_status(&self) -> (r: CaptureStatus)
        ensures
            r.is_capturing == self.is_capturing,
            device_view(r.device) == device_view(self.device),
    {
        let device = match &self.device {
            Some(d) => Some(d.duplicate()),
            None => None,
        };
        CaptureStatus { is_capturing: self.is_capturing, device }
    }

    pub fn get_vad_config(&self) -> (r: VadConfig)
        ensures
            r == self.vad_config,
    {
        self.vad_config
    }

    /// Replaces the configuration as a whole, or rejects an invalid one with
    /// `InvalidConfig` and keeps the previous one.
    pub fn update_vad_config(&mut self, config: VadConfig) -> (r: Result<(), AudioError>)
        requires
            old(self).wf(),
        ensures
            final(self).wf(),
            *final(self) == reconfigured(*old(self), config),
            r is Ok == config.valid(),
            !config.valid() ==> r == Err::<(), AudioError>(AudioError::InvalidConfig),
    {
        if !config.is_valid() {
            return Err(AudioError::InvalidConfig);
        }
        self.vad_config = config;
        Ok(())
    }

    /// Sample rate of the device being captured, when known.
    pub fn get_audio_sample_rate(&self) -> (r: Option<u32>)
        ensures
            r == match self.device {
                Some(d) => d.sample_rate,
                None => None,
            },
    {
        match &self.device {
            Some(d) => d.sample_rate,
            None => None,
        }
    }
}

/// Stopping is idempotent: a second stop finds the session idle with no task
/// to hand back, and leaves it exactly as the first left it.
pub proof fn lemma_stop_twice(s: AudioState)
    requires
        s.wf(),
    ensures
        !stopped(s).is_capturing,
        stopped(s).stream_task is None,
        stopped(stopped(s)) == stopped(s),
        stopped(s).wf(),
{
}

/// Starts exclude each other: while a capture runs, a request to start
/// another fails with `AlreadyCapturing` whatever the device and the open
/// outcome, and the running capture keeps its task, device and flag.
pub proof fn lemma_start_while_capturing(s: AudioState, device: AudioDeviceInfo, opened: Result<u64, AudioError>)
    requires
        s.wf(),
        s.is_capturing,
    ensures
        start_outcome(s, device, opened).1 == Err::<(), AudioError>(AudioError::AlreadyCapturing),
        start_outcome(s, device, opened).0 == s,
        start_outcome(s, device, opened).0.stream_task == s.stream_task,
{
}

/// Replacing the configuration is atomic: the first buffer classified after
/// a replacement request is classified under exactly one configuration, the
/// new one whole if it was accepted and the old one whole if it was
/// rejected, never under a mixture of their thresholds.
pub proof fn lemma_reconfiguration_is_atomic(
    s: AudioState,
    c: VadConfig,
    task: u64,
    score: u32,
    duration_ms: u64,
)
    requires
        s.wf(),
        s.stream_task == Some(task),
    ensures
        c.valid() ==> processed(reconfigured(s, c), task, score, duration_ms).vad == step(
            s.vad,
            score,
            duration_ms,
            c,
        ).0,
        !c.valid() ==> processed(reconfigured(s, c), task, score, duration_ms).vad == step(
            s.vad,
            score,
            duration_ms,
            s.vad_config,
        ).0,
        reconfigured(s, c).wf(),
{
}

} // verus!
