use vstd::prelude::*;

verus! {

/// The score that stands for full activity; sensitivities and scores are
/// measured in thousandths of it.
pub const SCORE_SCALE: u32 = 1000;

/// Largest magnitude of a signed 16-bit sample.
pub const SAMPLE_PEAK: u32 = 32768;

/// Tunable thresholds of the detector.
#[derive(Clone, Copy, Debug, PartialEq, Eq, Structural)]
pub struct VadConfig {
    /// A buffer whose activity score is at least this counts as raw speech
    /// (`0..=SCORE_SCALE`).
    pub sensitivity: u32,
    /// Raw speech needed before an utterance start is confirmed.
    pub min_speech_ms: u64,
    /// Raw silence needed before an utterance end is confirmed.
    pub hangover_ms: u64,
}

impl VadConfig {
    pub open spec fn valid(&self) -> bool {
        self.sensitivity <= SCORE_SCALE
    }

    pub open spec fn default_config_spec() -> VadConfig {
        VadConfig { sensitivity: 500, min_speech_ms: 300, hangover_ms: 500 }
    }

    /// The configuration a process starts with.
    pub fn default_config() -> (c: VadConfig)
        ensures
            c.valid(),
            c == Self::default_config_spec(),
    {
        VadConfig { sensitivity: 500, min_speech_ms: 300, hangover_ms: 500 }
    }

    pub fn is_valid(&self) -> (r: bool)
        ensures
            r == self.valid(),
    {
        self.sensitivity <= SCORE_SCALE
    }
}

/// Confirmed classification of the audio stream.
#[derive(Clone, Copy, Debug, PartialEq, Eq, Structural)]
pub enum Classification {
    Speech,
    Silence,
}

#[derive(Clone, Copy, Debug, PartialEq, Eq, Structural)]
pub enum BoundaryKind {
    Start,
    End,
}

/// A confirmed start or end of an utterance, stamped with the time of the
/// buffer that confirmed it.
#[derive(Clone, Copy, Debug, PartialEq, Eq, Structural)]
pub struct UtteranceBoundary {
    pub kind: BoundaryKind,
    pub timestamp_ms: u64,
}

/// The four states of the hysteresis machine.
#[derive(Clone, Copy, Debug, PartialEq, Eq, Structural)]
pub enum VadPhase {
    Silence,
    PendingSpeech,
    Speech,
    PendingSilence,
}

/// Detector state: the confirmed classification and the length of the
/// current run of raw speech (while silent) or raw silence (while speaking).
#[derive(Clone, Copy, Debug, PartialEq, Eq, Structural)]
pub struct VadState {
    pub confirmed: Classification,
    pub speech_run_ms: u64,
    pub silence_run_ms: u64,
}

/// A run of samples delivered by a capture stream.
pub struct AudioBuffer {
    pub samples: Vec<i16>,
    pub timestamp_ms: u64,
    pub sample_rate: u32,
}

/// One input of the detector, for reasoning about whole runs: a buffer with
/// its score, its duration and the configuration in force for it, or a
/// forced end of the current utterance.
pub enum VadEvent {
    Buffer { score: u32, duration_ms: u64, config: VadConfig },
    ForceEnd,
}

pub open spec fn sat_add(a: u64, b: u64) -> u64 {
    if a + b > u64::MAX {
        u64::MAX
    } else {
        (a + b) as u64
    }
}

pub open spec fn idle_state() -> VadState {
    VadState { confirmed: Classification::Silence, speech_run_ms: 0, silence_run_ms: 0 }
}

pub open spec fn speaking_state() -> VadState {
    VadState { confirmed: Classification::Speech, speech_run_ms: 0, silence_run_ms: 0 }
}

/// One buffer through the detector: the next state and the boundary, if any.
pub open spec fn step(s: VadState, score: u32, duration_ms: u64, cfg: VadConfig) -> (VadState, Option<BoundaryKind>) {
    let raw_speech = score >= cfg.sensitivity;
    match s.confirmed {
        Classification::Silence => {
            if raw_speech {
                let run = sat_add(s.speech_run_ms, duration_ms);
                if run >= cfg.min_speech_ms {
                    (speaking_state(), Some(BoundaryKind::Start))
                } else {
                    (VadState { confirmed: Classification::Silence, speech_run_ms: run, silence_run_ms: 0 }, None)
                }
            } else {
                (idle_state(), None)
            }
        },
        Classification::Speech => {
            if raw_speech {
                (speaking_state(), None)
            } else {
                let run = sat_add(s.silence_run_ms, duration_ms);
                if run >= cfg.hangover_ms {
                    (idle_state(), Some(BoundaryKind::End))
                } else {
                    (VadState { confirmed: Classification::Speech, speech_run_ms: 0, silence_run_ms: run }, None)
                }
            }
        },
    }
}

/// A forced end: an utterance in progress ends at once; pending speech is dropped.
pub open spec fn force_end_step(s: VadState) -> (VadState, Option<BoundaryKind>) {
    match s.confirmed {
        Classification::Speech => (idle_state(), Some(BoundaryKind::End)),
        Classification::Silence => (idle_state(), None),
    }
}

pub open spec fn event_step(s: VadState, e: VadEvent) -> (VadState, Option<BoundaryKind>) {
    match e {
        VadEvent::Buffer { score, duration_ms, config } => step(s, score, duration_ms, config),
        VadEvent::ForceEnd => force_end_step(s),
    }
}

/// The state after a run of events, and the boundaries it emitted in order.
pub open spec fn run_events(s: VadState, events: Seq<VadEvent>) -> (VadState, Seq<BoundaryKind>)
    decreases events.len(),
{
    if events.len() == 0 {
        (s, Seq::empty())
    } else {
        let (mid, bs) = run_events(s, events.drop_last());
        let (next, b) = event_step(mid, events.last());
        match b {
            Some(k) => (next, bs.push(k)),
            None => (next, bs),
        }
    }
}

/// Total duration of the buffers of a run that score as raw speech under the
/// configuration in force for them.
pub open spec fn raw_speech_ms(events: Seq<VadEvent>) -> int
    decreases events.len(),
{
    if events.len() == 0 {
        0
    } else {
        raw_speech_ms(events.drop_last()) + match events.last() {
            VadEvent::Buffer { score, duration_ms, config } => if score >= config.sensitivity {
                duration_ms as int
            } else {
                0int
            },
            VadEvent::ForceEnd => 0int,
        }
    }
}

/// The boundary expected at position `i` of the output of a run that starts
/// in confirmed state `c`: starts and ends take turns.
pub open spec fn alternating(c: Classification, i: int) -> BoundaryKind {
    if (i % 2 == 0) == (c == Classification::Silence) {
        BoundaryKind::Start
    } else {
        BoundaryKind::End
    }
}

pub open spec fn flipped(c: Classification, n: int) -> Classification {
    if n % 2 == 0 {
        c
    } else if c == Classification::Silence {
        Classification::Speech
    } else {
        Classification::Silence
    }
}

/// Brief blips are filtered: from a silent detector, a run of events whose
/// raw speech, added to any speech already pending, totals less than the
/// minimum speech duration in force for each of its buffers emits no start
/// (and so no boundary at all), and leaves the detector silent. From a fresh
/// detector nothing is pending.
pub proof fn lemma_short_speech_emits_no_start(s: VadState, events: Seq<VadEvent>)
    requires
        s.confirmed == Classification::Silence,
        forall|i: int|
            0 <= i < events.len() ==> match #[trigger] events[i] {
                VadEvent::Buffer { config, .. } => s.speech_run_ms + raw_speech_ms(events)
                    < config.min_speech_ms,
                VadEvent::ForceEnd => true,
            },
    ensures
        run_events(s, events).1.len() == 0,
        run_events(s, events).0.confirmed == Classification::Silence,
        run_events(s, events).0.speech_run_ms <= s.speech_run_ms + raw_speech_ms(events),
    decreases events.len(),
{
    if events.len() > 0 {
        let prefix = events.drop_last();
        lemma_raw_speech_nonnegative(prefix);
        assert forall|i: int|
            0 <= i < prefix.len() implies match #[trigger] prefix[i] {
                VadEvent::Buffer { config, .. } => s.speech_run_ms + raw_speech_ms(prefix)
                    < config.min_speech_ms,
                VadEvent::ForceEnd => true,
            } by {
            assert(prefix[i] == events[i]);
        }
        lemma_short_speech_emits_no_start(s, prefix);
    }
}

proof fn lemma_raw_speech_nonnegative(events: Seq<VadEvent>)
    ensures
        raw_speech_ms(events) >= 0,
    decreases events.len(),
{
    if events.len() > 0 {
        lemma_raw_speech_nonnegative(events.drop_last());
    }
}

/// No overlapping utterances: the boundaries of any run of events take turns,
/// so every start is followed by exactly one end before the next start; the
/// detector's confirmed classification flips once per boundary.
pub proof fn lemma_boundaries_alternate(s: VadState, events: Seq<VadEvent>)
    ensures
        forall|i: int|
            0 <= i < run_events(s, events).1.len() ==> #[trigger] run_events(s, events).1[i] == alternating(
                s.confirmed,
                i,
            ),
        run_events(s, events).0.confirmed == flipped(s.confirmed, run_events(s, events).1.len() as int),
    decreases events.len(),
{
    if events.len() > 0 {
        lemma_boundaries_alternate(s, events.drop_last());
    }
}

impl VadState {
    pub open spec fn phase_of(&self) -> VadPhase {
        match self.confirmed {
            Classification::Silence => if self.speech_run_ms == 0 {
                VadPhase::Silence
            } else {
                VadPhase::PendingSpeech
            },
            Classification::Speech => if self.silence_run_ms == 0 {
                VadPhase::Speech
            } else {
                VadPhase::PendingSilence
            },
        }
    }

    /// A detector that has heard nothing yet.
    pub fn new() -> (s: VadState)
        ensures
            s == idle_state(),
    {
        VadState { confirmed: Classification::Silence, speech_run_ms: 0, silence_run_ms: 0 }
    }

    pub fn phase(&self) -> (p: VadPhase)
        ensures
            p == self.phase_of(),
    {
        match self.confirmed {
            Classification::Silence => if self.speech_run_ms == 0 {
                VadPhase::Silence
            } else {
                VadPhase::PendingSpeech
            },
            Classification::Speech => if self.silence_run_ms == 0 {
                VadPhase::Speech
            } else {
                VadPhase::PendingSilence
            },
        }
    }

    /// Classifies one buffer, given its activity score and duration, under
    /// the single configuration snapshot `cfg`.
    pub fn classify(&mut self, score: u32, duration_ms: u64, timestamp_ms: u64, cfg: &VadConfig) -> (r: (
        Classification,
        Option<UtteranceBoundary>,
    ))
        ensures
            *final(self) == step(*old(self), score, duration_ms, *cfg).0,
            r.0 == final(self).confirmed,
            r.1 == match step(*old(self), score, duration_ms, *cfg).1 {
                Some(k) => Some(UtteranceBoundary { kind: k, timestamp_ms }),
                None => None,
            },
    {
        let raw_speech = score >= cfg.sensitivity;
        let mut boundary: Option<UtteranceBoundary> = None;
        match self.confirmed {
            Classification::Silence => {
                if raw_speech {
                    let run: u64 = if self.speech_run_ms > u64::MAX - duration_ms {
                        u64::MAX
                    } else {
                        self.speech_run_ms + duration_ms
                    };
                    if run >= cfg.min_speech_ms {
                        *self = VadState { confirmed: Classification::Speech, speech_run_ms: 0, silence_run_ms: 0 };
                        boundary = Some(UtteranceBoundary { kind: BoundaryKind::Start, timestamp_ms });
                    } else {
                        self.speech_run_ms = run;
                        self.silence_run_ms = 0;
                    }
                } else {
                    *self = VadState { confirmed: Classification::Silence, speech_run_ms: 0, silence_run_ms: 0 };
                }
            },
            Classification::Speech => {
                if raw_speech {
                    *self = VadState { confirmed: Classification::Speech, speech_run_ms: 0, silence_run_ms: 0 };
                } else {
                    let run: u64 = if self.silence_run_ms > u64::MAX - duration_ms {
                        u64::MAX
                    } else {
                        self.silence_run_ms + duration_ms
                    };
                    if run >= cfg.hangover_ms {
                        *self = VadState { confirmed: Classification::Silence, speech_run_ms: 0, silence_run_ms: 0 };
                        boundary = Some(UtteranceBoundary { kind: BoundaryKind::End, timestamp_ms });
                    } else {
                        self.speech_run_ms = 0;
                        self.silence_run_ms = run;
                    }
                }
            },
        }
        (self.confirmed, boundary)
    }

    /// Ends an utterance in progress at once, emitting its end; a pending
    /// start is dropped.
    pub fn force_end(&mut self, timestamp_ms: u64) -> (r: Option<UtteranceBoundary>)
        ensures
            *final(self) == force_end_step(*old(self)).0,
            r == match force_end_step(*old(self)).1 {
                Some(k) => Some(UtteranceBoundary { kind: k, timestamp_ms }),
                None => None,
            },
    {
        let was_speech = match self.confirmed {
            Classification::Speech => true,
            Classification::Silence => false,
        };
        *self = VadState { confirmed: Classification::Silence, speech_run_ms: 0, silence_run_ms: 0 };
        if was_speech {
            Some(UtteranceBoundary { kind: BoundaryKind::End, timestamp_ms })
        } else {
            None
        }
    }

    /// Classifies a captured buffer, scoring it by its peak amplitude.
    pub fn classify_buffer(&mut self, buffer: &AudioBuffer, cfg: &VadConfig) -> (r: (
        Classification,
        Option<UtteranceBoundary>,
    ))
        ensures
            *final(self) == step(*old(self), peak_score(buffer.samples@), buffer.duration(), *cfg).0,
            r.0 == final(self).confirmed,
            r.1 == match step(*old(self), peak_score(buffer.samples@), buffer.duration(), *cfg).1 {
                Some(k) => Some(UtteranceBoundary { kind: k, timestamp_ms: buffer.timestamp_ms }),
                None => None,
            },
    {
        let score = activity_score(&buffer.samples);
        let duration = buffer.duration_ms();
        self.classify(score, duration, buffer.timestamp_ms, cfg)
    }
}

pub open spec fn magnitude(s: i16) -> nat {
    if s < 0 {
        (-(s as int)) as nat
    } else {
        s as nat
    }
}

/// Largest magnitude among the samples.
pub open spec fn peak(samples: Seq<i16>) -> nat
    decreases samples.len(),
{
    if samples.len() == 0 {
        0
    } else {
        let rest = peak(samples.drop_last());
        let m = magnitude(samples.last());
        if m > rest {
            m
        } else {
            rest
        }
    }
}

/// The peak amplitude scaled to `0..=SCORE_SCALE`.
pub open spec fn peak_score(samples: Seq<i16>) -> u32 {
    (peak(samples) * SCORE_SCALE as nat / SAMPLE_PEAK as nat) as u32
}

proof fn lemma_peak_bound(samples: Seq<i16>)
    ensures
        peak(samples) <= SAMPLE_PEAK,
    decreases samples.len(),
{
    if samples.len() > 0 {
        lemma_peak_bound(samples.drop_last());
    }
}

/// Activity score of a window of samples: its peak amplitude in thousandths
/// of full scale.
pub fn activity_score(samples: &Vec<i16>) -> (r: u32)
    ensures
        r == peak_score(samples@),
        r <= SCORE_SCALE,
{
    let mut best: u32 = 0;
    let mut i: usize = 0;
    while i < samples.len()
        invariant
            i <= samples@.len(),
            best as nat == peak(samples@.subrange(0, i as int)),
        decreases samples@.len() - i,
    {
        let s = samples[i];
        let m: u32 = if s < 0 {
            (-(s as i32)) as u32
        } else {
            s as u32
        };
        proof {
            assert(samples@.subrange(0, i + 1).drop_last() =~= samples@.subrange(0, i as int));
        }
        if m > best {
            best = m;
        }
        i = i + 1;
    }
    proof {
        assert(samples@.subrange(0, samples@.len() as int) =~= samples@);
        lemma_peak_bound(samples@);
    }
    let scaled: u64 = (best as u64) * (SCORE_SCALE as u64) / (SAMPLE_PEAK as u64);
    proof {
        assert(best as u64 * 1000 <= 32768 * 1000) by (nonlinear_arith)
            requires
                best <= 32768;
        assert((best as u64 * 1000) / 32768 <= 1000) by (nonlinear_arith)
            requires
                best as u64 * 1000 <= 32768 * 1000;
    }
    scaled as u32
}

impl AudioBuffer {
    pub open spec fn duration(&self) -> u64 {
        if self.sample_rate == 0 {
            0
        } else {
            let ms = self.samples@.len() * 1000 / self.sample_rate as nat;
            if ms > u64::MAX {
                u64::MAX
            } else {
                ms as u64
            }
        }
    }

    /// Duration in whole milliseconds; a buffer without a rate lasts nothing.
    pub fn duration_ms(&self) -> (r: u64)
        ensures
            r == self.duration(),
    {
        if self.sample_rate == 0 {
            0
        } else {
            let n: u128 = self.samples.len() as u128;
            let rate: u128 = self.sample_rate as u128;
            proof {
                assert(n * 1000 <= u64::MAX as u128 * 1000) by (nonlinear_arith)
                    requires
                        n <= u64::MAX,
                ;
            }
            let ms: u128 = n * 1000 / rate;
            if ms > u64::MAX as u128 {
                u64::MAX
            } else {
                ms as u64
            }
        }
    }
}

} // verus!
