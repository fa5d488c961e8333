//! Discovery of the encoder that the transport creates during negotiation.
//!
//! The transport signals no completion: discovery probes the factory up to a
//! number of attempts, with a pause between two attempts. This module decides
//! after each probe whether to stop or to wait and probe again; the caller
//! performs the probe and the pause (by sleeping the thread, or by suspending
//! a task), so that one state machine serves both disciplines.
use crate::passthrough_video_source::PassthroughError;
use vstd::prelude::*;

verus! {

/// Attempts of the default policy.
pub const DEFAULT_MAX_ATTEMPTS: u32 = 50;

/// Pause between two attempts of the default policy, in milliseconds.
pub const DEFAULT_INTERVAL_MS: u64 = 100;

/// What to do after a probe.
#[derive(Debug, Clone, Copy, PartialEq, Eq, Structural)]
pub enum DiscoveryStep {
    /// The encoder is bound: discovery is over.
    Bound,
    /// Wait this many milliseconds, then probe again.
    Wait(u64),
    /// Discovery is over without an encoder.
    Failed(PassthroughError),
}

/// The mathematical value of a discovery.
pub struct DiscoveryView {
    pub max_attempts: nat,
    pub interval_ms: u64,
    /// Probes made so far.
    pub attempts: nat,
    pub finished: bool,
}

impl DiscoveryView {
    /// Whether a probe is due.
    pub open spec fn can_probe(self) -> bool {
        !self.finished && self.attempts < self.max_attempts
    }

    /// The discovery after a probe that returned `probe`, and what to do next.
    ///
    /// `NoEncoder` is the one transient outcome: it asks for a pause while an
    /// attempt is left, and ends in `DiscoveryTimeout` after the last one. Any
    /// other failure ends discovery with that failure.
    pub open spec fn on_probe(self, probe: Result<(), PassthroughError>) -> (Self, DiscoveryStep) {
        let d = DiscoveryView { attempts: self.attempts + 1, ..self };
        match probe {
            Ok(()) => (DiscoveryView { finished: true, ..d }, DiscoveryStep::Bound),
            Err(PassthroughError::NoEncoder) => {
                if d.attempts < d.max_attempts {
                    (d, DiscoveryStep::Wait(self.interval_ms))
                } else {
                    (
                        DiscoveryView { finished: true, ..d },
                        DiscoveryStep::Failed(PassthroughError::DiscoveryTimeout),
                    )
                }
            },
            Err(e) => (DiscoveryView { finished: true, ..d }, DiscoveryStep::Failed(e)),
        }
    }
}

/// A discovery in progress: its attempt budget, its pause, and the probes made.
pub struct EncoderDiscovery {
    max_attempts: u32,
    interval_ms: u64,
    attempts: u32,
    finished: bool,
}

impl View for EncoderDiscovery {
    type V = DiscoveryView;

    closed spec fn view(&self) -> DiscoveryView {
        DiscoveryView {
            max_attempts: self.max_attempts as nat,
            interval_ms: self.interval_ms,
            attempts: self.attempts as nat,
            finished: self.finished,
        }
    }
}

impl EncoderDiscovery {
    /// A discovery of at most `max_attempts` probes, `interval_ms` apart.
    pub fn new(max_attempts: u32, interval_ms: u64) -> (r: Self)
        ensures
            r@ == (DiscoveryView {
                max_attempts: max_attempts as nat,
                interval_ms,
                attempts: 0,
                finished: false,
            }),
    {
        EncoderDiscovery { max_attempts, interval_ms, attempts: 0, finished: false }
    }

    /// Whether a probe is due: discovery is not over and an attempt is left.
    pub fn should_probe(&self) -> (r: bool)
        ensures
            r == self@.can_probe(),
    {
        !self.finished && self.attempts < self.max_attempts
    }

    /// Probes made so far.
    pub fn attempts(&self) -> (r: u32)
        ensures
            r == self@.attempts,
    {
        self.attempts
    }

    /// Records the outcome of a probe and says what to do next.
    pub fn on_probe(&mut self, probe: Result<(), PassthroughError>) -> (r: DiscoveryStep)
        requires
            old(self)@.can_probe(),
        ensures
            (final(self)@, r) == old(self)@.on_probe(probe),
            final(self)@.attempts <= final(self)@.max_attempts,
    {
        self.attempts = self.attempts + 1;
        match probe {
            Ok(()) => {
                self.finished = true;
                DiscoveryStep::Bound
            },
            Err(PassthroughError::NoEncoder) => {
                if self.attempts < self.max_attempts {
                    DiscoveryStep::Wait(self.interval_ms)
                } else {
                    self.finished = true;
                    DiscoveryStep::Failed(PassthroughError::DiscoveryTimeout)
                }
            },
            Err(e) => {
                self.finished = true;
                DiscoveryStep::Failed(e)
            },
        }
    }
}

impl Default for EncoderDiscovery {
    /// Up to 50 probes, 100 ms apart: about 5 s in all.
    fn default() -> (r: Self)
        ensures
            r@ == (DiscoveryView {
                max_attempts: DEFAULT_MAX_ATTEMPTS as nat,
                interval_ms: DEFAULT_INTERVAL_MS,
                attempts: 0,
                finished: false,
            }),
    {
        Self::new(DEFAULT_MAX_ATTEMPTS, DEFAULT_INTERVAL_MS)
    }
}

/// With a budget of one attempt, a factory that has no encoder is probed once:
/// discovery then ends in `DiscoveryTimeout` with no pause asked for and no
/// probe left.
pub proof fn lemma_single_attempt_gives_up(interval_ms: u64)
    ensures
        ({
            let d = DiscoveryView { max_attempts: 1, interval_ms, attempts: 0, finished: false };
            let (d2, step) = d.on_probe(Err(PassthroughError::NoEncoder));
            &&& d.can_probe()
            &&& step == DiscoveryStep::Failed(PassthroughError::DiscoveryTimeout)
            &&& d2.attempts == 1
            &&& !d2.can_probe()
        }),
{
}

/// A pause is asked for only while another probe is due, and it is the
/// discovery's interval: no probe is ever followed by a pause that leads nowhere.
pub proof fn lemma_wait_only_before_another_probe(d: DiscoveryView, probe: Result<(), PassthroughError>)
    requires
        d.can_probe(),
    ensures
        d.on_probe(probe).1 matches DiscoveryStep::Wait(ms) ==> ms == d.interval_ms
            && d.on_probe(probe).0.can_probe(),
        !(d.on_probe(probe).1 is Wait) ==> !d.on_probe(probe).0.can_probe(),
{
}

} // verus!
