//! The recorder service: a two-state session lifecycle (idle or recording)
//! with a single-consumer chunk hand-off and a single in-flight streaming
//! session slot. The hardware capture thread, the chunk channel and the
//! readiness handshake run in the surrounding application; their outcomes are
//! fed in as events, and every decision about them is made — and checked —
//! here.

use vstd::prelude::*;
use vstd::string::StringExecFns;

use crate::errors::AppError;

verus! {

/// What a caller asks a recording session for.
#[derive(Debug, Clone)]
pub struct RecorderRequest {
    /// Desired sample rate; must be positive.
    pub sample_rate: u32,
    /// Preferred input device name, if any.
    pub input_device: Option<String>,
}

/// What the readiness handshake of the capture thread delivered: the
/// negotiated sample rate, an initialization failure, or nothing within the
/// bounded wait.
#[derive(Debug)]
pub enum ReadyOutcome {
    Ready(u32),
    Failed(AppError),
    TimedOut,
}

/// One in-flight capture session: when it started and whether the chunk
/// receiver was already handed to a consumer.
pub enum RecorderState {
    Idle,
    Recording { started_at_ms: u64, receiver_taken: bool },
}

/// Owns at most one capture session and at most one streaming-session slot.
pub struct RecorderService {
    pub state: RecorderState,
    pub session_attached: bool,
}

impl RecorderService {
    /// A fresh service: idle, no streaming session attached.
    pub fn new() -> (r: RecorderService)
        ensures
            r.state is Idle,
            !r.session_attached,
    {
        RecorderService { state: RecorderState::Idle, session_attached: false }
    }

    /// Non-blocking snapshot: is a capture session in flight?
    pub fn is_recording(&self) -> (r: bool)
        ensures
            r == (self.state is Recording),
    {
        match self.state {
            RecorderState::Recording { .. } => true,
            RecorderState::Idle => false,
        }
    }

    /// Begins a session from the readiness handshake's outcome. While a
    /// session is already in flight this fails busy and changes nothing.
    /// Otherwise the session starts exactly when the handshake delivered a
    /// rate: that rate is returned, and the receiver is not yet taken. A
    /// failed or timed-out handshake leaves the service idle and returns the
    /// initialization error.
    pub fn start(&mut self, ready: ReadyOutcome, now_ms: u64) -> (r: Result<u32, AppError>)
        ensures
            old(self).state is Recording ==> (r matches Err(AppError::RecorderBusy)) && *final(self)
                == *old(self),
            old(self).state is Idle ==> match ready {
                ReadyOutcome::Ready(rate) => r == Ok::<u32, AppError>(rate) && final(self).state
                    == (RecorderState::Recording { started_at_ms: now_ms, receiver_taken: false }),
                ReadyOutcome::Failed(e) => r == Err::<u32, AppError>(e) && final(self).state
                    is Idle,
                ReadyOutcome::TimedOut => (r matches Err(AppError::AudioInit(m)) && m@
                    == "audio device initialization timed out"@) && final(self).state is Idle,
            },
            final(self).session_attached == old(self).session_attached,
    {
        if self.is_recording() {
            return Err(AppError::RecorderBusy);
        }
        match ready {
            ReadyOutcome::Ready(rate) => {
                self.state = RecorderState::Recording {
                    started_at_ms: now_ms,
                    receiver_taken: false,
                };
                Ok(rate)
            },
            ReadyOutcome::Failed(e) => Err(e),
            ReadyOutcome::TimedOut => Err(
                AppError::AudioInit(String::from_str("audio device initialization timed out")),
            ),
        }
    }

    /// Claims the chunk receiver. It can be claimed exactly once per
    /// session, and only while recording: a second claim, or a claim while
    /// idle, yields false and changes nothing.
    pub fn take_receiver(&mut self) -> (r: bool)
        ensures
            r == (old(self).state matches RecorderState::Recording { receiver_taken, .. }
                && !receiver_taken),
            final(self).state is Recording <==> old(self).state is Recording,
            old(self).state matches RecorderState::Recording { started_at_ms, receiver_taken }
                ==> final(self).state == (RecorderState::Recording {
                started_at_ms,
                receiver_taken: true,
            }),
            old(self).state is Idle ==> final(self).state == old(self).state,
            final(self).session_attached == old(self).session_attached,
    {
        match self.state {
            RecorderState::Recording { started_at_ms, receiver_taken } => {
                self.state = RecorderState::Recording { started_at_ms, receiver_taken: true };
                !receiver_taken
            },
            RecorderState::Idle => false,
        }
    }

    /// Ends the in-flight session and reports its wall-clock duration in
    /// milliseconds (zero if the clock ran backwards). Stopping while idle
    /// fails with the not-running error and changes nothing.
    pub fn stop(&mut self, now_ms: u64) -> (r: Result<u64, AppError>)
        ensures
            old(self).state is Idle ==> (r matches Err(AppError::RecorderNotRunning)) && *final(self)
                == *old(self),
            old(self).state matches RecorderState::Recording { started_at_ms, .. } ==> r == Ok::<
                u64,
                AppError,
            >(
                if now_ms >= started_at_ms {
                    (now_ms - started_at_ms) as u64
                } else {
                    0u64
                },
            ) && final(self).state is Idle,
            final(self).session_attached == old(self).session_attached,
    {
        match self.state {
            RecorderState::Recording { started_at_ms, .. } => {
                self.state = RecorderState::Idle;
                if now_ms >= started_at_ms {
                    Ok(now_ms - started_at_ms)
                } else {
                    Ok(0)
                }
            },
            RecorderState::Idle => Err(AppError::RecorderNotRunning),
        }
    }

    /// Records that a streaming session now runs in the background. At most
    /// one may be outstanding: attaching over one fails busy and changes
    /// nothing.
    pub fn attach_session(&mut self) -> (r: Result<(), AppError>)
        ensures
            old(self).session_attached ==> (r matches Err(AppError::RecorderBusy)) && *final(self)
                == *old(self),
            !old(self).session_attached ==> r is Ok && final(self).session_attached,
            final(self).state == old(self).state,
    {
        if self.session_attached {
            return Err(AppError::RecorderBusy);
        }
        self.session_attached = true;
        Ok(())
    }

    /// Claims the outstanding streaming session, if any; the slot is empty
    /// afterwards either way.
    pub fn take_session(&mut self) -> (r: bool)
        ensures
            r == old(self).session_attached,
            !final(self).session_attached,
            final(self).state == old(self).state,
    {
        let had = self.session_attached;
        self.session_attached = false;
        had
    }
}

} // verus!
