//! The agent's attach sequence as a state machine: identify the build,
//! create the ring, install the diversions, announce readiness, then try to
//! subclass the game window a bounded number of times.  The caller performs
//! each step and reports its outcome.  Readiness is only ever announced
//! after both diversions are installed.

use vstd::prelude::*;

verus! {

/// Attempts at subclassing the game window.
pub const WINDOW_ATTEMPTS: u32 = 20;

/// Pause between two attempts, in milliseconds.
pub const WINDOW_RETRY_MS: u32 = 500;

/// Exit code of a complete attach.
pub const EXIT_OK: u32 = 0;

/// Exit code when the build is not supported or cannot be read.
pub const EXIT_UNSUPPORTED: u32 = 1;

/// Exit code when the ring cannot be created.
pub const EXIT_RING_FAILED: u32 = 2;

/// Exit code when the diversions cannot be installed.
pub const EXIT_HOOKS_FAILED: u32 = 3;

/// Where the attach sequence stands.
#[derive(Clone, Copy, Debug, PartialEq, Eq, Structural)]
pub enum AttachStage {
    Detecting,
    CreatingRing,
    Installing,
    Announcing,
    Subclassing,
    Pausing,
    ReleasingRing,
    Finished,
}

/// A step for the caller to perform.
#[derive(Clone, Copy, Debug, PartialEq, Eq)]
pub enum AttachStep {
    /// Identify the build of the target.
    DetectBuild,
    /// Create the ring for `build`.
    CreateRing { build: u32 },
    /// Install both diversions.
    InstallHooks,
    /// Set `agent_ready` to 1.
    SetReady,
    /// Try to subclass the game window.
    SubclassWindow,
    /// Sleep before the next attempt.
    Pause { ms: u32 },
    /// Unmap the ring and close its handle.
    ReleaseRing,
    /// The attach thread ends with this exit code.
    Finish(u32),
}

/// The outcome of the step performed.
#[derive(Clone, Copy, Debug, PartialEq, Eq)]
pub enum AttachEvent {
    Detected(Option<u32>),
    RingCreated(bool),
    HooksInstalled(bool),
    ReadySet,
    Subclassed(bool),
    Paused,
    RingReleased,
}

/// State of the attach sequence.
#[derive(Clone, Copy, Debug)]
pub struct Attach {
    pub stage: AttachStage,
    pub build: u32,
    /// The ring exists.
    pub ring: bool,
    /// Both diversions are installed.
    pub hooks: bool,
    /// `agent_ready` has been set.
    pub ready: bool,
    /// Subclassing attempts made so far.
    pub attempts: u32,
    /// Exit code once finished.
    pub exit_code: u32,
}

impl Attach {
    /// What exists follows from the stage: the ring from its creation on,
    /// the diversions from their installation on, readiness only after
    /// both; a failed attach ends with nothing announced, and a failed
    /// installation ends with the ring released.
    pub open spec fn wf(&self) -> bool {
        &&& self.attempts <= WINDOW_ATTEMPTS
        &&& match self.stage {
            AttachStage::Detecting | AttachStage::CreatingRing => !self.ring && !self.hooks
                && !self.ready && self.attempts == 0,
            AttachStage::Installing => self.ring && !self.hooks && !self.ready && self.attempts
                == 0,
            AttachStage::Announcing => self.ring && self.hooks && !self.ready && self.attempts
                == 0,
            AttachStage::Subclassing => self.ring && self.hooks && self.ready && self.attempts
                < WINDOW_ATTEMPTS,
            AttachStage::Pausing => self.ring && self.hooks && self.ready && self.attempts
                < WINDOW_ATTEMPTS,
            AttachStage::ReleasingRing => self.ring && !self.hooks && !self.ready
                && self.exit_code == EXIT_HOOKS_FAILED,
            AttachStage::Finished => if self.exit_code == EXIT_OK {
                self.ring && self.hooks && self.ready
            } else {
                !self.hooks && !self.ready && (self.exit_code != EXIT_RING_FAILED
                    || !self.ring) && (self.exit_code == EXIT_HOOKS_FAILED ==> !self.ring)
            },
        }
    }

    /// A fresh sequence and its first step.
    pub fn new() -> (r: (Attach, AttachStep))
        ensures
            r.0.wf(),
            !r.0.ring && !r.0.hooks && !r.0.ready,
            r.0.stage == AttachStage::Detecting,
            r.1 == AttachStep::DetectBuild,
    {
        (
            Attach {
                stage: AttachStage::Detecting,
                build: 0,
                ring: false,
                hooks: false,
                ready: false,
                attempts: 0,
                exit_code: 0,
            },
            AttachStep::DetectBuild,
        )
    }
}

/// The step that `s` waits on.
pub open spec fn pending_step(s: Attach) -> AttachStep {
    match s.stage {
        AttachStage::Detecting => AttachStep::DetectBuild,
        AttachStage::CreatingRing => AttachStep::CreateRing { build: s.build },
        AttachStage::Installing => AttachStep::InstallHooks,
        AttachStage::Announcing => AttachStep::SetReady,
        AttachStage::Subclassing => AttachStep::SubclassWindow,
        AttachStage::Pausing => AttachStep::Pause { ms: WINDOW_RETRY_MS },
        AttachStage::ReleasingRing => AttachStep::ReleaseRing,
        AttachStage::Finished => AttachStep::Finish(s.exit_code),
    }
}

/// One transition.  An event that does not answer the pending step changes
/// nothing and the step is asked again.
pub open spec fn spec_attach_advance(s: Attach, ev: AttachEvent) -> (Attach, AttachStep) {
    match (s.stage, ev) {
        (AttachStage::Detecting, AttachEvent::Detected(found)) => match found {
            Some(build) => (
                Attach { stage: AttachStage::CreatingRing, build, ..s },
                AttachStep::CreateRing { build },
            ),
            None => (
                Attach { stage: AttachStage::Finished, exit_code: EXIT_UNSUPPORTED, ..s },
                AttachStep::Finish(EXIT_UNSUPPORTED),
            ),
        },
        (AttachStage::CreatingRing, AttachEvent::RingCreated(ok)) => if ok {
            (Attach { stage: AttachStage::Installing, ring: true, ..s }, AttachStep::InstallHooks)
        } else {
            (
                Attach { stage: AttachStage::Finished, exit_code: EXIT_RING_FAILED, ..s },
                AttachStep::Finish(EXIT_RING_FAILED),
            )
        },
        (AttachStage::Installing, AttachEvent::HooksInstalled(ok)) => if ok {
            (Attach { stage: AttachStage::Announcing, hooks: true, ..s }, AttachStep::SetReady)
        } else {
            (
                Attach { stage: AttachStage::ReleasingRing, exit_code: EXIT_HOOKS_FAILED, ..s },
                AttachStep::ReleaseRing,
            )
        },
        (AttachStage::Announcing, AttachEvent::ReadySet) => (
            Attach { stage: AttachStage::Subclassing, ready: true, ..s },
            AttachStep::SubclassWindow,
        ),
        (AttachStage::Subclassing, AttachEvent::Subclassed(ok)) => if ok || s.attempts + 1
            >= WINDOW_ATTEMPTS {
            (
                Attach {
                    stage: AttachStage::Finished,
                    attempts: (s.attempts + 1) as u32,
                    exit_code: EXIT_OK,
                    ..s
                },
                AttachStep::Finish(EXIT_OK),
            )
        } else {
            (
                Attach { stage: AttachStage::Pausing, attempts: (s.attempts + 1) as u32, ..s },
                AttachStep::Pause { ms: WINDOW_RETRY_MS },
            )
        },
        (AttachStage::Pausing, AttachEvent::Paused) => (
            Attach { stage: AttachStage::Subclassing, ..s },
            AttachStep::SubclassWindow,
        ),
        (AttachStage::ReleasingRing, AttachEvent::RingReleased) => (
            Attach { stage: AttachStage::Finished, ring: false, ..s },
            AttachStep::Finish(s.exit_code),
        ),
        _ => (s, pending_step(s)),
    }
}

fn pending(s: &Attach) -> (r: AttachStep)
    ensures
        r == pending_step(*s),
{
    match s.stage {
        AttachStage::Detecting => AttachStep::DetectBuild,
        AttachStage::CreatingRing => AttachStep::CreateRing { build: s.build },
        AttachStage::Installing => AttachStep::InstallHooks,
        AttachStage::Announcing => AttachStep::SetReady,
        AttachStage::Subclassing => AttachStep::SubclassWindow,
        AttachStage::Pausing => AttachStep::Pause { ms: WINDOW_RETRY_MS },
        AttachStage::ReleasingRing => AttachStep::ReleaseRing,
        AttachStage::Finished => AttachStep::Finish(s.exit_code),
    }
}

impl Attach {
    /// Takes the outcome of the pending step and returns the next one.
    /// `SetReady` is only ever asked for once both diversions are installed,
    /// and a failed installation releases the ring before finishing.
    pub fn advance(&mut self, ev: AttachEvent) -> (step: AttachStep)
        requires
            old(self).wf(),
        ensures
            (*final(self), step) == spec_attach_advance(*old(self), ev),
            final(self).wf(),
            step is SetReady ==> final(self).hooks && final(self).ring,
            step is Finish && final(self).exit_code != EXIT_OK ==> !final(self).ready,
            step is Finish && final(self).exit_code == EXIT_HOOKS_FAILED ==> !final(self).ring,
    {
        let s = *self;
        let (next, step) = match (s.stage, ev) {
            (AttachStage::Detecting, AttachEvent::Detected(found)) => match found {
                Some(build) => (
                    Attach { stage: AttachStage::CreatingRing, build, ..s },
                    AttachStep::CreateRing { build },
                ),
                None => (
                    Attach { stage: AttachStage::Finished, exit_code: EXIT_UNSUPPORTED, ..s },
                    AttachStep::Finish(EXIT_UNSUPPORTED),
                ),
            },
            (AttachStage::CreatingRing, AttachEvent::RingCreated(ok)) => if ok {
                (
                    Attach { stage: AttachStage::Installing, ring: true, ..s },
                    AttachStep::InstallHooks,
                )
            } else {
                (
                    Attach { stage: AttachStage::Finished, exit_code: EXIT_RING_FAILED, ..s },
                    AttachStep::Finish(EXIT_RING_FAILED),
                )
            },
            (AttachStage::Installing, AttachEvent::HooksInstalled(ok)) => if ok {
                (Attach { stage: AttachStage::Announcing, hooks: true, ..s }, AttachStep::SetReady)
            } else {
                (
                    Attach {
                        stage: AttachStage::ReleasingRing,
                        exit_code: EXIT_HOOKS_FAILED,
                        ..s
                    },
                    AttachStep::ReleaseRing,
                )
            },
            (AttachStage::Announcing, AttachEvent::ReadySet) => (
                Attach { stage: AttachStage::Subclassing, ready: true, ..s },
                AttachStep::SubclassWindow,
            ),
            (AttachStage::Subclassing, AttachEvent::Subclassed(ok)) => if ok || s.attempts + 1
                >= WINDOW_ATTEMPTS {
                (
                    Attach {
                        stage: AttachStage::Finished,
                        attempts: s.attempts + 1,
                        exit_code: EXIT_OK,
                        ..s
                    },
                    AttachStep::Finish(EXIT_OK),
                )
            } else {
                (
                    Attach { stage: AttachStage::Pausing, attempts: s.attempts + 1, ..s },
                    AttachStep::Pause { ms: WINDOW_RETRY_MS },
                )
            },
            (AttachStage::Pausing, AttachEvent::Paused) => (
                Attach { stage: AttachStage::Subclassing, ..s },
                AttachStep::SubclassWindow,
            ),
            (AttachStage::ReleasingRing, AttachEvent::RingReleased) => (
                Attach { stage: AttachStage::Finished, ring: false, ..s },
                AttachStep::Finish(s.exit_code),
            ),
            _ => (s, pending(&s)),
        };
        *self = next;
        step
    }
}

} // verus!
