//! The remote-injection protocol as a state machine.  The caller performs
//! each requested operation on the target process and reports what happened;
//! the machine decides the next operation.  Every failure releases exactly
//! the resources acquired before it, and the protocol only finishes once
//! nothing is held.

use vstd::prelude::*;

verus! {

/// How long to wait for the loader thread, in milliseconds.
pub const LOADER_WAIT_MS: u32 = 10_000;

/// The wait outcome that means the thread exited.
pub const WAIT_OBJECT_0: u32 = 0;

/// Why an injection failed.
#[derive(Clone, Copy, Debug, PartialEq, Eq, Structural)]
pub enum InjectError {
    /// The target could not be opened.
    OpenFailed,
    /// No region could be allocated in the target for the path.
    AllocFailed,
    /// The path could not be written into the target.
    WriteFailed,
    /// The library-loading entry point could not be found in the target.
    ResolveFailed,
    /// The remote thread could not be created.
    ThreadCreateFailed,
    /// The wait for the remote thread ended otherwise than by its exit; the
    /// wait outcome is kept.
    WaitTimeout(u32),
    /// The loader returned a null module handle: the library did not load
    /// (often a bitness mismatch between the library and the target).
    LibraryLoadFailed,
}

/// Where the protocol stands.
#[derive(Clone, Copy, Debug, PartialEq, Eq, Structural)]
pub enum Stage {
    Opening,
    QueryingBitness,
    Allocating,
    Writing,
    Resolving,
    CreatingThread,
    Waiting,
    ReadingExitCode,
    Releasing,
    Finished,
}

/// An operation the caller performs next.
#[derive(Clone, Copy, Debug, PartialEq, Eq)]
pub enum InjectStep {
    /// Open the target with create-thread, query-information and VM
    /// operate/read/write rights.
    OpenProcess,
    /// Find out whether the target is a 32-bit process.
    QueryBitness,
    /// Allocate a writable region of `bytes` bytes in the target.
    AllocatePath { bytes: usize },
    /// Write the NUL-terminated UTF-16 path into that region.
    WritePath,
    /// Find the library-loading entry point as mapped in the target: through
    /// the target's own loader module when the bitness differs, else the
    /// controller's own address.
    ResolveLoader { cross_bitness: bool },
    /// Start a thread in the target at `start` with the path region as argument.
    CreateThread { start: u64 },
    /// Wait for that thread for at most `timeout_ms`.
    WaitForThread { timeout_ms: u32 },
    /// Read the thread's exit code (the loaded module handle).
    ReadExitCode,
    /// Close the thread handle, free the path region and close the process
    /// handle, for those flagged.
    Release { thread: bool, allocation: bool, process: bool },
    /// The protocol is over.
    Done(Result<(), InjectError>),
}

/// What the caller reports after an operation.
#[derive(Clone, Copy, Debug, PartialEq, Eq)]
pub enum InjectEvent {
    Opened(bool),
    Bitness { target_is_32bit: bool },
    Allocated(bool),
    Written(bool),
    Resolved(Option<u64>),
    ThreadCreated(bool),
    WaitOutcome(u32),
    ExitCode(u32),
    Released,
}

/// State of one injection.
#[derive(Clone, Copy, Debug)]
pub struct Injection {
    pub stage: Stage,
    /// Size of the path buffer in bytes.
    pub path_bytes: usize,
    pub target_is_32bit: bool,
    /// Address of the loader entry point in the target, once resolved.
    pub loader: u64,
    /// The process handle is open.
    pub process: bool,
    /// The path region is allocated in the target.
    pub allocation: bool,
    /// The thread handle is open.
    pub thread: bool,
    /// What to report once everything is released.
    pub outcome: Result<(), InjectError>,
}

impl Injection {
    /// What is held follows from the stage: the process handle from the
    /// bitness query on, the region from the write on, the thread from the
    /// wait on, and nothing once finished.
    pub open spec fn wf(&self) -> bool {
        match self.stage {
            Stage::Opening | Stage::Finished => self.released(),
            Stage::QueryingBitness | Stage::Allocating => self.process && !self.allocation
                && !self.thread,
            Stage::Writing | Stage::Resolving | Stage::CreatingThread => self.process
                && self.allocation && !self.thread,
            Stage::Waiting | Stage::ReadingExitCode => self.process && self.allocation
                && self.thread,
            Stage::Releasing => true,
        }
    }

    /// Nothing is held.
    pub open spec fn released(&self) -> bool {
        !self.process && !self.allocation && !self.thread
    }
}

/// The operation that `s` waits on.
pub open spec fn current_step(s: Injection) -> InjectStep {
    match s.stage {
        Stage::Opening => InjectStep::OpenProcess,
        Stage::QueryingBitness => InjectStep::QueryBitness,
        Stage::Allocating => InjectStep::AllocatePath { bytes: s.path_bytes },
        Stage::Writing => InjectStep::WritePath,
        Stage::Resolving => InjectStep::ResolveLoader { cross_bitness: s.target_is_32bit },
        Stage::CreatingThread => InjectStep::CreateThread { start: s.loader },
        Stage::Waiting => InjectStep::WaitForThread { timeout_ms: LOADER_WAIT_MS },
        Stage::ReadingExitCode => InjectStep::ReadExitCode,
        Stage::Releasing => InjectStep::Release {
            thread: s.thread,
            allocation: s.allocation,
            process: s.process,
        },
        Stage::Finished => InjectStep::Done(s.outcome),
    }
}

/// Ends the protocol with `result`: through a release of what is held, or
/// at once when nothing is.
pub open spec fn finish(s: Injection, result: Result<(), InjectError>) -> (Injection, InjectStep) {
    if s.process || s.allocation || s.thread {
        (
            Injection { stage: Stage::Releasing, outcome: result, ..s },
            InjectStep::Release { thread: s.thread, allocation: s.allocation, process: s.process },
        )
    } else {
        (Injection { stage: Stage::Finished, outcome: result, ..s }, InjectStep::Done(result))
    }
}

/// One transition of the protocol.  An event that does not answer the
/// pending operation changes nothing and the operation is asked again.
pub open spec fn spec_advance(s: Injection, ev: InjectEvent) -> (Injection, InjectStep) {
    match (s.stage, ev) {
        (Stage::Opening, InjectEvent::Opened(ok)) => if ok {
            (
                Injection { stage: Stage::QueryingBitness, process: true, ..s },
                InjectStep::QueryBitness,
            )
        } else {
            finish(s, Err(InjectError::OpenFailed))
        },
        (Stage::QueryingBitness, InjectEvent::Bitness { target_is_32bit }) => (
            Injection { stage: Stage::Allocating, target_is_32bit, ..s },
            InjectStep::AllocatePath { bytes: s.path_bytes },
        ),
        (Stage::Allocating, InjectEvent::Allocated(ok)) => if ok {
            (Injection { stage: Stage::Writing, allocation: true, ..s }, InjectStep::WritePath)
        } else {
            finish(s, Err(InjectError::AllocFailed))
        },
        (Stage::Writing, InjectEvent::Written(ok)) => if ok {
            (
                Injection { stage: Stage::Resolving, ..s },
                InjectStep::ResolveLoader { cross_bitness: s.target_is_32bit },
            )
        } else {
            finish(s, Err(InjectError::WriteFailed))
        },
        (Stage::Resolving, InjectEvent::Resolved(addr)) => match addr {
            Some(start) => (
                Injection { stage: Stage::CreatingThread, loader: start, ..s },
                InjectStep::CreateThread { start },
            ),
            None => finish(s, Err(InjectError::ResolveFailed)),
        },
        (Stage::CreatingThread, InjectEvent::ThreadCreated(ok)) => if ok {
            (
                Injection { stage: Stage::Waiting, thread: true, ..s },
                InjectStep::WaitForThread { timeout_ms: LOADER_WAIT_MS },
            )
        } else {
            finish(s, Err(InjectError::ThreadCreateFailed))
        },
        (Stage::Waiting, InjectEvent::WaitOutcome(code)) => if code == WAIT_OBJECT_0 {
            (Injection { stage: Stage::ReadingExitCode, ..s }, InjectStep::ReadExitCode)
        } else {
            finish(s, Err(InjectError::WaitTimeout(code)))
        },
        (Stage::ReadingExitCode, InjectEvent::ExitCode(code)) => if code == 0 {
            finish(s, Err(InjectError::LibraryLoadFailed))
        } else {
            finish(s, Ok(()))
        },
        (Stage::Releasing, InjectEvent::Released) => (
            Injection {
                stage: Stage::Finished,
                process: false,
                allocation: false,
                thread: false,
                ..s
            },
            InjectStep::Done(s.outcome),
        ),
        _ => (s, current_step(s)),
    }
}

impl Injection {
    /// A fresh injection of a path buffer of `path_units` UTF-16 units
    /// (terminator included), with the first operation to perform.
    pub fn new(path_units: usize) -> (r: (Injection, InjectStep))
        requires
            path_units <= usize::MAX / 2,
        ensures
            r.0.wf(),
            r.0.released(),
            r.0.stage == Stage::Opening,
            r.0.path_bytes == 2 * path_units,
            r.1 == InjectStep::OpenProcess,
    {
        (
            Injection {
                stage: Stage::Opening,
                path_bytes: 2 * path_units,
                target_is_32bit: false,
                loader: 0,
                process: false,
                allocation: false,
                thread: false,
                outcome: Ok(()),
            },
            InjectStep::OpenProcess,
        )
    }

    /// Takes the outcome of the pending operation and returns the next one.
    /// Whenever the next operation is `Done`, nothing is held any more.
    pub fn advance(&mut self, ev: InjectEvent) -> (step: InjectStep)
        requires
            old(self).wf(),
        ensures
            (*final(self), step) == spec_advance(*old(self), ev),
            final(self).wf(),
            step is Done ==> final(self).released(),
            step is Release ==> step == (InjectStep::Release {
                thread: old(self).thread,
                allocation: old(self).allocation,
                process: old(self).process,
            }),
    {
        let s = *self;
        let (next, step) = match (s.stage, ev) {
            (Stage::Opening, InjectEvent::Opened(ok)) => if ok {
                (
                    Injection { stage: Stage::QueryingBitness, process: true, ..s },
                    InjectStep::QueryBitness,
                )
            } else {
                finish_with(s, Err(InjectError::OpenFailed))
            },
            (Stage::QueryingBitness, InjectEvent::Bitness { target_is_32bit }) => (
                Injection { stage: Stage::Allocating, target_is_32bit, ..s },
                InjectStep::AllocatePath { bytes: s.path_bytes },
            ),
            (Stage::Allocating, InjectEvent::Allocated(ok)) => if ok {
                (Injection { stage: Stage::Writing, allocation: true, ..s }, InjectStep::WritePath)
            } else {
                finish_with(s, Err(InjectError::AllocFailed))
            },
            (Stage::Writing, InjectEvent::Written(ok)) => if ok {
                (
                    Injection { stage: Stage::Resolving, ..s },
                    InjectStep::ResolveLoader { cross_bitness: s.target_is_32bit },
                )
            } else {
                finish_with(s, Err(InjectError::WriteFailed))
            },
            (Stage::Resolving, InjectEvent::Resolved(addr)) => match addr {
                Some(start) => (
                    Injection { stage: Stage::CreatingThread, loader: start, ..s },
                    InjectStep::CreateThread { start },
                ),
                None => finish_with(s, Err(InjectError::ResolveFailed)),
            },
            (Stage::CreatingThread, InjectEvent::ThreadCreated(ok)) => if ok {
                (
                    Injection { stage: Stage::Waiting, thread: true, ..s },
                    InjectStep::WaitForThread { timeout_ms: LOADER_WAIT_MS },
                )
            } else {
                finish_with(s, Err(InjectError::ThreadCreateFailed))
            },
            (Stage::Waiting, InjectEvent::WaitOutcome(code)) => if code == WAIT_OBJECT_0 {
                (Injection { stage: Stage::ReadingExitCode, ..s }, InjectStep::ReadExitCode)
            } else {
                finish_with(s, Err(InjectError::WaitTimeout(code)))
            },
            (Stage::ReadingExitCode, InjectEvent::ExitCode(code)) => if code == 0 {
                finish_with(s, Err(InjectError::LibraryLoadFailed))
            } else {
                finish_with(s, Ok(()))
            },
            (Stage::Releasing, InjectEvent::Released) => (
                Injection {
                    stage: Stage::Finished,
                    process: false,
                    allocation: false,
                    thread: false,
                    ..s
                },
                InjectStep::Done(s.outcome),
            ),
            _ => (s, step_of(&s)),
        };
        *self = next;
        step
    }
}

fn finish_with(s: Injection, result: Result<(), InjectError>) -> (r: (Injection, InjectStep))
    ensures
        r == finish(s, result),
{
    if s.process || s.allocation || s.thread {
        (
            Injection { stage: Stage::Releasing, outcome: result, ..s },
            InjectStep::Release { thread: s.thread, allocation: s.allocation, process: s.process },
        )
    } else {
        (Injection { stage: Stage::Finished, outcome: result, ..s }, InjectStep::Done(result))
    }
}

fn step_of(s: &Injection) -> (r: InjectStep)
    ensures
        r == current_step(*s),
{
    match s.stage {
        Stage::Opening => InjectStep::OpenProcess,
        Stage::QueryingBitness => InjectStep::QueryBitness,
        Stage::Allocating => InjectStep::AllocatePath { bytes: s.path_bytes },
        Stage::Writing => InjectStep::WritePath,
        Stage::Resolving => InjectStep::ResolveLoader { cross_bitness: s.target_is_32bit },
        Stage::CreatingThread => InjectStep::CreateThread { start: s.loader },
        Stage::Waiting => InjectStep::WaitForThread { timeout_ms: LOADER_WAIT_MS },
        Stage::ReadingExitCode => InjectStep::ReadExitCode,
        Stage::Releasing => InjectStep::Release {
            thread: s.thread,
            allocation: s.allocation,
            process: s.process,
        },
        Stage::Finished => InjectStep::Done(s.outcome),
    }
}

/// UTF-16 code units of one character: one unit below U+10000, else a
/// surrogate pair.
pub open spec fn utf16_of_char(c: char) -> Seq<u16> {
    let v = c as u32;
    if v < 0x10000 {
        seq![v as u16]
    } else {
        let u = (v - 0x10000) as u32;
        seq![(0xD800 + u / 0x400) as u16, (0xDC00 + u % 0x400) as u16]
    }
}

/// UTF-16 code units of a string.
pub open spec fn utf16_of(s: Seq<char>) -> Seq<u16>
    decreases s.len(),
{
    if s.len() == 0 {
        Seq::empty()
    } else {
        utf16_of(s.drop_last()) + utf16_of_char(s.last())
    }
}

/// Relies on `str::encode_utf16`: the UTF-16 encoding of the string, one
/// unit per character below U+10000 and a surrogate pair for the others.
#[verifier::external_body]
fn encode_utf16(s: &str) -> (r: Vec<u16>)
    ensures
        r@ == utf16_of(s@),
{
    s.encode_utf16().collect()
}

/// The buffer written into the target: the path in UTF-16, NUL-terminated.
pub fn remote_path_buffer(path: &str) -> (r: Vec<u16>)
    ensures
        r@ == utf16_of(path@).push(0),
{
    let mut units = encode_utf16(path);
    units.push(0);
    units
}

} // verus!
