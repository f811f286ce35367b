//! The capture mode of a thread.

use vstd::prelude::*;

use crate::driver::{into_result, ActionOf, DriverError, Reply, Step, StepOf, StepSpec};
use crate::handle::{
    CUstreamCaptureMode, CUDA_ERROR_INVALID_VALUE, CU_STREAM_CAPTURE_MODE_GLOBAL,
    CU_STREAM_CAPTURE_MODE_RELAXED, CU_STREAM_CAPTURE_MODE_THREAD_LOCAL,
};

verus! {

/// Controls how a stream capture sequence interacts with other API calls.
#[derive(Debug, Clone, Copy, PartialEq, Eq, Hash, Structural)]
pub enum CaptureMode {
    Global,
    ThreadLocal,
    Relaxed,
}

impl View for CaptureMode {
    type V = CaptureMode;

    open spec fn view(&self) -> CaptureMode {
        *self
    }
}

impl CaptureMode {
    /// The driver's value for this mode.
    pub open spec fn raw(self) -> CUstreamCaptureMode {
        match self {
            CaptureMode::Global => CU_STREAM_CAPTURE_MODE_GLOBAL,
            CaptureMode::ThreadLocal => CU_STREAM_CAPTURE_MODE_THREAD_LOCAL,
            CaptureMode::Relaxed => CU_STREAM_CAPTURE_MODE_RELAXED,
        }
    }

    /// The mode for a driver's value, where there is one.
    pub open spec fn of_raw(raw: CUstreamCaptureMode) -> Option<CaptureMode> {
        if raw == CU_STREAM_CAPTURE_MODE_GLOBAL {
            Some(CaptureMode::Global)
        } else if raw == CU_STREAM_CAPTURE_MODE_THREAD_LOCAL {
            Some(CaptureMode::ThreadLocal)
        } else if raw == CU_STREAM_CAPTURE_MODE_RELAXED {
            Some(CaptureMode::Relaxed)
        } else {
            None
        }
    }

    /// The driver's value for this mode.
    pub fn to_cuda(self) -> (raw: CUstreamCaptureMode)
        ensures
            raw == self.raw(),
    {
        match self {
            CaptureMode::Global => CU_STREAM_CAPTURE_MODE_GLOBAL,
            CaptureMode::ThreadLocal => CU_STREAM_CAPTURE_MODE_THREAD_LOCAL,
            CaptureMode::Relaxed => CU_STREAM_CAPTURE_MODE_RELAXED,
        }
    }

    /// The mode for a driver's value, where there is one.
    pub fn from_cuda(mode: CUstreamCaptureMode) -> (parsed: Option<CaptureMode>)
        ensures
            parsed == Self::of_raw(mode),
    {
        if mode == CU_STREAM_CAPTURE_MODE_GLOBAL {
            Some(CaptureMode::Global)
        } else if mode == CU_STREAM_CAPTURE_MODE_THREAD_LOCAL {
            Some(CaptureMode::ThreadLocal)
        } else if mode == CU_STREAM_CAPTURE_MODE_RELAXED {
            Some(CaptureMode::Relaxed)
        } else {
            None
        }
    }
}

/// The steps of exchanging the thread's capture mode for `mode`. The result is the mode that it
/// replaces; a mode that the library does not know is an invalid value.
pub open spec fn exchange(mode: CaptureMode, replies: Seq<Reply>) -> StepSpec<CaptureMode> {
    if replies.len() == 0 {
        StepOf::Perform(ActionOf::ThreadExchangeStreamCaptureMode { mode: mode.raw() })
    } else {
        StepOf::Done(
            match (
                crate::driver::result_of(replies[0].code),
                CaptureMode::of_raw(replies[0].value),
            ) {
                (Err(error), _) => Err(error),
                (Ok(()), Some(previous)) => Ok(previous),
                (Ok(()), None) => Err(DriverError(CUDA_ERROR_INVALID_VALUE)),
            },
        )
    }
}

/// Sets the calling thread's capture mode and returns the one it had.
pub fn thread_exchange_capture_mode(mode: CaptureMode, replies: &[Reply]) -> (step: Step<
    CaptureMode,
>)
    ensures
        step@ == exchange(mode, replies@),
{
    if replies.len() == 0 {
        return StepOf::Perform(
            ActionOf::ThreadExchangeStreamCaptureMode { mode: mode.to_cuda() },
        );
    }
    if let Err(error) = into_result(replies[0].code) {
        return StepOf::Done(Err(error));
    }
    match CaptureMode::from_cuda(replies[0].value) {
        Some(previous) => StepOf::Done(Ok(previous)),
        None => StepOf::Done(Err(DriverError(CUDA_ERROR_INVALID_VALUE))),
    }
}

/// Holds the thread in a capture mode, and remembers the mode it had before.
#[derive(Debug)]
pub struct CaptureModeGuard {
    prev: CaptureMode,
}

impl View for CaptureModeGuard {
    type V = CaptureMode;

    /// The mode that the guard will restore.
    closed spec fn view(&self) -> CaptureMode {
        self.prev
    }
}

impl CaptureModeGuard {
    /// The steps of releasing a guard that restores `previous`. Its outcome is not looked at.
    pub open spec fn release_steps(previous: CaptureMode, replies: Seq<Reply>) -> StepSpec<()> {
        if replies.len() == 0 {
            StepOf::Perform(ActionOf::ThreadExchangeStreamCaptureMode { mode: previous.raw() })
        } else {
            StepOf::Done(Ok(()))
        }
    }

    /// Puts the calling thread into `mode`.
    pub fn new(mode: CaptureMode, replies: &[Reply]) -> (step: Step<CaptureModeGuard>)
        ensures
            step@ == exchange(mode, replies@),
    {
        match thread_exchange_capture_mode(mode, replies) {
            StepOf::Perform(action) => StepOf::Perform(action),
            StepOf::Done(Ok(prev)) => StepOf::Done(Ok(CaptureModeGuard { prev })),
            StepOf::Done(Err(error)) => StepOf::Done(Err(error)),
        }
    }

    /// Restores the mode that the thread had before. To be run when the guard goes out of use.
    pub fn release(&self, replies: &[Reply]) -> (step: Step<()>)
        ensures
            step@ == Self::release_steps(self@, replies@),
    {
        match thread_exchange_capture_mode(self.prev, replies) {
            StepOf::Perform(action) => StepOf::Perform(action),
            StepOf::Done(_) => StepOf::Done(Ok(())),
        }
    }
}

} // verus!
