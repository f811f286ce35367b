//! Streams, and the capture of the work enqueued on them into a graph.

use std::sync::Arc;
use vstd::prelude::*;

use crate::capture::CaptureMode;
use crate::driver::{
    into_result, ActionOf, CudaContext, Owned, Progress, Reply, Step, StepOf, StepSpec,
};
use crate::graph::CudaGraph;
use crate::handle::{CUgraph, CUstream, CU_STREAM_CAPTURE_STATUS_NONE};

verus! {

/// A stream of device work.
#[derive(Debug, PartialEq, Eq)]
pub struct CudaStream {
    cu_stream: CUstream,
    ctx: Arc<CudaContext>,
}

impl View for CudaStream {
    type V = Owned<CUstream>;

    closed spec fn view(&self) -> Owned<CUstream> {
        Owned { handle: self.cu_stream, ctx: self.ctx }
    }
}

impl CudaStream {
    /// The stream that the driver knows under `cu_stream` in `ctx`.
    pub fn from_raw(cu_stream: CUstream, ctx: &Arc<CudaContext>) -> (stream: Self)
        ensures
            stream@ == (Owned { handle: cu_stream, ctx: *ctx }),
    {
        CudaStream { cu_stream, ctx: ctx.clone() }
    }

    pub fn cu_stream(&self) -> (cu_stream: CUstream)
        ensures
            cu_stream == self@.handle,
    {
        self.cu_stream
    }

    /// The steps of beginning a capture on `stream`.
    pub open spec fn capture_begin(
        stream: Owned<CUstream>,
        mode: CaptureMode,
        replies: Seq<Reply>,
    ) -> StepSpec<()> {
        crate::driver::bind_then(
            stream.ctx,
            ActionOf::StreamBeginCapture { stream: stream.handle, mode: mode.raw() },
            crate::driver::checked(),
            replies,
        )
    }

    /// The steps of ending the capture on `stream`.
    pub open spec fn capture_end(stream: Owned<CUstream>, replies: Seq<Reply>) -> StepSpec<
        Owned<CUgraph>,
    > {
        crate::driver::bind_then(
            stream.ctx,
            ActionOf::StreamEndCapture { stream: stream.handle },
            crate::driver::on_success(
                |reply: Reply| Owned { handle: CUgraph(reply.handle), ctx: stream.ctx },
            ),
            replies,
        )
    }

    /// The steps of asking whether a capture is under way on `stream`.
    pub open spec fn capture_query(stream: Owned<CUstream>, replies: Seq<Reply>) -> StepSpec<
        bool,
    > {
        crate::driver::bind_then(
            stream.ctx,
            ActionOf::StreamIsCapturing { stream: stream.handle },
            crate::driver::on_success(
                |reply: Reply| reply.value != CU_STREAM_CAPTURE_STATUS_NONE,
            ),
            replies,
        )
    }
}

/// Capturing the work enqueued on a stream into a graph.
pub trait CudaStreamCaptureExt {
    /// Begins to capture what is enqueued on the stream.
    fn begin_capture(&self, mode: CaptureMode, replies: &[Reply]) -> Step<()>;

    /// Ends the capture; the result is the graph of what was enqueued since it began.
    fn end_capture(&self, replies: &[Reply]) -> Step<CudaGraph>;

    /// Whether a capture, valid or not, is under way.
    fn is_capturing(&self, replies: &[Reply]) -> Step<bool>;
}

impl CudaStreamCaptureExt for CudaStream {
    fn begin_capture(&self, mode: CaptureMode, replies: &[Reply]) -> (step: Step<()>)
        ensures
            step@ == CudaStream::capture_begin(self@, mode, replies@),
    {
        match Progress::after(replies) {
            Progress::Unbound => StepOf::Perform(ActionOf::BindToThread { ctx: self.ctx.clone() }),
            Progress::Failed(error) => StepOf::Done(Err(error)),
            Progress::Bound => StepOf::Perform(
                ActionOf::StreamBeginCapture { stream: self.cu_stream, mode: mode.to_cuda() },
            ),
            Progress::Answered(reply) => StepOf::Done(into_result(reply.code)),
        }
    }

    fn end_capture(&self, replies: &[Reply]) -> (step: Step<CudaGraph>)
        ensures
            step@ == CudaStream::capture_end(self@, replies@),
    {
        match Progress::after(replies) {
            Progress::Unbound => StepOf::Perform(ActionOf::BindToThread { ctx: self.ctx.clone() }),
            Progress::Failed(error) => StepOf::Done(Err(error)),
            Progress::Bound => StepOf::Perform(
                ActionOf::StreamEndCapture { stream: self.cu_stream },
            ),
            Progress::Answered(reply) => match into_result(reply.code) {
                Ok(()) => StepOf::Done(
                    Ok(CudaGraph::from_driver(CUgraph(reply.handle), &self.ctx)),
                ),
                Err(error) => StepOf::Done(Err(error)),
            },
        }
    }

    fn is_capturing(&self, replies: &[Reply]) -> (step: Step<bool>)
        ensures
            step@ == CudaStream::capture_query(self@, replies@),
    {
        match Progress::after(replies) {
            Progress::Unbound => StepOf::Perform(ActionOf::BindToThread { ctx: self.ctx.clone() }),
            Progress::Failed(error) => StepOf::Done(Err(error)),
            Progress::Bound => StepOf::Perform(
                ActionOf::StreamIsCapturing { stream: self.cu_stream },
            ),
            Progress::Answered(reply) => match into_result(reply.code) {
                Ok(()) => StepOf::Done(Ok(reply.value != CU_STREAM_CAPTURE_STATUS_NONE)),
                Err(error) => StepOf::Done(Err(error)),
            },
        }
    }
}

} // verus!
