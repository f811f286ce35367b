//! The protocol between the library and the CUDA driver.
//!
//! The library performs no driver call itself. An operation is a function of its arguments and of
//! the replies that it has had so far, and answers with a [`Step`]: the next [`Action`] to
//! perform, or the operation's result. Whoever runs an operation calls it with no replies,
//! performs the action it asks for, appends the reply, and calls it again until it is done.

use std::sync::Arc;
use vstd::prelude::*;

use crate::handle::{
    CUcontext, CUfunction, CUgraph, CUgraphExec, CUgraphExecUpdateResult, CUgraphNode, CUresult,
    CUstream, CUstreamCaptureMode, CUDA_SUCCESS,
};

verus! {

/// A status code with which a driver call failed.
#[derive(Debug, Clone, Copy, PartialEq, Eq, Hash, Structural)]
pub struct DriverError(pub CUresult);

/// What a status code says: success, or the error that it stands for.
pub open spec fn result_of(code: CUresult) -> Result<(), DriverError> {
    if code == CUDA_SUCCESS {
        Ok(())
    } else {
        Err(DriverError(code))
    }
}

/// Turns a status code into a result.
pub fn into_result(code: CUresult) -> (result: Result<(), DriverError>)
    ensures
        result == result_of(code),
{
    if code == CUDA_SUCCESS {
        Ok(())
    } else {
        Err(DriverError(code))
    }
}

/// A driver context. Everything created in it holds a share of it.
#[derive(Debug, PartialEq, Eq)]
pub struct CudaContext {
    pub cu_ctx: CUcontext,
}

/// A driver object and the context that it lives in.
pub struct Owned<H> {
    pub handle: H,
    pub ctx: Arc<CudaContext>,
}

/// What came back from an action.
#[derive(Debug, Clone, Copy, PartialEq, Eq, Structural)]
pub struct Reply {
    /// The status code.
    pub code: CUresult,
    /// The handle that the call wrote, where it writes one.
    pub handle: usize,
    /// The enumeration value that the call wrote, where it writes one.
    pub value: u32,
}

/// The block that describes a kernel node to the driver, with the argument addresses relative to
/// the start of `buffer`. `extra`, `kern` and `ctx` are addresses; zero is the null pointer.
#[derive(Debug, PartialEq, Eq)]
pub struct KernelNodeBlockOf<O, B> {
    pub func: CUfunction,
    pub grid_dim_x: u32,
    pub grid_dim_y: u32,
    pub grid_dim_z: u32,
    pub block_dim_x: u32,
    pub block_dim_y: u32,
    pub block_dim_z: u32,
    pub shared_mem_bytes: u32,
    pub kernel_params: O,
    pub buffer: B,
    pub extra: usize,
    pub kern: usize,
    pub ctx: usize,
}

pub type KernelNodeBlock = KernelNodeBlockOf<Vec<usize>, Vec<u8>>;

pub type KernelNodeBlockSpec = KernelNodeBlockOf<Seq<usize>, Seq<u8>>;

impl View for KernelNodeBlockOf<Vec<usize>, Vec<u8>> {
    type V = KernelNodeBlockSpec;

    open spec fn view(&self) -> KernelNodeBlockSpec {
        KernelNodeBlockOf {
            func: self.func,
            grid_dim_x: self.grid_dim_x,
            grid_dim_y: self.grid_dim_y,
            grid_dim_z: self.grid_dim_z,
            block_dim_x: self.block_dim_x,
            block_dim_y: self.block_dim_y,
            block_dim_z: self.block_dim_z,
            shared_mem_bytes: self.shared_mem_bytes,
            kernel_params: self.kernel_params@,
            buffer: self.buffer@,
            extra: self.extra,
            kern: self.kern,
            ctx: self.ctx,
        }
    }
}

/// The record in which a graph update reports; the driver may overwrite it.
#[derive(Debug, Clone, Copy, PartialEq, Eq, Structural)]
pub struct GraphExecUpdateResultInfo {
    pub result: CUgraphExecUpdateResult,
    pub error_node: CUgraphNode,
    pub error_from_node: CUgraphNode,
}

/// Something that an operation asks to have done: the driver call of the same name, or an
/// operation of a context.
#[allow(inconsistent_fields)]
#[derive(Debug, PartialEq, Eq)]
pub enum ActionOf<N, K> {
    /// Make the context current on the calling thread. The reply's code is the outcome.
    BindToThread { ctx: Arc<CudaContext> },
    /// Let the context remember an outcome that no caller will see. The reply says nothing.
    RecordErr { ctx: Arc<CudaContext>, result: Result<(), DriverError> },
    /// Writes the handle of a new graph.
    GraphCreate { flags: u32 },
    GraphDestroy { graph: CUgraph },
    /// Writes the handle of a new executable graph.
    GraphInstantiateWithFlags { graph: CUgraph, flags: u64 },
    /// Writes the handle of a new node. `None` for the dependencies is the null pointer.
    GraphAddKernelNode {
        graph: CUgraph,
        dependencies: Option<N>,
        num_dependencies: usize,
        params: K,
    },
    /// Writes the handle of a new node. `None` for the dependencies is the null pointer.
    GraphAddEmptyNode { graph: CUgraph, dependencies: Option<N>, num_dependencies: usize },
    /// Adds the first `num_dependencies` pairs of `from` and `to`. `edge_data` is an address.
    GraphAddDependencies {
        graph: CUgraph,
        from: N,
        to: N,
        edge_data: usize,
        num_dependencies: usize,
    },
    GraphDestroyNode { node: CUgraphNode },
    GraphExecDestroy { graph_exec: CUgraphExec },
    GraphLaunch { graph_exec: CUgraphExec, stream: CUstream },
    GraphUpload { graph_exec: CUgraphExec, stream: CUstream },
    /// The reply's value is the field `result` of `result_info` after the call.
    GraphExecUpdate {
        graph_exec: CUgraphExec,
        graph: CUgraph,
        result_info: GraphExecUpdateResultInfo,
    },
    GraphExecKernelNodeSetParams { graph_exec: CUgraphExec, node: CUgraphNode, params: K },
    StreamBeginCapture { stream: CUstream, mode: CUstreamCaptureMode },
    /// Writes the handle of the captured graph.
    StreamEndCapture { stream: CUstream },
    /// Writes the capture status.
    StreamIsCapturing { stream: CUstream },
    /// Makes `mode` the calling thread's capture mode and writes the one it replaces.
    ThreadExchangeStreamCaptureMode { mode: CUstreamCaptureMode },
}

pub type Action = ActionOf<Vec<CUgraphNode>, KernelNodeBlock>;

pub type ActionSpec = ActionOf<Seq<CUgraphNode>, KernelNodeBlockSpec>;

impl View for ActionOf<Vec<CUgraphNode>, KernelNodeBlockOf<Vec<usize>, Vec<u8>>> {
    type V = ActionSpec;

    open spec fn view(&self) -> ActionSpec {
        match *self {
            ActionOf::BindToThread { ctx } => ActionOf::BindToThread { ctx },
            ActionOf::RecordErr { ctx, result } => ActionOf::RecordErr { ctx, result },
            ActionOf::GraphCreate { flags } => ActionOf::GraphCreate { flags },
            ActionOf::GraphDestroy { graph } => ActionOf::GraphDestroy { graph },
            ActionOf::GraphInstantiateWithFlags { graph, flags } => {
                ActionOf::GraphInstantiateWithFlags { graph, flags }
            },
            ActionOf::GraphAddKernelNode { graph, dependencies, num_dependencies, params } => {
                ActionOf::GraphAddKernelNode {
                    graph,
                    dependencies: view_of_list(dependencies),
                    num_dependencies,
                    params: params@,
                }
            },
            ActionOf::GraphAddEmptyNode { graph, dependencies, num_dependencies } => {
                ActionOf::GraphAddEmptyNode {
                    graph,
                    dependencies: view_of_list(dependencies),
                    num_dependencies,
                }
            },
            ActionOf::GraphAddDependencies { graph, from, to, edge_data, num_dependencies } => {
                ActionOf::GraphAddDependencies {
                    graph,
                    from: from@,
                    to: to@,
                    edge_data,
                    num_dependencies,
                }
            },
            ActionOf::GraphDestroyNode { node } => ActionOf::GraphDestroyNode { node },
            ActionOf::GraphExecDestroy { graph_exec } => ActionOf::GraphExecDestroy { graph_exec },
            ActionOf::GraphLaunch { graph_exec, stream } => {
                ActionOf::GraphLaunch { graph_exec, stream }
            },
            ActionOf::GraphUpload { graph_exec, stream } => {
                ActionOf::GraphUpload { graph_exec, stream }
            },
            ActionOf::GraphExecUpdate { graph_exec, graph, result_info } => {
                ActionOf::GraphExecUpdate { graph_exec, graph, result_info }
            },
            ActionOf::GraphExecKernelNodeSetParams { graph_exec, node, params } => {
                ActionOf::GraphExecKernelNodeSetParams { graph_exec, node, params: params@ }
            },
            ActionOf::StreamBeginCapture { stream, mode } => {
                ActionOf::StreamBeginCapture { stream, mode }
            },
            ActionOf::StreamEndCapture { stream } => ActionOf::StreamEndCapture { stream },
            ActionOf::StreamIsCapturing { stream } => ActionOf::StreamIsCapturing { stream },
            ActionOf::ThreadExchangeStreamCaptureMode { mode } => {
                ActionOf::ThreadExchangeStreamCaptureMode { mode }
            },
        }
    }
}

/// The nodes of an optional list.
pub open spec fn view_of_list(list: Option<Vec<CUgraphNode>>) -> Option<Seq<CUgraphNode>> {
    match list {
        Some(nodes) => Some(nodes@),
        None => None,
    }
}

/// What an operation has come to: an action that it waits for, or its result.
#[derive(Debug, PartialEq, Eq)]
pub enum StepOf<A, T> {
    Perform(A),
    Done(Result<T, DriverError>),
}

pub type Step<T> = StepOf<Action, T>;

pub type StepSpec<T> = StepOf<ActionSpec, T>;

impl<T: View> View for StepOf<
    ActionOf<Vec<CUgraphNode>, KernelNodeBlockOf<Vec<usize>, Vec<u8>>>,
    T,
> {
    type V = StepOf<ActionSpec, T::V>;

    open spec fn view(&self) -> StepOf<ActionSpec, T::V> {
        match *self {
            StepOf::Perform(action) => StepOf::Perform(action@),
            StepOf::Done(Ok(value)) => StepOf::Done(Ok(value@)),
            StepOf::Done(Err(error)) => StepOf::Done(Err(error)),
        }
    }
}

/// An operation that binds `ctx` to the thread and does nothing more.
pub open spec fn bind_only(ctx: Arc<CudaContext>, replies: Seq<Reply>) -> StepSpec<()> {
    if replies.len() == 0 {
        StepOf::Perform(ActionOf::BindToThread { ctx })
    } else {
        StepOf::Done(result_of(replies[0].code))
    }
}

/// An operation that binds `ctx` to the thread and then makes one driver call. It fails with the
/// error of the binding, before the call; `finish` says what the reply to the call comes to.
pub open spec fn bind_then<T>(
    ctx: Arc<CudaContext>,
    call: ActionSpec,
    finish: spec_fn(Reply) -> Result<T, DriverError>,
    replies: Seq<Reply>,
) -> StepSpec<T> {
    if replies.len() == 0 {
        StepOf::Perform(ActionOf::BindToThread { ctx })
    } else if replies[0].code != CUDA_SUCCESS {
        StepOf::Done(Err(DriverError(replies[0].code)))
    } else if replies.len() == 1 {
        StepOf::Perform(call)
    } else {
        StepOf::Done(finish(replies[1]))
    }
}

/// What a reply comes to where nothing but its code matters.
pub open spec fn checked() -> spec_fn(Reply) -> Result<(), DriverError> {
    |reply: Reply| result_of(reply.code)
}

/// What a reply comes to where, on success, the call has written `value`.
pub open spec fn on_success<T>(value: spec_fn(Reply) -> T) -> spec_fn(Reply) -> Result<
    T,
    DriverError,
> {
    |reply: Reply|
        match result_of(reply.code) {
            Ok(()) => Ok(value(reply)),
            Err(error) => Err(error),
        }
}

/// The release of a driver object: nothing for a null handle. Otherwise the context is bound and
/// the object destroyed, whether the binding worked or not, and the context gets to record both
/// outcomes. A release has no failure.
pub open spec fn release_of(
    null: bool,
    ctx: Arc<CudaContext>,
    destroy: ActionSpec,
    replies: Seq<Reply>,
) -> StepSpec<()> {
    if null || replies.len() >= 4 {
        StepOf::Done(Ok(()))
    } else if replies.len() == 0 {
        StepOf::Perform(ActionOf::BindToThread { ctx })
    } else if replies.len() == 1 {
        StepOf::Perform(ActionOf::RecordErr { ctx, result: result_of(replies[0].code) })
    } else if replies.len() == 2 {
        StepOf::Perform(destroy)
    } else {
        StepOf::Perform(ActionOf::RecordErr { ctx, result: result_of(replies[2].code) })
    }
}

/// How far an operation that binds its context and then makes one call has come.
pub(crate) enum Progress {
    /// The context is still to be bound.
    Unbound,
    /// The binding failed.
    Failed(DriverError),
    /// The call is still to be made.
    Bound,
    /// The call was answered.
    Answered(Reply),
}

impl Progress {
    pub(crate) open spec fn of(replies: Seq<Reply>) -> Progress {
        if replies.len() == 0 {
            Progress::Unbound
        } else if replies[0].code != CUDA_SUCCESS {
            Progress::Failed(DriverError(replies[0].code))
        } else if replies.len() == 1 {
            Progress::Bound
        } else {
            Progress::Answered(replies[1])
        }
    }

    pub(crate) fn after(replies: &[Reply]) -> (progress: Progress)
        ensures
            progress == Progress::of(replies@),
    {
        if replies.len() == 0 {
            Progress::Unbound
        } else if let Err(error) = into_result(replies[0].code) {
            Progress::Failed(error)
        } else if replies.len() == 1 {
            Progress::Bound
        } else {
            Progress::Answered(replies[1])
        }
    }
}

/// The next step of releasing a driver object that `destroy` destroys.
pub(crate) fn release_step(
    null: bool,
    ctx: &Arc<CudaContext>,
    destroy: Action,
    replies: &[Reply],
) -> (step: Step<()>)
    ensures
        step@ == release_of(null, *ctx, destroy@, replies@),
{
    if null || replies.len() >= 4 {
        StepOf::Done(Ok(()))
    } else if replies.len() == 0 {
        StepOf::Perform(ActionOf::BindToThread { ctx: ctx.clone() })
    } else if replies.len() == 1 {
        StepOf::Perform(
            ActionOf::RecordErr { ctx: ctx.clone(), result: into_result(replies[0].code) },
        )
    } else if replies.len() == 2 {
        StepOf::Perform(destroy)
    } else {
        StepOf::Perform(
            ActionOf::RecordErr { ctx: ctx.clone(), result: into_result(replies[2].code) },
        )
    }
}

} // verus!
