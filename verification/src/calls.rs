//! What each operation asks of the driver, and what it makes of the answer.
//!
//! That an operation binds its context first, and fails where the binding or its call fails, is
//! said in [`crate::laws`]. Here stands the rest: the call that is made once the context is
//! bound, and the result once the call has succeeded, whatever else the replies hold. Codes and
//! enumeration values are the driver's own numbers.

use std::sync::Arc;
use vstd::prelude::*;

use crate::capture::{CaptureMode, CaptureModeGuard};
use crate::driver::{
    Action, ActionOf, CudaContext, DriverError, GraphExecUpdateResultInfo,
    KernelNodeBlock, KernelNodeBlockSpec, Owned, Reply, Step, StepOf, StepSpec,
};
use crate::graph::{CudaGraph, CudaGraphExec, CudaGraphNode, GraphUpdateResult};
use crate::handle::{CUgraph, CUgraphExec, CUgraphNode, CUresult, CUstream};
use crate::params::ParamsModel;
use crate::stream::CudaStream;

verus! {

/// Zero is the one status code that means success; any other is reported as the error it is.
pub proof fn lemma_only_zero_is_success(code: CUresult)
    ensures
        code == 0 <==> crate::driver::result_of(code) == Ok::<(), DriverError>(()),
        code != 0 <==> crate::driver::result_of(code) == Err::<(), DriverError>(DriverError(code)),
        crate::handle::CUDA_SUCCESS == 0,
        crate::handle::CUDA_ERROR_INVALID_VALUE == 1,
{
}

/// A list of nodes is handed to the driver entry by entry: as many handles as there are nodes,
/// each at its node's position, repeated where the node is.
pub proof fn lemma_handles_match_their_nodes(nodes: Seq<&CudaGraphNode>)
    ensures
        crate::graph::handles_of(nodes).len() == nodes.len(),
        forall|i: int|
            0 <= i < nodes.len() ==> #[trigger] crate::graph::handles_of(nodes)[i]
                == nodes[i]@.handle,
{
}

/// `block` describes the launch `params`: the same kernel and geometry, the same arguments, and
/// null for what a launch does not use.
pub open spec fn describes(block: KernelNodeBlockSpec, params: ParamsModel) -> bool {
    &&& block.func == params.func
    &&& (block.grid_dim_x, block.grid_dim_y, block.grid_dim_z) == params.grid_dim
    &&& (block.block_dim_x, block.block_dim_y, block.block_dim_z) == params.block_dim
    &&& block.shared_mem_bytes == params.shared_mem_bytes
    &&& block.kernel_params == params.offsets
    &&& block.buffer == params.bytes
    &&& block.extra == 0 && block.kern == 0 && block.ctx == 0
}

/// `list` and `count` hand over `nodes` in order, and nothing as the null pointer.
pub open spec fn hands_over_nodes(
    list: Option<Seq<CUgraphNode>>,
    count: usize,
    nodes: Seq<&CudaGraphNode>,
) -> bool {
    &&& count == nodes.len()
    &&& match list {
        None => nodes.len() == 0,
        Some(handles) => {
            &&& nodes.len() > 0
            &&& handles.len() == nodes.len()
            &&& forall|i: int| 0 <= i < nodes.len() ==> #[trigger] handles[i] == nodes[i]@.handle
        },
    }
}

/// Creating a graph asks for one without flags, and yields the graph that the driver made, in
/// the context it was asked for.
pub proof fn lemma_creation_asks_and_yields(ctx: Arc<CudaContext>, replies: Seq<Reply>)
    requires
        replies.len() > 0,
        replies[0].code == 0,
    ensures
        replies.len() == 1 ==> CudaGraph::creation(ctx, replies) == StepSpec::<
            Owned<CUgraph>,
        >::Perform(ActionOf::GraphCreate { flags: 0 }),
        replies.len() > 1 && replies[1].code == 0 ==> CudaGraph::creation(ctx, replies)
            == StepSpec::<Owned<CUgraph>>::Done(
            Ok(Owned { handle: CUgraph(replies[1].handle), ctx }),
        ),
{
}

/// Instantiating asks for this graph without flags, and yields the executable graph that the
/// driver made, in the graph's context.
pub proof fn lemma_instantiation_asks_and_yields(graph: Owned<CUgraph>, replies: Seq<Reply>)
    requires
        replies.len() > 0,
        replies[0].code == 0,
    ensures
        replies.len() == 1 ==> CudaGraph::instantiation(graph, replies) == StepSpec::<
            Owned<CUgraphExec>,
        >::Perform(ActionOf::GraphInstantiateWithFlags { graph: graph.handle, flags: 0 }),
        replies.len() > 1 && replies[1].code == 0 ==> CudaGraph::instantiation(graph, replies)
            == StepSpec::<Owned<CUgraphExec>>::Done(
            Ok(Owned { handle: CUgraphExec(replies[1].handle), ctx: graph.ctx }),
        ),
{
}

/// Adding a kernel node asks for a node of this graph behind exactly the given nodes, launched
/// exactly as the parameters say, and yields the node that the driver made.
pub proof fn lemma_kernel_node_asks_and_yields(
    graph: Owned<CUgraph>,
    dependencies: Seq<&CudaGraphNode>,
    params: ParamsModel,
    replies: Seq<Reply>,
)
    requires
        dependencies.len() <= usize::MAX,
        replies.len() > 0,
        replies[0].code == 0,
    ensures
        replies.len() == 1 ==> match CudaGraph::kernel_node_addition(
            graph,
            crate::graph::handles_of(dependencies),
            params,
            replies,
        ) {
            StepOf::Perform(
                ActionOf::GraphAddKernelNode {
                    graph: target,
                    dependencies: list,
                    num_dependencies,
                    params: block,
                },
            ) => {
                &&& target == graph.handle
                &&& hands_over_nodes(list, num_dependencies, dependencies)
                &&& describes(block, params)
            },
            _ => false,
        },
        replies.len() > 1 && replies[1].code == 0 ==> CudaGraph::kernel_node_addition(
            graph,
            crate::graph::handles_of(dependencies),
            params,
            replies,
        ) == StepSpec::<Owned<CUgraphNode>>::Done(
            Ok(Owned { handle: CUgraphNode(replies[1].handle), ctx: graph.ctx }),
        ),
{
}

/// Adding an empty node asks for a node of this graph behind exactly the given nodes, and yields
/// the node that the driver made.
pub proof fn lemma_empty_node_asks_and_yields(
    graph: Owned<CUgraph>,
    dependencies: Seq<&CudaGraphNode>,
    replies: Seq<Reply>,
)
    requires
        dependencies.len() <= usize::MAX,
        replies.len() > 0,
        replies[0].code == 0,
    ensures
        replies.len() == 1 ==> match CudaGraph::empty_node_addition(
            graph,
            crate::graph::handles_of(dependencies),
            replies,
        ) {
            StepOf::Perform(
                ActionOf::GraphAddEmptyNode { graph: target, dependencies: list, num_dependencies },
            ) => {
                &&& target == graph.handle
                &&& hands_over_nodes(list, num_dependencies, dependencies)
            },
            _ => false,
        },
        replies.len() > 1 && replies[1].code == 0 ==> CudaGraph::empty_node_addition(
            graph,
            crate::graph::handles_of(dependencies),
            replies,
        ) == StepSpec::<Owned<CUgraphNode>>::Done(
            Ok(Owned { handle: CUgraphNode(replies[1].handle), ctx: graph.ctx }),
        ),
{
}

/// Adding dependencies asks, in this graph, for one edge for each position that both lists have,
/// from the node that `from` has there to the node that `to` has there. Where there is no such
/// position it is done at once.
pub proof fn lemma_every_pair_becomes_an_edge(
    graph: Owned<CUgraph>,
    from: Seq<&CudaGraphNode>,
    to: Seq<&CudaGraphNode>,
    replies: Seq<Reply>,
)
    requires
        from.len() <= usize::MAX,
        to.len() <= usize::MAX,
        replies.len() > 0,
        replies[0].code == 0,
    ensures
        replies.len() == 1 && from.len() > 0 && to.len() > 0
            ==> match CudaGraph::dependency_addition(
            graph,
            crate::graph::handles_of(from),
            crate::graph::handles_of(to),
            replies,
        ) {
            StepOf::Perform(
                ActionOf::GraphAddDependencies {
                    graph: target,
                    from: sources,
                    to: targets,
                    edge_data,
                    num_dependencies,
                },
            ) => {
                &&& target == graph.handle
                &&& edge_data == 0
                &&& sources.len() == from.len()
                &&& targets.len() == to.len()
                &&& num_dependencies <= from.len() && num_dependencies <= to.len()
                &&& num_dependencies == from.len() || num_dependencies == to.len()
                &&& forall|i: int|
                    0 <= i < from.len() ==> #[trigger] sources[i] == from[i]@.handle
                &&& forall|i: int| 0 <= i < to.len() ==> #[trigger] targets[i] == to[i]@.handle
            },
            _ => false,
        },
        from.len() == 0 || to.len() == 0 ==> CudaGraph::dependency_addition(
            graph,
            crate::graph::handles_of(from),
            crate::graph::handles_of(to),
            replies,
        ) == StepSpec::<()>::Done(Ok(())),
        replies.len() > 1 && replies[1].code == 0 ==> CudaGraph::dependency_addition(
            graph,
            crate::graph::handles_of(from),
            crate::graph::handles_of(to),
            replies,
        ) == StepSpec::<()>::Done(Ok(())),
{
}

/// Launching asks for this executable graph on this stream, and uploading for its upload there.
pub proof fn lemma_launch_and_upload_ask(
    exec: Owned<CUgraphExec>,
    stream: CUstream,
    replies: Seq<Reply>,
)
    requires
        replies.len() > 0,
        replies[0].code == 0,
    ensures
        replies.len() == 1 ==> CudaGraphExec::launching(exec, stream, replies) == StepSpec::<
            (),
        >::Perform(ActionOf::GraphLaunch { graph_exec: exec.handle, stream }),
        replies.len() == 1 ==> CudaGraphExec::uploading(exec, stream, replies) == StepSpec::<
            (),
        >::Perform(ActionOf::GraphUpload { graph_exec: exec.handle, stream }),
        replies.len() > 1 && replies[1].code == 0 ==> CudaGraphExec::launching(
            exec,
            stream,
            replies,
        ) == StepSpec::<()>::Done(Ok(())),
        replies.len() > 1 && replies[1].code == 0 ==> CudaGraphExec::uploading(
            exec,
            stream,
            replies,
        ) == StepSpec::<()>::Done(Ok(())),
{
}

/// Updating asks for this executable graph to become like that graph, with an empty report to
/// fill in. What comes of it is told by the code and the report alone: success for code zero,
/// else one result for each of the reports from two to six, and the unspecified one for the rest.
pub proof fn lemma_update_asks_and_tells(
    exec: Owned<CUgraphExec>,
    graph: CUgraph,
    replies: Seq<Reply>,
)
    requires
        replies.len() > 0,
        replies[0].code == 0,
    ensures
        replies.len() == 1 ==> CudaGraphExec::updating(exec, graph, replies) == StepSpec::<
            GraphUpdateResult,
        >::Perform(
            ActionOf::GraphExecUpdate {
                graph_exec: exec.handle,
                graph,
                result_info: GraphExecUpdateResultInfo {
                    result: 0,
                    error_node: CUgraphNode(0),
                    error_from_node: CUgraphNode(0),
                },
            },
        ),
        replies.len() > 1 ==> match CudaGraphExec::updating(exec, graph, replies) {
            StepOf::Done(Ok(result)) => {
                let refused = replies[1].code != 0;
                let report = replies[1].value;
                &&& result == GraphUpdateResult::Success <==> !refused
                &&& result == GraphUpdateResult::TopologyChanged <==> refused && report == 2
                &&& result == GraphUpdateResult::NodeTypeChanged <==> refused && report == 3
                &&& result == GraphUpdateResult::FunctionChanged <==> refused && report == 4
                &&& result == GraphUpdateResult::ParameterChanged <==> refused && report == 5
                &&& result == GraphUpdateResult::NotSupported <==> refused && report == 6
                &&& result == GraphUpdateResult::Unspecified <==> refused && (report < 2 || report
                    > 6)
            },
            _ => false,
        },
{
}

/// Changing a kernel node asks for this node of this executable graph to be launched exactly as
/// the parameters say.
pub proof fn lemma_kernel_node_change_asks(
    exec: Owned<CUgraphExec>,
    node: CUgraphNode,
    params: ParamsModel,
    replies: Seq<Reply>,
)
    requires
        replies.len() > 0,
        replies[0].code == 0,
    ensures
        replies.len() == 1 ==> match CudaGraphExec::kernel_node_change(
            exec,
            node,
            params,
            replies,
        ) {
            StepOf::Perform(
                ActionOf::GraphExecKernelNodeSetParams { graph_exec, node: target, params: block },
            ) => graph_exec == exec.handle && target == node && describes(block, params),
            _ => false,
        },
        replies.len() > 1 && replies[1].code == 0 ==> CudaGraphExec::kernel_node_change(
            exec,
            node,
            params,
            replies,
        ) == StepSpec::<()>::Done(Ok(())),
{
}

/// The driver's numbers for the capture modes are zero, one and two, and no other number is one.
pub proof fn lemma_capture_modes_are_numbered(raw: u32)
    ensures
        CaptureMode::Global.raw() == 0,
        CaptureMode::ThreadLocal.raw() == 1,
        CaptureMode::Relaxed.raw() == 2,
        CaptureMode::of_raw(raw) == Some(CaptureMode::Global) <==> raw == 0,
        CaptureMode::of_raw(raw) == Some(CaptureMode::ThreadLocal) <==> raw == 1,
        CaptureMode::of_raw(raw) == Some(CaptureMode::Relaxed) <==> raw == 2,
        CaptureMode::of_raw(raw) is None <==> raw > 2,
{
}

/// Beginning a capture asks for one on this stream in the mode that was passed.
pub proof fn lemma_capture_begins_in_its_mode(
    stream: Owned<CUstream>,
    mode: CaptureMode,
    replies: Seq<Reply>,
)
    requires
        replies.len() > 0,
        replies[0].code == 0,
    ensures
        replies.len() == 1 ==> match CudaStream::capture_begin(stream, mode, replies) {
            StepOf::Perform(ActionOf::StreamBeginCapture { stream: target, mode: raw }) => {
                &&& target == stream.handle
                &&& mode == CaptureMode::Global <==> raw == 0
                &&& mode == CaptureMode::ThreadLocal <==> raw == 1
                &&& mode == CaptureMode::Relaxed <==> raw == 2
                &&& raw == mode.raw()
            },
            _ => false,
        },
        replies.len() > 1 && replies[1].code == 0 ==> CudaStream::capture_begin(
            stream,
            mode,
            replies,
        ) == StepSpec::<()>::Done(Ok(())),
{
}

/// Ending a capture asks for the end of the one on this stream, and yields the graph that the
/// driver made of it, in the stream's context.
pub proof fn lemma_capture_ends_with_its_graph(stream: Owned<CUstream>, replies: Seq<Reply>)
    requires
        replies.len() > 0,
        replies[0].code == 0,
    ensures
        replies.len() == 1 ==> CudaStream::capture_end(stream, replies) == StepSpec::<
            Owned<CUgraph>,
        >::Perform(ActionOf::StreamEndCapture { stream: stream.handle }),
        replies.len() > 1 && replies[1].code == 0 ==> CudaStream::capture_end(stream, replies)
            == StepSpec::<Owned<CUgraph>>::Done(
            Ok(Owned { handle: CUgraph(replies[1].handle), ctx: stream.ctx }),
        ),
{
}

/// Asking whether a stream is capturing asks the driver about this stream, and the answer is yes
/// for every status but zero.
pub proof fn lemma_capture_query_is_about_its_stream(stream: Owned<CUstream>, replies: Seq<Reply>)
    requires
        replies.len() > 0,
        replies[0].code == 0,
    ensures
        replies.len() == 1 ==> CudaStream::capture_query(stream, replies) == StepSpec::<
            bool,
        >::Perform(ActionOf::StreamIsCapturing { stream: stream.handle }),
        replies.len() > 1 && replies[1].code == 0 ==> CudaStream::capture_query(stream, replies)
            == StepSpec::<bool>::Done(Ok(replies[1].value != 0)),
{
}

/// Whatever mode is asked for, an exchange asks for that mode, succeeds with the replaced mode
/// wherever the driver succeeds and names one, and is an invalid value where it names none.
pub proof fn lemma_exchange_yields_the_replaced_mode(
    mode: CaptureMode,
    previous: CaptureMode,
    replies: Seq<Reply>,
)
    ensures
        replies.len() == 0 ==> match crate::capture::exchange(mode, replies) {
            StepOf::Perform(ActionOf::ThreadExchangeStreamCaptureMode { mode: raw }) => {
                &&& mode == CaptureMode::Global <==> raw == 0
                &&& mode == CaptureMode::ThreadLocal <==> raw == 1
                &&& mode == CaptureMode::Relaxed <==> raw == 2
                &&& raw == mode.raw()
            },
            _ => false,
        },
        replies.len() > 0 && replies[0].code == 0 && replies[0].value == previous.raw()
            ==> crate::capture::exchange(mode, replies) == StepSpec::<CaptureMode>::Done(
            Ok(previous),
        ),
        replies.len() > 0 && replies[0].code == 0 && replies[0].value > 2
            ==> crate::capture::exchange(mode, replies) == StepSpec::<CaptureMode>::Done(
            Err(DriverError(1)),
        ),
        replies.len() > 0 && replies[0].code != 0 ==> crate::capture::exchange(mode, replies)
            == StepSpec::<CaptureMode>::Done(Err(DriverError(replies[0].code))),
{
}

/// Releasing a guard asks for an exchange to the mode that it remembers, and is then done,
/// whatever the driver answers.
pub proof fn lemma_guard_asks_for_the_mode_it_remembers(
    previous: CaptureMode,
    replies: Seq<Reply>,
)
    ensures
        replies.len() == 0 ==> match CaptureModeGuard::release_steps(previous, replies) {
            StepOf::Perform(ActionOf::ThreadExchangeStreamCaptureMode { mode: raw }) => {
                &&& previous == CaptureMode::Global <==> raw == 0
                &&& previous == CaptureMode::ThreadLocal <==> raw == 1
                &&& previous == CaptureMode::Relaxed <==> raw == 2
            },
            _ => false,
        },
        replies.len() > 0 ==> CaptureModeGuard::release_steps(previous, replies) == StepSpec::<
            (),
        >::Done(Ok(())),
{
}

/// A mode and an update result stand for themselves.
pub proof fn lemma_plain_results_stand_for_themselves(mode: CaptureMode, update: GraphUpdateResult)
    ensures
        mode@ == mode,
        update@ == update,
{
}

/// A step is specified as what it is: waiting for the same action, or done with the same result.
pub proof fn lemma_step_is_what_it_says<T: View>(step: Step<T>)
    ensures
        match step {
            StepOf::Perform(action) => step@ == StepSpec::<T::V>::Perform(action@),
            StepOf::Done(Ok(value)) => step@ == StepSpec::<T::V>::Done(Ok(value@)),
            StepOf::Done(Err(error)) => step@ == StepSpec::<T::V>::Done(Err(error)),
        },
{
}

/// A parameter block is specified as what it holds, field by field.
pub proof fn lemma_block_is_what_it_says(block: KernelNodeBlock)
    ensures
        block@.func == block.func,
        block@.grid_dim_x == block.grid_dim_x,
        block@.grid_dim_y == block.grid_dim_y,
        block@.grid_dim_z == block.grid_dim_z,
        block@.block_dim_x == block.block_dim_x,
        block@.block_dim_y == block.block_dim_y,
        block@.block_dim_z == block.block_dim_z,
        block@.shared_mem_bytes == block.shared_mem_bytes,
        block@.kernel_params == block.kernel_params@,
        block@.buffer == block.buffer@,
        block@.extra == block.extra,
        block@.kern == block.kern,
        block@.ctx == block.ctx,
{
}

/// An action is specified as what it is: the same call on the same handles and values, with the
/// same lists in the same order.
pub proof fn lemma_action_is_what_it_says(action: Action)
    ensures
        match (action, action@) {
            (ActionOf::BindToThread { ctx: a }, ActionOf::BindToThread { ctx: b }) => a == b,
            (
                ActionOf::RecordErr { ctx: a, result: r },
                ActionOf::RecordErr { ctx: b, result: s },
            ) => a == b && r == s,
            (ActionOf::GraphCreate { flags: a }, ActionOf::GraphCreate { flags: b }) => a == b,
            (ActionOf::GraphDestroy { graph: a }, ActionOf::GraphDestroy { graph: b }) => a == b,
            (
                ActionOf::GraphInstantiateWithFlags { graph: a, flags: f },
                ActionOf::GraphInstantiateWithFlags { graph: b, flags: g },
            ) => a == b && f == g,
            (
                ActionOf::GraphAddKernelNode {
                    graph: a,
                    dependencies: d,
                    num_dependencies: m,
                    params: p,
                },
                ActionOf::GraphAddKernelNode {
                    graph: b,
                    dependencies: e,
                    num_dependencies: n,
                    params: q,
                },
            ) => a == b && same_list(d, e) && m == n && p@ == q,
            (
                ActionOf::GraphAddEmptyNode { graph: a, dependencies: d, num_dependencies: m },
                ActionOf::GraphAddEmptyNode { graph: b, dependencies: e, num_dependencies: n },
            ) => a == b && same_list(d, e) && m == n,
            (
                ActionOf::GraphAddDependencies {
                    graph: a,
                    from: f,
                    to: t,
                    edge_data: x,
                    num_dependencies: m,
                },
                ActionOf::GraphAddDependencies {
                    graph: b,
                    from: g,
                    to: u,
                    edge_data: y,
                    num_dependencies: n,
                },
            ) => a == b && f@ == g && t@ == u && x == y && m == n,
            (ActionOf::GraphDestroyNode { node: a }, ActionOf::GraphDestroyNode { node: b }) => a
                == b,
            (
                ActionOf::GraphExecDestroy { graph_exec: a },
                ActionOf::GraphExecDestroy { graph_exec: b },
            ) => a == b,
            (
                ActionOf::GraphLaunch { graph_exec: a, stream: s },
                ActionOf::GraphLaunch { graph_exec: b, stream: t },
            ) => a == b && s == t,
            (
                ActionOf::GraphUpload { graph_exec: a, stream: s },
                ActionOf::GraphUpload { graph_exec: b, stream: t },
            ) => a == b && s == t,
            (
                ActionOf::GraphExecUpdate { graph_exec: a, graph: g, result_info: i },
                ActionOf::GraphExecUpdate { graph_exec: b, graph: h, result_info: j },
            ) => a == b && g == h && i == j,
            (
                ActionOf::GraphExecKernelNodeSetParams { graph_exec: a, node: m, params: p },
                ActionOf::GraphExecKernelNodeSetParams { graph_exec: b, node: n, params: q },
            ) => a == b && m == n && p@ == q,
            (
                ActionOf::StreamBeginCapture { stream: s, mode: m },
                ActionOf::StreamBeginCapture { stream: t, mode: n },
            ) => s == t && m == n,
            (ActionOf::StreamEndCapture { stream: s }, ActionOf::StreamEndCapture { stream: t }) =>
                s == t,
            (
                ActionOf::StreamIsCapturing { stream: s },
                ActionOf::StreamIsCapturing { stream: t },
            ) => s == t,
            (
                ActionOf::ThreadExchangeStreamCaptureMode { mode: m },
                ActionOf::ThreadExchangeStreamCaptureMode { mode: n },
            ) => m == n,
            _ => false,
        },
{
}

/// The two lists are both the null pointer, or hold the same nodes.
pub open spec fn same_list(
    list: Option<Vec<CUgraphNode>>,
    nodes: Option<Seq<CUgraphNode>>,
) -> bool {
    match (list, nodes) {
        (None, None) => true,
        (Some(handles), Some(sequence)) => handles@ == sequence,
        _ => false,
    }
}

} // verus!
