//! What holds across the library's operations.

use std::sync::Arc;
use vstd::prelude::*;

use crate::capture::{CaptureMode, CaptureModeGuard};
use crate::driver::{
    ActionOf, ActionSpec, CudaContext, DriverError, KernelNodeBlockSpec, Owned, Reply, StepOf,
    StepSpec,
};
use crate::graph::{CudaGraph, CudaGraphExec, CudaGraphNode, GraphUpdateResult};
use crate::handle::{
    CUgraph, CUgraphExec, CUgraphNode, CUstream, CUstreamCaptureMode, CUDA_SUCCESS,
};
use crate::packing::Argument;
use crate::params::ParamsModel;
use crate::stream::CudaStream;

verus! {

/// `operation` needs no more than `n` replies, and its result does not change when more come.
pub open spec fn settles<T>(operation: spec_fn(Seq<Reply>) -> StepSpec<T>, n: nat) -> bool {
    &&& forall|replies: Seq<Reply>|
        replies.len() >= n ==> (#[trigger] operation(replies)) is Done
    &&& forall|replies: Seq<Reply>, more: Seq<Reply>|
        operation(replies) is Done ==> #[trigger] operation(replies + more) == operation(
            replies,
        )
}

/// `operation` begins by binding `ctx`. Where that fails it asks for nothing else, and fails with
/// the same error.
pub open spec fn binds_first<T>(
    operation: spec_fn(Seq<Reply>) -> StepSpec<T>,
    ctx: Arc<CudaContext>,
) -> bool {
    &&& operation(Seq::empty()) == StepSpec::<T>::Perform(ActionOf::BindToThread { ctx })
    &&& forall|replies: Seq<Reply>|
        replies.len() > 0 && replies[0].code != CUDA_SUCCESS ==> #[trigger] operation(replies)
            == StepSpec::<T>::Done(Err(DriverError(replies[0].code)))
}

/// Once bound, `operation` makes a call, and fails exactly where the call does, with its error.
pub open spec fn fails_as_its_call<T>(operation: spec_fn(Seq<Reply>) -> StepSpec<T>) -> bool {
    &&& forall|replies: Seq<Reply>|
        replies.len() == 1 && replies[0].code == CUDA_SUCCESS ==> (#[trigger] operation(
            replies,
        )) is Perform
    &&& forall|replies: Seq<Reply>|
        replies.len() >= 2 && replies[0].code == CUDA_SUCCESS ==> match #[trigger] operation(
            replies,
        ) {
            StepOf::Perform(_) => false,
            StepOf::Done(Ok(_)) => replies[1].code == CUDA_SUCCESS,
            StepOf::Done(Err(error)) => replies[1].code != CUDA_SUCCESS && error == DriverError(
                replies[1].code,
            ),
        }
}

/// All three: the discipline of an operation that binds its context and makes one checked call.
pub open spec fn is_bound_call<T>(
    operation: spec_fn(Seq<Reply>) -> StepSpec<T>,
    ctx: Arc<CudaContext>,
) -> bool {
    &&& settles(operation, 2)
    &&& binds_first(operation, ctx)
    &&& fails_as_its_call(operation)
}

/// Every operation on graphs, executable graphs and streams binds the context of the object it
/// works on, makes no call where that fails, makes its one call otherwise, and fails exactly as
/// the call fails.
pub proof fn lemma_operations_are_bound_calls(
    ctx: Arc<CudaContext>,
    graph: Owned<CUgraph>,
    exec: Owned<CUgraphExec>,
    stream: Owned<CUstream>,
    nodes: Seq<CUgraphNode>,
    node: CUgraphNode,
    params: ParamsModel,
    mode: CaptureMode,
)
    ensures
        is_bound_call(|replies: Seq<Reply>| CudaGraph::creation(ctx, replies), ctx),
        is_bound_call(|replies: Seq<Reply>| CudaGraph::instantiation(graph, replies), graph.ctx),
        is_bound_call(
            |replies: Seq<Reply>| CudaGraph::kernel_node_addition(graph, nodes, params, replies),
            graph.ctx,
        ),
        is_bound_call(
            |replies: Seq<Reply>| CudaGraph::empty_node_addition(graph, nodes, replies),
            graph.ctx,
        ),
        is_bound_call(
            |replies: Seq<Reply>| CudaGraphExec::launching(exec, stream.handle, replies),
            exec.ctx,
        ),
        is_bound_call(
            |replies: Seq<Reply>| CudaGraphExec::uploading(exec, stream.handle, replies),
            exec.ctx,
        ),
        is_bound_call(
            |replies: Seq<Reply>| CudaGraphExec::kernel_node_change(exec, node, params, replies),
            exec.ctx,
        ),
        is_bound_call(
            |replies: Seq<Reply>| CudaStream::capture_begin(stream, mode, replies),
            stream.ctx,
        ),
        is_bound_call(|replies: Seq<Reply>| CudaStream::capture_end(stream, replies), stream.ctx),
        is_bound_call(|replies: Seq<Reply>| CudaStream::capture_query(stream, replies), stream.ctx),
{
}

/// Updating an executable graph binds its context first. After that it does not fail: whatever
/// the driver answers is a result, and the result is success exactly where the call succeeds.
pub proof fn lemma_update_reports_refusals_as_results(exec: Owned<CUgraphExec>, graph: CUgraph)
    ensures
        settles(|replies: Seq<Reply>| CudaGraphExec::updating(exec, graph, replies), 2),
        binds_first(
            |replies: Seq<Reply>| CudaGraphExec::updating(exec, graph, replies),
            exec.ctx,
        ),
        forall|replies: Seq<Reply>|
            replies.len() >= 2 && replies[0].code == CUDA_SUCCESS
                ==> match #[trigger] CudaGraphExec::updating(exec, graph, replies) {
                StepOf::Done(Ok(result)) => {
                    result == GraphUpdateResult::Success <==> replies[1].code == CUDA_SUCCESS
                },
                _ => false,
            },
{
}

/// Adding dependencies binds the context first. With an empty list on either side it then
/// succeeds without a call; otherwise it makes its call, for as many pairs as there are, and
/// fails exactly as the call fails.
pub proof fn lemma_dependencies_go_by_pairs(
    graph: Owned<CUgraph>,
    from: Seq<CUgraphNode>,
    to: Seq<CUgraphNode>,
    bound: Reply,
)
    requires
        from.len() <= usize::MAX,
        to.len() <= usize::MAX,
        bound.code == CUDA_SUCCESS,
    ensures
        settles(|replies: Seq<Reply>| CudaGraph::dependency_addition(graph, from, to, replies), 2),
        binds_first(
            |replies: Seq<Reply>| CudaGraph::dependency_addition(graph, from, to, replies),
            graph.ctx,
        ),
        from.len() == 0 || to.len() == 0 ==> CudaGraph::dependency_addition(
            graph,
            from,
            to,
            seq![bound],
        ) == StepSpec::<()>::Done(Ok(())),
        from.len() > 0 && to.len() > 0 ==> {
            &&& fails_as_its_call(
                |replies: Seq<Reply>| CudaGraph::dependency_addition(graph, from, to, replies),
            )
            &&& match CudaGraph::dependency_addition(graph, from, to, seq![bound]) {
                StepOf::Perform(
                    ActionOf::GraphAddDependencies {
                        graph: g,
                        from: f,
                        to: t,
                        edge_data,
                        num_dependencies,
                    },
                ) => {
                    &&& g == graph.handle
                    &&& f == from
                    &&& t == to
                    &&& edge_data == 0
                    &&& num_dependencies <= from.len()
                    &&& num_dependencies <= to.len()
                    &&& num_dependencies == from.len() || num_dependencies == to.len()
                },
                _ => false,
            }
        },
{
}

/// `release` needs at most `n` replies and cannot fail.
pub open spec fn releases(release: spec_fn(Seq<Reply>) -> StepSpec<()>, n: nat) -> bool {
    &&& settles(release, n)
    &&& forall|replies: Seq<Reply>|
        match #[trigger] release(replies) {
            StepOf::Done(result) => result == Ok::<(), DriverError>(()),
            StepOf::Perform(_) => true,
        }
}

/// No release fails.
pub proof fn lemma_releases_do_not_fail(
    graph: Owned<CUgraph>,
    exec: Owned<CUgraphExec>,
    node: Owned<CUgraphNode>,
    previous: CaptureMode,
)
    ensures
        releases(|replies: Seq<Reply>| CudaGraph::release_steps(graph, replies), 4),
        releases(|replies: Seq<Reply>| CudaGraphExec::release_steps(exec, replies), 4),
        releases(|replies: Seq<Reply>| CudaGraphNode::release_steps(node, replies), 4),
        releases(|replies: Seq<Reply>| CaptureModeGuard::release_steps(previous, replies), 1),
{
}

/// A null handle is released without touching the driver or the context.
pub proof fn lemma_null_is_released_at_once(
    graph: Owned<CUgraph>,
    exec: Owned<CUgraphExec>,
    node: Owned<CUgraphNode>,
    replies: Seq<Reply>,
)
    ensures
        graph.handle == CUgraph(0) ==> CudaGraph::release_steps(graph, replies) == StepSpec::<
            (),
        >::Done(Ok(())),
        exec.handle == CUgraphExec(0) ==> CudaGraphExec::release_steps(exec, replies) == StepSpec::<
            (),
        >::Done(Ok(())),
        node.handle == CUgraphNode(0) ==> CudaGraphNode::release_steps(node, replies) == StepSpec::<
            (),
        >::Done(Ok(())),
{
}

/// `release` binds `ctx`, lets it record the outcome, asks for `destroy` whatever the outcome was,
/// and lets the context record what the destruction came to. It asks for `destroy` only then.
pub open spec fn destroys_and_records(
    release: spec_fn(Seq<Reply>) -> StepSpec<()>,
    ctx: Arc<CudaContext>,
    destroy: ActionSpec,
) -> bool {
    forall|replies: Seq<Reply>|
        {
            &&& replies.len() == 0 ==> #[trigger] release(replies) == StepSpec::<()>::Perform(
                ActionOf::BindToThread { ctx },
            )
            &&& replies.len() == 1 ==> release(replies) == StepSpec::<()>::Perform(
                ActionOf::RecordErr {
                    ctx,
                    result: if replies[0].code == 0 {
                        Ok(())
                    } else {
                        Err(DriverError(replies[0].code))
                    },
                },
            )
            &&& replies.len() == 3 ==> release(replies) == StepSpec::<()>::Perform(
                ActionOf::RecordErr {
                    ctx,
                    result: if replies[2].code == 0 {
                        Ok(())
                    } else {
                        Err(DriverError(replies[2].code))
                    },
                },
            )
            &&& release(replies) == StepSpec::<()>::Perform(destroy) <==> replies.len() == 2
        }
}

/// Any other object is destroyed, once, whatever the binding came to, and its context gets to
/// record both outcomes.
pub proof fn lemma_release_destroys_and_records(
    graph: Owned<CUgraph>,
    exec: Owned<CUgraphExec>,
    node: Owned<CUgraphNode>,
)
    ensures
        graph.handle != CUgraph(0) ==> destroys_and_records(
            |replies: Seq<Reply>| CudaGraph::release_steps(graph, replies),
            graph.ctx,
            ActionOf::GraphDestroy { graph: graph.handle },
        ),
        exec.handle != CUgraphExec(0) ==> destroys_and_records(
            |replies: Seq<Reply>| CudaGraphExec::release_steps(exec, replies),
            exec.ctx,
            ActionOf::GraphExecDestroy { graph_exec: exec.handle },
        ),
        node.handle != CUgraphNode(0) ==> destroys_and_records(
            |replies: Seq<Reply>| CudaGraphNode::release_steps(node, replies),
            node.ctx,
            ActionOf::GraphDestroyNode { node: node.handle },
        ),
{
}

/// The driver's values stand for the capture modes one to one.
pub proof fn lemma_capture_modes_round_trip(mode: CaptureMode, raw: CUstreamCaptureMode)
    ensures
        CaptureMode::of_raw(mode.raw()) == Some(mode),
        CaptureMode::of_raw(raw) == Some(mode) <==> mode.raw() == raw,
{
}

/// Exchanging the capture mode needs one reply, and reports a failure of the call as it is.
pub proof fn lemma_exchange_reports_the_call(mode: CaptureMode)
    ensures
        settles(|replies: Seq<Reply>| crate::capture::exchange(mode, replies), 1),
        forall|replies: Seq<Reply>|
            replies.len() > 0 && replies[0].code != CUDA_SUCCESS
                ==> #[trigger] crate::capture::exchange(mode, replies) == StepSpec::<
                CaptureMode,
            >::Done(Err(DriverError(replies[0].code))),
{
}

/// A guard restores: it enters its mode by an exchange, and its release exchanges back exactly
/// the value that the driver had handed out for the mode before.
pub proof fn lemma_guard_restores_the_mode(
    mode: CaptureMode,
    replies: Seq<Reply>,
    previous: CaptureMode,
)
    requires
        crate::capture::exchange(mode, replies) == StepSpec::<CaptureMode>::Done(Ok(previous)),
    ensures
        crate::capture::exchange(mode, Seq::empty()) == StepSpec::<CaptureMode>::Perform(
            ActionOf::ThreadExchangeStreamCaptureMode { mode: mode.raw() },
        ),
        replies.len() > 0,
        CaptureModeGuard::release_steps(previous, Seq::empty()) == StepSpec::<()>::Perform(
            ActionOf::ThreadExchangeStreamCaptureMode { mode: replies[0].value },
        ),
{
}

/// Guards nest: where the inner one finds the thread in the outer one's mode, its release puts
/// that mode back, and the outer one's release then puts back what the thread began with.
pub proof fn lemma_nested_guards_unwind(
    outer: CaptureMode,
    entered_outer: Reply,
    previous_of_outer: CaptureMode,
    inner: CaptureMode,
    entered_inner: Reply,
    previous_of_inner: CaptureMode,
)
    requires
        crate::capture::exchange(outer, seq![entered_outer]) == StepSpec::<CaptureMode>::Done(
            Ok(previous_of_outer),
        ),
        crate::capture::exchange(inner, seq![entered_inner]) == StepSpec::<CaptureMode>::Done(
            Ok(previous_of_inner),
        ),
        entered_inner.value == outer.raw(),
    ensures
        previous_of_inner == outer,
        CaptureModeGuard::release_steps(previous_of_inner, Seq::empty()) == StepSpec::<
            (),
        >::Perform(ActionOf::ThreadExchangeStreamCaptureMode { mode: outer.raw() }),
        CaptureModeGuard::release_steps(previous_of_outer, Seq::empty()) == StepSpec::<
            (),
        >::Perform(ActionOf::ThreadExchangeStreamCaptureMode { mode: entered_outer.value }),
{
}

/// A graph built by hand can be instantiated and launched: the handle that creation was given is
/// the one that is instantiated, the handle that instantiation was given is the one that is
/// launched, and all of it happens in the context that the graph was created in.
pub proof fn lemma_created_graph_is_launched(
    ctx: Arc<CudaContext>,
    created: Seq<Reply>,
    graph: Owned<CUgraph>,
    instantiated: Seq<Reply>,
    exec: Owned<CUgraphExec>,
    stream: CUstream,
    bound: Reply,
)
    requires
        CudaGraph::creation(ctx, created) == StepSpec::<Owned<CUgraph>>::Done(Ok(graph)),
        CudaGraph::instantiation(graph, instantiated) == StepSpec::<Owned<CUgraphExec>>::Done(
            Ok(exec),
        ),
        bound.code == CUDA_SUCCESS,
    ensures
        created.len() >= 2,
        instantiated.len() >= 2,
        graph.ctx == ctx,
        exec.ctx == ctx,
        CudaGraph::instantiation(graph, seq![bound]) == StepSpec::<Owned<CUgraphExec>>::Perform(
            ActionOf::GraphInstantiateWithFlags { graph: CUgraph(created[1].handle), flags: 0 },
        ),
        CudaGraphExec::launching(exec, stream, seq![bound]) == StepSpec::<()>::Perform(
            ActionOf::GraphLaunch { graph_exec: CUgraphExec(instantiated[1].handle), stream },
        ),
{
}

/// The same for a graph captured from a stream, in the stream's context.
pub proof fn lemma_captured_graph_is_launched(
    source: Owned<CUstream>,
    captured: Seq<Reply>,
    graph: Owned<CUgraph>,
    instantiated: Seq<Reply>,
    exec: Owned<CUgraphExec>,
    stream: CUstream,
    bound: Reply,
)
    requires
        CudaStream::capture_end(source, captured) == StepSpec::<Owned<CUgraph>>::Done(Ok(graph)),
        CudaGraph::instantiation(graph, instantiated) == StepSpec::<Owned<CUgraphExec>>::Done(
            Ok(exec),
        ),
        bound.code == CUDA_SUCCESS,
    ensures
        captured.len() >= 2,
        instantiated.len() >= 2,
        graph.ctx == source.ctx,
        exec.ctx == source.ctx,
        CudaGraph::instantiation(graph, seq![bound]) == StepSpec::<Owned<CUgraphExec>>::Perform(
            ActionOf::GraphInstantiateWithFlags { graph: CUgraph(captured[1].handle), flags: 0 },
        ),
        CudaGraphExec::launching(exec, stream, seq![bound]) == StepSpec::<()>::Perform(
            ActionOf::GraphLaunch { graph_exec: CUgraphExec(instantiated[1].handle), stream },
        ),
{
}

/// A node keeps the context of the graph it was added to and the handle that the driver gave it,
/// whichever way it was added.
pub proof fn lemma_added_node_belongs_to_its_graph(
    graph: Owned<CUgraph>,
    dependencies: Seq<CUgraphNode>,
    params: ParamsModel,
    replies: Seq<Reply>,
    node: Owned<CUgraphNode>,
)
    requires
        ({
            ||| CudaGraph::kernel_node_addition(graph, dependencies, params, replies) == StepSpec::<
                Owned<CUgraphNode>,
            >::Done(Ok(node))
            ||| CudaGraph::empty_node_addition(graph, dependencies, replies) == StepSpec::<
                Owned<CUgraphNode>,
            >::Done(Ok(node))
        }),
    ensures
        replies.len() >= 2,
        node.handle == CUgraphNode(replies[1].handle),
        node.ctx == graph.ctx,
{
}

/// `block` hands argument `i` of `arguments` to the kernel: its address, relative to the buffer,
/// is a multiple of its alignment, and the bytes there are those of its value.
pub open spec fn hands_over(
    block: KernelNodeBlockSpec,
    arguments: Seq<Argument>,
    i: int,
) -> bool {
    let start = block.kernel_params[i] as int;
    let end = start + arguments[i].bytes.len();
    &&& start % (arguments[i].align as int) == 0
    &&& end <= block.buffer.len()
    &&& block.buffer.subrange(start, end) == arguments[i].bytes
}

/// A kernel gets the arguments that were pushed, in their order, both from the node that is added
/// with them and from a node whose parameters are set to them; the two hand over the same block.
pub proof fn lemma_kernel_gets_the_pushed_arguments(
    graph: Owned<CUgraph>,
    dependencies: Seq<CUgraphNode>,
    exec: Owned<CUgraphExec>,
    node: CUgraphNode,
    params: ParamsModel,
    arguments: Seq<Argument>,
    bound: Reply,
)
    requires
        params.packs(arguments),
        crate::packing::aligned_types(arguments),
        bound.code == CUDA_SUCCESS,
    ensures
        CudaGraph::kernel_node_addition(graph, dependencies, params, seq![bound])
            == StepSpec::<Owned<CUgraphNode>>::Perform(
            ActionOf::GraphAddKernelNode {
                graph: graph.handle,
                dependencies: crate::graph::null_if_empty(dependencies),
                num_dependencies: dependencies.len() as usize,
                params: params.block(),
            },
        ),
        CudaGraphExec::kernel_node_change(exec, node, params, seq![bound]) == StepSpec::<
            (),
        >::Perform(
            ActionOf::GraphExecKernelNodeSetParams {
                graph_exec: exec.handle,
                node,
                params: params.block(),
            },
        ),
        params.block().kernel_params.len() == arguments.len(),
        forall|i: int|
            0 <= i < arguments.len() ==> #[trigger] hands_over(params.block(), arguments, i),
{
    assert forall|i: int| 0 <= i < arguments.len() implies #[trigger] hands_over(
        params.block(),
        arguments,
        i,
    ) by {
        crate::packing::lemma_packed_reads_back(arguments, i);
        crate::packing::lemma_packed_is_aligned(arguments, i, 0);
    }
}

} // verus!
