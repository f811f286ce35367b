//! Graphs, their nodes, and their executable form.

use std::sync::Arc;
use vstd::prelude::*;

use crate::driver::{
    into_result, release_step, Action, ActionOf, ActionSpec, CudaContext,
    GraphExecUpdateResultInfo, Owned, Progress, Reply, Step, StepOf, StepSpec,
};
use crate::handle::{
    CUgraph, CUgraphExec, CUgraphExecUpdateResult, CUgraphNode, CUresult, CUstream, CUDA_SUCCESS,
    CU_GRAPH_EXEC_UPDATE_ERROR_FUNCTION_CHANGED, CU_GRAPH_EXEC_UPDATE_ERROR_NODE_TYPE_CHANGED,
    CU_GRAPH_EXEC_UPDATE_ERROR_NOT_SUPPORTED, CU_GRAPH_EXEC_UPDATE_ERROR_PARAMETERS_CHANGED,
    CU_GRAPH_EXEC_UPDATE_ERROR_TOPOLOGY_CHANGED, CU_GRAPH_EXEC_UPDATE_SUCCESS,
};
use crate::params::{KernelNodeParams, ParamsModel};
use crate::stream::CudaStream;

verus! {

/// A directed acyclic graph of GPU operations.
#[derive(Debug, PartialEq, Eq)]
pub struct CudaGraph {
    cu_graph: CUgraph,
    ctx: Arc<CudaContext>,
}

/// The executable form of a graph, which can be launched on a stream.
#[derive(Debug, PartialEq, Eq)]
pub struct CudaGraphExec {
    cu_graph_exec: CUgraphExec,
    ctx: Arc<CudaContext>,
}

/// A node of a graph.
#[derive(Debug, PartialEq, Eq)]
pub struct CudaGraphNode {
    cu_node: CUgraphNode,
    ctx: Arc<CudaContext>,
}

impl View for CudaGraph {
    type V = Owned<CUgraph>;

    closed spec fn view(&self) -> Owned<CUgraph> {
        Owned { handle: self.cu_graph, ctx: self.ctx }
    }
}

impl View for CudaGraphExec {
    type V = Owned<CUgraphExec>;

    closed spec fn view(&self) -> Owned<CUgraphExec> {
        Owned { handle: self.cu_graph_exec, ctx: self.ctx }
    }
}

impl View for CudaGraphNode {
    type V = Owned<CUgraphNode>;

    closed spec fn view(&self) -> Owned<CUgraphNode> {
        Owned { handle: self.cu_node, ctx: self.ctx }
    }
}

/// The handles of `nodes`, in order.
pub open spec fn handles_of(nodes: Seq<&CudaGraphNode>) -> Seq<CUgraphNode> {
    nodes.map_values(|node: &CudaGraphNode| node@.handle)
}

/// A list as the driver takes it: the null pointer stands for an empty one.
pub open spec fn null_if_empty(nodes: Seq<CUgraphNode>) -> Option<Seq<CUgraphNode>> {
    if nodes.len() == 0 {
        None
    } else {
        Some(nodes)
    }
}

fn node_handles(nodes: &[&CudaGraphNode]) -> (handles: Vec<CUgraphNode>)
    ensures
        handles@ == handles_of(nodes@),
{
    let mut handles: Vec<CUgraphNode> = Vec::new();
    let mut i: usize = 0;
    while i < nodes.len()
        invariant
            i <= nodes.len(),
            handles@ == handles_of(nodes@.take(i as int)),
        decreases nodes.len() - i,
    {
        handles.push(nodes[i].cu_node);
        assert(nodes@.take(i + 1) == nodes@.take(i as int).push(nodes@[i as int]));
        i = i + 1;
    }
    assert(nodes@.take(i as int) == nodes@);
    handles
}

fn nonempty(nodes: Vec<CUgraphNode>) -> (list: Option<Vec<CUgraphNode>>)
    ensures
        crate::driver::view_of_list(list) == null_if_empty(nodes@),
{
    if nodes.is_empty() {
        None
    } else {
        Some(nodes)
    }
}

impl CudaGraph {
    /// The steps of creating an empty graph in `ctx`.
    pub open spec fn creation(ctx: Arc<CudaContext>, replies: Seq<Reply>) -> StepSpec<
        Owned<CUgraph>,
    > {
        crate::driver::bind_then(
            ctx,
            ActionOf::GraphCreate { flags: 0 },
            crate::driver::on_success(
                |reply: Reply| Owned { handle: CUgraph(reply.handle), ctx },
            ),
            replies,
        )
    }

    /// The steps of instantiating `graph`.
    pub open spec fn instantiation(graph: Owned<CUgraph>, replies: Seq<Reply>) -> StepSpec<
        Owned<CUgraphExec>,
    > {
        crate::driver::bind_then(
            graph.ctx,
            ActionOf::GraphInstantiateWithFlags { graph: graph.handle, flags: 0 },
            crate::driver::on_success(
                |reply: Reply| Owned { handle: CUgraphExec(reply.handle), ctx: graph.ctx },
            ),
            replies,
        )
    }

    /// The steps of adding to `graph` the node that the driver call `call` makes.
    pub open spec fn node_addition(
        graph: Owned<CUgraph>,
        call: ActionSpec,
        replies: Seq<Reply>,
    ) -> StepSpec<Owned<CUgraphNode>> {
        crate::driver::bind_then(
            graph.ctx,
            call,
            crate::driver::on_success(
                |reply: Reply| Owned { handle: CUgraphNode(reply.handle), ctx: graph.ctx },
            ),
            replies,
        )
    }

    /// The steps of adding a kernel node to `graph`.
    pub open spec fn kernel_node_addition(
        graph: Owned<CUgraph>,
        dependencies: Seq<CUgraphNode>,
        params: ParamsModel,
        replies: Seq<Reply>,
    ) -> StepSpec<Owned<CUgraphNode>> {
        Self::node_addition(
            graph,
            ActionOf::GraphAddKernelNode {
                graph: graph.handle,
                dependencies: null_if_empty(dependencies),
                num_dependencies: dependencies.len() as usize,
                params: params.block(),
            },
            replies,
        )
    }

    /// The steps of adding an empty node to `graph`.
    pub open spec fn empty_node_addition(
        graph: Owned<CUgraph>,
        dependencies: Seq<CUgraphNode>,
        replies: Seq<Reply>,
    ) -> StepSpec<Owned<CUgraphNode>> {
        Self::node_addition(
            graph,
            ActionOf::GraphAddEmptyNode {
                graph: graph.handle,
                dependencies: null_if_empty(dependencies),
                num_dependencies: dependencies.len() as usize,
            },
            replies,
        )
    }

    /// The steps of making each of `to` depend on its partner in `from`. The longer list's
    /// surplus has no partner and adds nothing; where no pair is left, no call is made.
    pub open spec fn dependency_addition(
        graph: Owned<CUgraph>,
        from: Seq<CUgraphNode>,
        to: Seq<CUgraphNode>,
        replies: Seq<Reply>,
    ) -> StepSpec<()> {
        let pairs = if from.len() <= to.len() {
            from.len()
        } else {
            to.len()
        };
        if pairs == 0 {
            crate::driver::bind_only(graph.ctx, replies)
        } else {
            crate::driver::bind_then(
                graph.ctx,
                ActionOf::GraphAddDependencies {
                    graph: graph.handle,
                    from,
                    to,
                    edge_data: 0,
                    num_dependencies: pairs as usize,
                },
                crate::driver::checked(),
                replies,
            )
        }
    }

    /// The steps of releasing `graph`.
    pub open spec fn release_steps(graph: Owned<CUgraph>, replies: Seq<Reply>) -> StepSpec<()> {
        crate::driver::release_of(
            graph.handle.0 == 0,
            graph.ctx,
            ActionOf::GraphDestroy { graph: graph.handle },
            replies,
        )
    }

    /// The graph that the driver has made in `ctx` under this handle.
    pub(crate) fn from_driver(cu_graph: CUgraph, ctx: &Arc<CudaContext>) -> (graph: Self)
        ensures
            graph@ == (Owned { handle: cu_graph, ctx: *ctx }),
    {
        CudaGraph { cu_graph, ctx: ctx.clone() }
    }

    /// Creates an empty graph.
    pub fn new(ctx: &Arc<CudaContext>, replies: &[Reply]) -> (step: Step<CudaGraph>)
        ensures
            step@ == Self::creation(*ctx, replies@),
    {
        match Progress::after(replies) {
            Progress::Unbound => StepOf::Perform(ActionOf::BindToThread { ctx: ctx.clone() }),
            Progress::Failed(error) => StepOf::Done(Err(error)),
            Progress::Bound => StepOf::Perform(ActionOf::GraphCreate { flags: 0 }),
            Progress::Answered(reply) => match into_result(reply.code) {
                Ok(()) => StepOf::Done(Ok(Self::from_driver(CUgraph(reply.handle), ctx))),
                Err(error) => StepOf::Done(Err(error)),
            },
        }
    }

    pub fn cu_graph(&self) -> (cu_graph: CUgraph)
        ensures
            cu_graph == self@.handle,
    {
        self.cu_graph
    }

    /// Makes the graph's executable form, in the graph's context.
    pub fn instantiate(&self, replies: &[Reply]) -> (step: Step<CudaGraphExec>)
        ensures
            step@ == Self::instantiation(self@, replies@),
    {
        match Progress::after(replies) {
            Progress::Unbound => StepOf::Perform(ActionOf::BindToThread { ctx: self.ctx.clone() }),
            Progress::Failed(error) => StepOf::Done(Err(error)),
            Progress::Bound => StepOf::Perform(
                ActionOf::GraphInstantiateWithFlags { graph: self.cu_graph, flags: 0 },
            ),
            Progress::Answered(reply) => match into_result(reply.code) {
                Ok(()) => StepOf::Done(
                    Ok(
                        CudaGraphExec {
                            cu_graph_exec: CUgraphExec(reply.handle),
                            ctx: self.ctx.clone(),
                        },
                    ),
                ),
                Err(error) => StepOf::Done(Err(error)),
            },
        }
    }

    /// Adds a node that launches a kernel once all of `dependencies` have run.
    pub fn add_kernel_node(
        &self,
        dependencies: &[&CudaGraphNode],
        params: &KernelNodeParams,
        replies: &[Reply],
    ) -> (step: Step<CudaGraphNode>)
        ensures
            step@ == Self::kernel_node_addition(
                self@,
                handles_of(dependencies@),
                params@,
                replies@,
            ),
    {
        match Progress::after(replies) {
            Progress::Unbound => StepOf::Perform(ActionOf::BindToThread { ctx: self.ctx.clone() }),
            Progress::Failed(error) => StepOf::Done(Err(error)),
            Progress::Bound => {
                let dep_nodes = node_handles(dependencies);
                let num_dependencies: usize = dep_nodes.len();
                StepOf::Perform(
                    ActionOf::GraphAddKernelNode {
                        graph: self.cu_graph,
                        dependencies: nonempty(dep_nodes),
                        num_dependencies,
                        params: params.to_block(),
                    },
                )
            },
            Progress::Answered(reply) => self.added_node(reply),
        }
    }

    /// Adds a node that does nothing but wait for all of `dependencies`.
    pub fn add_empty_node(
        &self,
        dependencies: &[&CudaGraphNode],
        replies: &[Reply],
    ) -> (step: Step<CudaGraphNode>)
        ensures
            step@ == Self::empty_node_addition(self@, handles_of(dependencies@), replies@),
    {
        match Progress::after(replies) {
            Progress::Unbound => StepOf::Perform(ActionOf::BindToThread { ctx: self.ctx.clone() }),
            Progress::Failed(error) => StepOf::Done(Err(error)),
            Progress::Bound => {
                let dep_nodes = node_handles(dependencies);
                let num_dependencies: usize = dep_nodes.len();
                StepOf::Perform(
                    ActionOf::GraphAddEmptyNode {
                        graph: self.cu_graph,
                        dependencies: nonempty(dep_nodes),
                        num_dependencies,
                    },
                )
            },
            Progress::Answered(reply) => self.added_node(reply),
        }
    }

    fn added_node(&self, reply: Reply) -> (step: Step<CudaGraphNode>)
        ensures
            step@ == StepSpec::<Owned<CUgraphNode>>::Done(
                match crate::driver::result_of(reply.code) {
                    Ok(()) => Ok(Owned { handle: CUgraphNode(reply.handle), ctx: self@.ctx }),
                    Err(error) => Err(error),
                },
            ),
    {
        match into_result(reply.code) {
            Ok(()) => StepOf::Done(
                Ok(CudaGraphNode { cu_node: CUgraphNode(reply.handle), ctx: self.ctx.clone() }),
            ),
            Err(error) => StepOf::Done(Err(error)),
        }
    }

    /// Makes each of `to` depend on the node at the same position of `from`.
    pub fn add_dependencies(
        &self,
        from: &[&CudaGraphNode],
        to: &[&CudaGraphNode],
        replies: &[Reply],
    ) -> (step: Step<()>)
        ensures
            step@ == Self::dependency_addition(
                self@,
                handles_of(from@),
                handles_of(to@),
                replies@,
            ),
    {
        match Progress::after(replies) {
            Progress::Unbound => StepOf::Perform(ActionOf::BindToThread { ctx: self.ctx.clone() }),
            Progress::Failed(error) => StepOf::Done(Err(error)),
            Progress::Bound => {
                if from.is_empty() || to.is_empty() {
                    return StepOf::Done(Ok(()));
                }
                let from_nodes = node_handles(from);
                let to_nodes = node_handles(to);
                let count: usize = if from.len() <= to.len() {
                    from.len()
                } else {
                    to.len()
                };
                StepOf::Perform(
                    ActionOf::GraphAddDependencies {
                        graph: self.cu_graph,
                        from: from_nodes,
                        to: to_nodes,
                        edge_data: 0,
                        num_dependencies: count,
                    },
                )
            },
            Progress::Answered(reply) => {
                if from.is_empty() || to.is_empty() {
                    return StepOf::Done(Ok(()));
                }
                StepOf::Done(into_result(reply.code))
            },
        }
    }

    /// Gives the graph back to the driver. To be run when the graph goes out of use.
    pub fn release(&self, replies: &[Reply]) -> (step: Step<()>)
        ensures
            step@ == Self::release_steps(self@, replies@),
    {
        release_step(
            self.cu_graph.0 == 0,
            &self.ctx,
            ActionOf::GraphDestroy { graph: self.cu_graph },
            replies,
        )
    }
}

/// Result of [`CudaGraphExec::update`].
#[derive(Debug, Clone, Copy, PartialEq, Eq, Structural)]
pub enum GraphUpdateResult {
    Success,
    TopologyChanged,
    NodeTypeChanged,
    FunctionChanged,
    ParameterChanged,
    NotSupported,
    Unspecified,
}

impl GraphUpdateResult {
    /// What an update has come to that the driver ended with `code` and reported as `report`.
    pub open spec fn of(code: CUresult, report: CUgraphExecUpdateResult) -> GraphUpdateResult {
        if code == CUDA_SUCCESS {
            GraphUpdateResult::Success
        } else if report == CU_GRAPH_EXEC_UPDATE_ERROR_TOPOLOGY_CHANGED {
            GraphUpdateResult::TopologyChanged
        } else if report == CU_GRAPH_EXEC_UPDATE_ERROR_NODE_TYPE_CHANGED {
            GraphUpdateResult::NodeTypeChanged
        } else if report == CU_GRAPH_EXEC_UPDATE_ERROR_FUNCTION_CHANGED {
            GraphUpdateResult::FunctionChanged
        } else if report == CU_GRAPH_EXEC_UPDATE_ERROR_PARAMETERS_CHANGED {
            GraphUpdateResult::ParameterChanged
        } else if report == CU_GRAPH_EXEC_UPDATE_ERROR_NOT_SUPPORTED {
            GraphUpdateResult::NotSupported
        } else {
            GraphUpdateResult::Unspecified
        }
    }

    fn from_reply(reply: Reply) -> (result: GraphUpdateResult)
        ensures
            result == Self::of(reply.code, reply.value),
    {
        if reply.code == CUDA_SUCCESS {
            return GraphUpdateResult::Success;
        }
        if reply.value == CU_GRAPH_EXEC_UPDATE_ERROR_TOPOLOGY_CHANGED {
            GraphUpdateResult::TopologyChanged
        } else if reply.value == CU_GRAPH_EXEC_UPDATE_ERROR_NODE_TYPE_CHANGED {
            GraphUpdateResult::NodeTypeChanged
        } else if reply.value == CU_GRAPH_EXEC_UPDATE_ERROR_FUNCTION_CHANGED {
            GraphUpdateResult::FunctionChanged
        } else if reply.value == CU_GRAPH_EXEC_UPDATE_ERROR_PARAMETERS_CHANGED {
            GraphUpdateResult::ParameterChanged
        } else if reply.value == CU_GRAPH_EXEC_UPDATE_ERROR_NOT_SUPPORTED {
            GraphUpdateResult::NotSupported
        } else {
            GraphUpdateResult::Unspecified
        }
    }
}

impl View for GraphUpdateResult {
    type V = GraphUpdateResult;

    open spec fn view(&self) -> GraphUpdateResult {
        *self
    }
}

impl CudaGraphExec {
    /// The steps of launching `exec` on `stream`.
    pub open spec fn launching(
        exec: Owned<CUgraphExec>,
        stream: CUstream,
        replies: Seq<Reply>,
    ) -> StepSpec<()> {
        crate::driver::bind_then(
            exec.ctx,
            ActionOf::GraphLaunch { graph_exec: exec.handle, stream },
            crate::driver::checked(),
            replies,
        )
    }

    /// The steps of uploading `exec` to `stream`.
    pub open spec fn uploading(
        exec: Owned<CUgraphExec>,
        stream: CUstream,
        replies: Seq<Reply>,
    ) -> StepSpec<()> {
        crate::driver::bind_then(
            exec.ctx,
            ActionOf::GraphUpload { graph_exec: exec.handle, stream },
            crate::driver::checked(),
            replies,
        )
    }

    /// The steps of updating `exec` to the topology and parameters of `graph`. The driver's
    /// refusal is a result, not a failure.
    pub open spec fn updating(
        exec: Owned<CUgraphExec>,
        graph: CUgraph,
        replies: Seq<Reply>,
    ) -> StepSpec<GraphUpdateResult> {
        crate::driver::bind_then(
            exec.ctx,
            ActionOf::GraphExecUpdate {
                graph_exec: exec.handle,
                graph,
                result_info: GraphExecUpdateResultInfo {
                    result: CU_GRAPH_EXEC_UPDATE_SUCCESS,
                    error_node: CUgraphNode(0),
                    error_from_node: CUgraphNode(0),
                },
            },
            |reply: Reply| Ok(GraphUpdateResult::of(reply.code, reply.value)),
            replies,
        )
    }

    /// The steps of changing the parameters of the kernel node `node` in `exec`.
    pub open spec fn kernel_node_change(
        exec: Owned<CUgraphExec>,
        node: CUgraphNode,
        params: ParamsModel,
        replies: Seq<Reply>,
    ) -> StepSpec<()> {
        crate::driver::bind_then(
            exec.ctx,
            ActionOf::GraphExecKernelNodeSetParams {
                graph_exec: exec.handle,
                node,
                params: params.block(),
            },
            crate::driver::checked(),
            replies,
        )
    }

    /// The steps of releasing `exec`.
    pub open spec fn release_steps(exec: Owned<CUgraphExec>, replies: Seq<Reply>) -> StepSpec<()> {
        crate::driver::release_of(
            exec.handle.0 == 0,
            exec.ctx,
            ActionOf::GraphExecDestroy { graph_exec: exec.handle },
            replies,
        )
    }

    pub fn cu_graph_exec(&self) -> (cu_graph_exec: CUgraphExec)
        ensures
            cu_graph_exec == self@.handle,
    {
        self.cu_graph_exec
    }

    /// Binds the graph's context, makes `call`, and reports its status.
    fn plain_call(&self, call: Action, replies: &[Reply]) -> (step: Step<()>)
        ensures
            step@ == crate::driver::bind_then(
                self@.ctx,
                call@,
                crate::driver::checked(),
                replies@,
            ),
    {
        match Progress::after(replies) {
            Progress::Unbound => StepOf::Perform(ActionOf::BindToThread { ctx: self.ctx.clone() }),
            Progress::Failed(error) => StepOf::Done(Err(error)),
            Progress::Bound => StepOf::Perform(call),
            Progress::Answered(reply) => StepOf::Done(into_result(reply.code)),
        }
    }

    /// Launches the graph on `stream`.
    pub fn launch(&self, stream: &CudaStream, replies: &[Reply]) -> (step: Step<()>)
        ensures
            step@ == Self::launching(self@, stream@.handle, replies@),
    {
        self.plain_call(
            ActionOf::GraphLaunch { graph_exec: self.cu_graph_exec, stream: stream.cu_stream() },
            replies,
        )
    }

    /// Uploads the graph to the device, so that its first launch need not.
    pub fn upload(&self, stream: &CudaStream, replies: &[Reply]) -> (step: Step<()>)
        ensures
            step@ == Self::uploading(self@, stream@.handle, replies@),
    {
        self.plain_call(
            ActionOf::GraphUpload { graph_exec: self.cu_graph_exec, stream: stream.cu_stream() },
            replies,
        )
    }

    /// Updates the executable graph to match `updated_graph`, or says what stands against it.
    pub fn update(
        &self,
        updated_graph: &CudaGraph,
        replies: &[Reply],
    ) -> (step: Step<GraphUpdateResult>)
        ensures
            step@ == Self::updating(self@, updated_graph@.handle, replies@),
    {
        match Progress::after(replies) {
            Progress::Unbound => StepOf::Perform(ActionOf::BindToThread { ctx: self.ctx.clone() }),
            Progress::Failed(error) => StepOf::Done(Err(error)),
            Progress::Bound => StepOf::Perform(
                ActionOf::GraphExecUpdate {
                    graph_exec: self.cu_graph_exec,
                    graph: updated_graph.cu_graph,
                    result_info: GraphExecUpdateResultInfo {
                        result: CU_GRAPH_EXEC_UPDATE_SUCCESS,
                        error_node: CUgraphNode(0),
                        error_from_node: CUgraphNode(0),
                    },
                },
            ),
            Progress::Answered(reply) => StepOf::Done(Ok(GraphUpdateResult::from_reply(reply))),
        }
    }

    /// Changes the parameters with which the kernel node `node` will be launched.
    pub fn set_kernel_node_params(
        &self,
        node: &CudaGraphNode,
        params: &KernelNodeParams,
        replies: &[Reply],
    ) -> (step: Step<()>)
        ensures
            step@ == Self::kernel_node_change(self@, node@.handle, params@, replies@),
    {
        self.plain_call(
            ActionOf::GraphExecKernelNodeSetParams {
                graph_exec: self.cu_graph_exec,
                node: node.cu_node,
                params: params.to_block(),
            },
            replies,
        )
    }

    /// Gives the executable graph back to the driver. To be run when it goes out of use.
    pub fn release(&self, replies: &[Reply]) -> (step: Step<()>)
        ensures
            step@ == Self::release_steps(self@, replies@),
    {
        release_step(
            self.cu_graph_exec.0 == 0,
            &self.ctx,
            ActionOf::GraphExecDestroy { graph_exec: self.cu_graph_exec },
            replies,
        )
    }
}

impl CudaGraphNode {
    /// The steps of releasing `node`.
    pub open spec fn release_steps(node: Owned<CUgraphNode>, replies: Seq<Reply>) -> StepSpec<()> {
        crate::driver::release_of(
            node.handle.0 == 0,
            node.ctx,
            ActionOf::GraphDestroyNode { node: node.handle },
            replies,
        )
    }

    pub fn cu_node(&self) -> (cu_node: CUgraphNode)
        ensures
            cu_node == self@.handle,
    {
        self.cu_node
    }

    /// Removes the node from its graph. To be run when the node goes out of use.
    pub fn release(&self, replies: &[Reply]) -> (step: Step<()>)
        ensures
            step@ == Self::release_steps(self@, replies@),
    {
        release_step(
            self.cu_node.0 == 0,
            &self.ctx,
            ActionOf::GraphDestroyNode { node: self.cu_node },
            replies,
        )
    }
}

} // verus!
