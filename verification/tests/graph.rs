use std::sync::Arc;

use cuda_graph::capture::CaptureMode;
use cuda_graph::driver::{
    into_result, Action, CudaContext, DriverError, GraphExecUpdateResultInfo, KernelNodeBlock,
    Reply, Step,
};
use cuda_graph::graph::{CudaGraph, CudaGraphExec, CudaGraphNode, GraphUpdateResult};
use cuda_graph::handle::{
    CUcontext, CUfunction, CUgraph, CUgraphExec, CUgraphNode, CUstream,
};
use cuda_graph::params::KernelNodeParams;
use cuda_graph::stream::{CudaStream, CudaStreamCaptureExt};

const OK: Reply = Reply { code: 0, handle: 0, value: 0 };

fn reply(code: u32, handle: usize, value: u32) -> Reply {
    Reply { code, handle, value }
}

fn context(addr: usize) -> Arc<CudaContext> {
    Arc::new(CudaContext { cu_ctx: CUcontext(addr) })
}

fn done<T>(step: Step<T>) -> Result<T, DriverError> {
    match step {
        Step::Done(result) => result,
        Step::Perform(action) => panic!("still waits for {:?}", action),
    }
}

fn action<T>(step: Step<T>) -> Action {
    match step {
        Step::Perform(action) => action,
        Step::Done(_) => panic!("is done already"),
    }
}

fn graph(addr: usize) -> CudaGraph {
    done(CudaGraph::new(&context(0x1000), &[OK, reply(0, addr, 0)])).unwrap()
}

fn exec(addr: usize) -> CudaGraphExec {
    done(graph(0x10).instantiate(&[OK, reply(0, addr, 0)])).unwrap()
}

fn node(addr: usize) -> CudaGraphNode {
    done(graph(0x10).add_empty_node(&[], &[OK, reply(0, addr, 0)])).unwrap()
}

fn params() -> KernelNodeParams {
    let mut params = KernelNodeParams::new(CUfunction(0x40), (1, 2, 3), (4, 5, 6), 7);
    params.push_param::<u8>(&[0xaa]);
    params.push_param::<u32>(&[1, 2, 3, 4]);
    params
}

fn block() -> KernelNodeBlock {
    KernelNodeBlock {
        func: CUfunction(0x40),
        grid_dim_x: 1,
        grid_dim_y: 2,
        grid_dim_z: 3,
        block_dim_x: 4,
        block_dim_y: 5,
        block_dim_z: 6,
        shared_mem_bytes: 7,
        kernel_params: vec![0, 4],
        buffer: vec![0xaa, 0, 0, 0, 1, 2, 3, 4],
        extra: 0,
        kern: 0,
        ctx: 0,
    }
}

#[test]
fn only_code_zero_is_success() {
    assert_eq!(into_result(0), Ok(()));
    assert_eq!(into_result(1), Err(DriverError(1)));
    assert_eq!(into_result(999), Err(DriverError(999)));
}

#[test]
fn new_graph_binds_then_creates() {
    let ctx = context(0x1000);
    assert_eq!(action(CudaGraph::new(&ctx, &[])), Action::BindToThread { ctx: ctx.clone() });
    assert_eq!(action(CudaGraph::new(&ctx, &[OK])), Action::GraphCreate { flags: 0 });
    let graph = done(CudaGraph::new(&ctx, &[OK, reply(0, 0x20, 0)])).unwrap();
    assert_eq!(graph.cu_graph(), CUgraph(0x20));
    assert_eq!(
        done(CudaGraph::new(&ctx, &[reply(100, 0, 0)])),
        Err(DriverError(100))
    );
    assert_eq!(
        done(CudaGraph::new(&ctx, &[OK, reply(2, 0x20, 0)])),
        Err(DriverError(2))
    );
}

#[test]
fn result_stands_when_more_replies_come() {
    let ctx = context(0x1000);
    assert_eq!(
        done(CudaGraph::new(&ctx, &[reply(100, 0, 0), OK, OK])),
        Err(DriverError(100))
    );
    assert_eq!(
        CudaGraph::new(&ctx, &[OK, reply(0, 0x20, 0)]),
        CudaGraph::new(&ctx, &[OK, reply(0, 0x20, 0), reply(3, 4, 5)])
    );
}

#[test]
fn graphs_are_equal_by_handle_and_context() {
    assert_eq!(graph(0x20), graph(0x20));
    assert_ne!(graph(0x20), graph(0x21));
    let other = done(CudaGraph::new(&context(0x2000), &[OK, reply(0, 0x20, 0)])).unwrap();
    assert_ne!(graph(0x20), other);
}

#[test]
fn instantiate_uses_the_graph_and_its_context() {
    let g = graph(0x20);
    assert_eq!(action(g.instantiate(&[])), Action::BindToThread { ctx: context(0x1000) });
    assert_eq!(
        action(g.instantiate(&[OK])),
        Action::GraphInstantiateWithFlags { graph: CUgraph(0x20), flags: 0 }
    );
    let e = done(g.instantiate(&[OK, reply(0, 0x30, 0)])).unwrap();
    assert_eq!(e.cu_graph_exec(), CUgraphExec(0x30));
    assert_eq!(done(g.instantiate(&[OK, reply(8, 0x30, 0)])), Err(DriverError(8)));
    assert_eq!(done(g.instantiate(&[reply(9, 0, 0)])), Err(DriverError(9)));
}

#[test]
fn kernel_node_without_dependencies_passes_null() {
    let g = graph(0x20);
    assert_eq!(
        action(g.add_kernel_node(&[], &params(), &[])),
        Action::BindToThread { ctx: context(0x1000) }
    );
    assert_eq!(
        action(g.add_kernel_node(&[], &params(), &[OK])),
        Action::GraphAddKernelNode {
            graph: CUgraph(0x20),
            dependencies: None,
            num_dependencies: 0,
            params: block(),
        }
    );
    let n = done(g.add_kernel_node(&[], &params(), &[OK, reply(0, 0x50, 0)])).unwrap();
    assert_eq!(n.cu_node(), CUgraphNode(0x50));
}

#[test]
fn kernel_node_passes_its_dependencies_in_order() {
    let g = graph(0x20);
    let (a, b, c) = (node(0x51), node(0x52), node(0x53));
    assert_eq!(
        action(g.add_kernel_node(&[&c, &a, &b], &params(), &[OK])),
        Action::GraphAddKernelNode {
            graph: CUgraph(0x20),
            dependencies: Some(vec![CUgraphNode(0x53), CUgraphNode(0x51), CUgraphNode(0x52)]),
            num_dependencies: 3,
            params: block(),
        }
    );
}

#[test]
fn kernel_node_fails_as_its_calls_do() {
    let g = graph(0x20);
    assert_eq!(
        done(g.add_kernel_node(&[], &params(), &[reply(201, 0, 0)])),
        Err(DriverError(201))
    );
    assert_eq!(
        done(g.add_kernel_node(&[], &params(), &[OK, reply(98, 0x50, 0)])),
        Err(DriverError(98))
    );
}

#[test]
fn empty_node_passes_its_dependencies() {
    let g = graph(0x20);
    let a = node(0x51);
    assert_eq!(
        action(g.add_empty_node(&[&a], &[])),
        Action::BindToThread { ctx: context(0x1000) }
    );
    assert_eq!(
        action(g.add_empty_node(&[], &[OK])),
        Action::GraphAddEmptyNode { graph: CUgraph(0x20), dependencies: None, num_dependencies: 0 }
    );
    assert_eq!(
        action(g.add_empty_node(&[&a], &[OK])),
        Action::GraphAddEmptyNode {
            graph: CUgraph(0x20),
            dependencies: Some(vec![CUgraphNode(0x51)]),
            num_dependencies: 1,
        }
    );
    assert_eq!(
        done(g.add_empty_node(&[&a], &[OK, reply(0, 0x60, 0)])).unwrap().cu_node(),
        CUgraphNode(0x60)
    );
    assert_eq!(done(g.add_empty_node(&[&a], &[OK, reply(1, 0, 0)])), Err(DriverError(1)));
}

#[test]
fn dependencies_are_counted_by_the_shorter_list() {
    let g = graph(0x20);
    let (a, b, c) = (node(1), node(2), node(3));
    assert_eq!(
        action(g.add_dependencies(&[&a, &b, &c], &[&b, &c], &[OK])),
        Action::GraphAddDependencies {
            graph: CUgraph(0x20),
            from: vec![CUgraphNode(1), CUgraphNode(2), CUgraphNode(3)],
            to: vec![CUgraphNode(2), CUgraphNode(3)],
            edge_data: 0,
            num_dependencies: 2,
        }
    );
    assert_eq!(
        action(g.add_dependencies(&[&a], &[&b, &c], &[OK])),
        Action::GraphAddDependencies {
            graph: CUgraph(0x20),
            from: vec![CUgraphNode(1)],
            to: vec![CUgraphNode(2), CUgraphNode(3)],
            edge_data: 0,
            num_dependencies: 1,
        }
    );
    assert_eq!(done(g.add_dependencies(&[&a], &[&b], &[OK, OK])), Ok(()));
    assert_eq!(
        done(g.add_dependencies(&[&a], &[&b], &[OK, reply(1, 0, 0)])),
        Err(DriverError(1))
    );
}

#[test]
fn empty_dependency_lists_only_bind() {
    let g = graph(0x20);
    let a = node(1);
    assert_eq!(
        action(g.add_dependencies(&[], &[&a], &[])),
        Action::BindToThread { ctx: context(0x1000) }
    );
    assert_eq!(done(g.add_dependencies(&[], &[&a], &[OK])), Ok(()));
    assert_eq!(done(g.add_dependencies(&[&a], &[], &[OK])), Ok(()));
    assert_eq!(done(g.add_dependencies(&[], &[], &[OK, reply(5, 0, 0)])), Ok(()));
    assert_eq!(
        done(g.add_dependencies(&[], &[&a], &[reply(4, 0, 0)])),
        Err(DriverError(4))
    );
}

#[test]
fn launch_and_upload_name_the_graph_and_the_stream() {
    let e = exec(0x30);
    let stream = CudaStream::from_raw(CUstream(0x70), &context(0x2000));
    assert_eq!(action(e.launch(&stream, &[])), Action::BindToThread { ctx: context(0x1000) });
    assert_eq!(
        action(e.launch(&stream, &[OK])),
        Action::GraphLaunch { graph_exec: CUgraphExec(0x30), stream: CUstream(0x70) }
    );
    assert_eq!(done(e.launch(&stream, &[OK, OK])), Ok(()));
    assert_eq!(done(e.launch(&stream, &[OK, reply(700, 0, 0)])), Err(DriverError(700)));
    assert_eq!(done(e.launch(&stream, &[reply(4, 0, 0)])), Err(DriverError(4)));
    assert_eq!(action(e.upload(&stream, &[])), Action::BindToThread { ctx: context(0x1000) });
    assert_eq!(
        action(e.upload(&stream, &[OK])),
        Action::GraphUpload { graph_exec: CUgraphExec(0x30), stream: CUstream(0x70) }
    );
    assert_eq!(done(e.upload(&stream, &[OK, OK])), Ok(()));
    assert_eq!(done(e.upload(&stream, &[OK, reply(2, 0, 0)])), Err(DriverError(2)));
}

#[test]
fn update_reports_what_stands_against_it() {
    let e = exec(0x30);
    let g = graph(0x20);
    assert_eq!(action(e.update(&g, &[])), Action::BindToThread { ctx: context(0x1000) });
    assert_eq!(
        action(e.update(&g, &[OK])),
        Action::GraphExecUpdate {
            graph_exec: CUgraphExec(0x30),
            graph: CUgraph(0x20),
            result_info: GraphExecUpdateResultInfo {
                result: 0,
                error_node: CUgraphNode(0),
                error_from_node: CUgraphNode(0),
            },
        }
    );
    let refused = |value: u32| done(e.update(&g, &[OK, reply(910, 0, value)]));
    assert_eq!(refused(0), Ok(GraphUpdateResult::Unspecified));
    assert_eq!(refused(1), Ok(GraphUpdateResult::Unspecified));
    assert_eq!(refused(2), Ok(GraphUpdateResult::TopologyChanged));
    assert_eq!(refused(3), Ok(GraphUpdateResult::NodeTypeChanged));
    assert_eq!(refused(4), Ok(GraphUpdateResult::FunctionChanged));
    assert_eq!(refused(5), Ok(GraphUpdateResult::ParameterChanged));
    assert_eq!(refused(6), Ok(GraphUpdateResult::NotSupported));
    assert_eq!(refused(7), Ok(GraphUpdateResult::Unspecified));
    assert_eq!(refused(8), Ok(GraphUpdateResult::Unspecified));
    assert_eq!(done(e.update(&g, &[OK, reply(0, 0, 0)])), Ok(GraphUpdateResult::Success));
    assert_eq!(done(e.update(&g, &[OK, reply(0, 0, 2)])), Ok(GraphUpdateResult::Success));
    assert_eq!(done(e.update(&g, &[reply(4, 0, 2)])), Err(DriverError(4)));
}

#[test]
fn changed_parameters_are_those_of_an_added_node() {
    let e = exec(0x30);
    let n = node(0x50);
    assert_eq!(
        action(e.set_kernel_node_params(&n, &params(), &[])),
        Action::BindToThread { ctx: context(0x1000) }
    );
    assert_eq!(
        action(e.set_kernel_node_params(&n, &params(), &[OK])),
        Action::GraphExecKernelNodeSetParams {
            graph_exec: CUgraphExec(0x30),
            node: CUgraphNode(0x50),
            params: block(),
        }
    );
    assert_eq!(done(e.set_kernel_node_params(&n, &params(), &[OK, OK])), Ok(()));
    assert_eq!(
        done(e.set_kernel_node_params(&n, &params(), &[OK, reply(1, 0, 0)])),
        Err(DriverError(1))
    );
}

#[test]
fn release_destroys_even_where_the_binding_failed() {
    let ctx = context(0x1000);
    let g = graph(0x20);
    let bind = reply(201, 0, 0);
    let destroy = reply(400, 0, 0);
    assert_eq!(action(g.release(&[])), Action::BindToThread { ctx: ctx.clone() });
    assert_eq!(
        action(g.release(&[bind])),
        Action::RecordErr { ctx: ctx.clone(), result: Err(DriverError(201)) }
    );
    assert_eq!(action(g.release(&[bind, OK])), Action::GraphDestroy { graph: CUgraph(0x20) });
    assert_eq!(
        action(g.release(&[bind, OK, destroy])),
        Action::RecordErr { ctx: ctx.clone(), result: Err(DriverError(400)) }
    );
    assert_eq!(
        action(g.release(&[OK, OK, OK])),
        Action::RecordErr { ctx: ctx.clone(), result: Ok(()) }
    );
    assert_eq!(done(g.release(&[bind, OK, destroy, OK])), Ok(()));
    assert_eq!(
        action(exec(0x30).release(&[OK, OK])),
        Action::GraphExecDestroy { graph_exec: CUgraphExec(0x30) }
    );
    assert_eq!(
        action(node(0x50).release(&[OK, OK])),
        Action::GraphDestroyNode { node: CUgraphNode(0x50) }
    );
}

#[test]
fn null_handles_need_no_release() {
    assert_eq!(done(graph(0).release(&[])), Ok(()));
    assert_eq!(done(exec(0).release(&[])), Ok(()));
    assert_eq!(done(node(0).release(&[])), Ok(()));
}

/// A driver that hands out handles in order and writes down what it is asked for.
struct Recorder {
    next: usize,
    log: Vec<&'static str>,
}

impl Recorder {
    fn perform(&mut self, action: Action) -> Reply {
        let name = match action {
            Action::BindToThread { .. } => "bind",
            Action::RecordErr { .. } => "record",
            Action::GraphCreate { .. } => "create",
            Action::GraphDestroy { .. } => "destroy graph",
            Action::GraphInstantiateWithFlags { .. } => "instantiate",
            Action::GraphAddKernelNode { .. } => "add kernel node",
            Action::GraphDestroyNode { .. } => "destroy node",
            Action::GraphExecDestroy { .. } => "destroy exec",
            Action::GraphLaunch { .. } => "launch",
            Action::StreamBeginCapture { .. } => "begin capture",
            Action::StreamEndCapture { .. } => "end capture",
            other => panic!("unexpected {:?}", other),
        };
        self.log.push(name);
        self.next += 1;
        reply(0, self.next, 0)
    }

    fn run<T>(&mut self, operation: impl Fn(&[Reply]) -> Step<T>) -> Result<T, DriverError> {
        let mut replies: Vec<Reply> = Vec::new();
        loop {
            match operation(&replies) {
                Step::Done(result) => return result,
                Step::Perform(action) => {
                    let answer = self.perform(action);
                    replies.push(answer);
                }
            }
        }
    }
}

#[test]
fn a_captured_stream_is_launched() {
    let ctx = context(0x1000);
    let stream = CudaStream::from_raw(CUstream(0x70), &ctx);
    let mut driver = Recorder { next: 0x100, log: Vec::new() };
    driver.run(|r| stream.begin_capture(CaptureMode::Global, r)).unwrap();
    let graph = driver.run(|r| stream.end_capture(r)).unwrap();
    let exec = driver.run(|r| graph.instantiate(r)).unwrap();
    driver.run(|r| exec.launch(&stream, r)).unwrap();
    assert_eq!(graph.cu_graph(), CUgraph(0x104));
    assert_eq!(exec.cu_graph_exec(), CUgraphExec(0x106));
    assert_eq!(
        driver.log,
        vec![
            "bind", "begin capture", "bind", "end capture", "bind", "instantiate", "bind", "launch"
        ]
    );
}

#[test]
fn a_graph_built_by_hand_is_launched_and_released() {
    let ctx = context(0x1000);
    let stream = CudaStream::from_raw(CUstream(0x70), &ctx);
    let params = params();
    let mut driver = Recorder { next: 0x100, log: Vec::new() };
    let graph = driver.run(|r| CudaGraph::new(&ctx, r)).unwrap();
    let node = driver.run(|r| graph.add_kernel_node(&[], &params, r)).unwrap();
    let exec = driver.run(|r| graph.instantiate(r)).unwrap();
    driver.run(|r| exec.launch(&stream, r)).unwrap();
    driver.run(|r| exec.release(r)).unwrap();
    driver.run(|r| node.release(r)).unwrap();
    driver.run(|r| graph.release(r)).unwrap();
    assert_eq!(
        driver.log,
        vec![
            "bind", "create", "bind", "add kernel node", "bind", "instantiate", "bind", "launch",
            "bind", "record", "destroy exec", "record", "bind", "record", "destroy node", "record",
            "bind", "record", "destroy graph", "record"
        ]
    );
}
