use std::sync::Arc;

use cuda_graph::capture::{thread_exchange_capture_mode, CaptureMode, CaptureModeGuard};
use cuda_graph::driver::{Action, CudaContext, DriverError, Reply, Step};
use cuda_graph::handle::{
    CUcontext, CUgraph, CUstream, CUDA_ERROR_INVALID_VALUE, CU_STREAM_CAPTURE_MODE_GLOBAL,
    CU_STREAM_CAPTURE_MODE_RELAXED, CU_STREAM_CAPTURE_MODE_THREAD_LOCAL,
};
use cuda_graph::stream::{CudaStream, CudaStreamCaptureExt};

fn reply(code: u32, handle: usize, value: u32) -> Reply {
    Reply { code, handle, value }
}

fn context() -> Arc<CudaContext> {
    Arc::new(CudaContext { cu_ctx: CUcontext(0x1000) })
}

fn mode_asked_for<T>(step: Step<T>) -> u32 {
    match step {
        Step::Perform(Action::ThreadExchangeStreamCaptureMode { mode }) => mode,
        _ => panic!("no exchange was asked for"),
    }
}

#[test]
fn capture_modes_have_the_driver_values() {
    assert_eq!(CaptureMode::Global.to_cuda(), 0);
    assert_eq!(CaptureMode::ThreadLocal.to_cuda(), 1);
    assert_eq!(CaptureMode::Relaxed.to_cuda(), 2);
    assert_eq!(CU_STREAM_CAPTURE_MODE_GLOBAL, 0);
    assert_eq!(CU_STREAM_CAPTURE_MODE_THREAD_LOCAL, 1);
    assert_eq!(CU_STREAM_CAPTURE_MODE_RELAXED, 2);
}

#[test]
fn capture_modes_round_trip() {
    for mode in [CaptureMode::Global, CaptureMode::ThreadLocal, CaptureMode::Relaxed] {
        assert_eq!(CaptureMode::from_cuda(mode.to_cuda()), Some(mode));
    }
    assert_eq!(CaptureMode::from_cuda(3), None);
    assert_eq!(CaptureMode::from_cuda(u32::MAX), None);
}

#[test]
fn exchange_hands_over_the_mode_and_returns_the_one_before() {
    assert_eq!(
        thread_exchange_capture_mode(CaptureMode::Relaxed, &[]),
        Step::Perform(Action::ThreadExchangeStreamCaptureMode { mode: 2 })
    );
    assert_eq!(
        thread_exchange_capture_mode(CaptureMode::Relaxed, &[reply(0, 0, 1)]),
        Step::Done(Ok(CaptureMode::ThreadLocal))
    );
}

#[test]
fn exchange_fails_as_the_driver_does_and_on_unknown_modes() {
    assert_eq!(
        thread_exchange_capture_mode(CaptureMode::Global, &[reply(999, 0, 1)]),
        Step::Done(Err(DriverError(999)))
    );
    assert_eq!(
        thread_exchange_capture_mode(CaptureMode::Global, &[reply(0, 0, 3)]),
        Step::Done(Err(DriverError(CUDA_ERROR_INVALID_VALUE)))
    );
    assert_eq!(CUDA_ERROR_INVALID_VALUE, 1);
}

#[test]
fn exchange_result_stands_when_more_replies_come() {
    let first = thread_exchange_capture_mode(CaptureMode::Global, &[reply(0, 0, 2)]);
    let more =
        thread_exchange_capture_mode(CaptureMode::Global, &[reply(0, 0, 2), reply(7, 0, 0)]);
    assert_eq!(first, more);
}

#[test]
fn guard_restores_the_mode_of_the_thread() {
    for before in [0u32, 1, 2] {
        let mut thread_mode = before;
        let asked = mode_asked_for(CaptureModeGuard::new(CaptureMode::Relaxed, &[]));
        let replaced = thread_mode;
        thread_mode = asked;
        assert_eq!(thread_mode, 2);
        let guard = match CaptureModeGuard::new(CaptureMode::Relaxed, &[reply(0, 0, replaced)]) {
            Step::Done(Ok(guard)) => guard,
            _ => panic!("the guard was not set up"),
        };
        thread_mode = mode_asked_for(guard.release(&[]));
        assert_eq!(thread_mode, before);
        assert_eq!(guard.release(&[reply(0, 0, 2)]), Step::Done(Ok(())));
        assert_eq!(guard.release(&[reply(700, 0, 9)]), Step::Done(Ok(())));
    }
}

#[test]
fn nested_guards_unwind_in_order() {
    let enter = |mode: CaptureMode, replaced: u32| {
        match CaptureModeGuard::new(mode, &[reply(0, 0, replaced)]) {
            Step::Done(Ok(guard)) => guard,
            _ => panic!("the guard was not set up"),
        }
    };
    let outer = enter(CaptureMode::ThreadLocal, 0);
    let inner = enter(CaptureMode::Relaxed, CaptureMode::ThreadLocal.to_cuda());
    assert_eq!(mode_asked_for(inner.release(&[])), 1);
    assert_eq!(mode_asked_for(outer.release(&[])), 0);
}

#[test]
fn guard_fails_as_the_exchange_does() {
    match CaptureModeGuard::new(CaptureMode::Global, &[reply(4, 0, 0)]) {
        Step::Done(Err(error)) => assert_eq!(error, DriverError(4)),
        _ => panic!("no failure"),
    }
    match CaptureModeGuard::new(CaptureMode::Global, &[reply(0, 0, 77)]) {
        Step::Done(Err(error)) => assert_eq!(error, DriverError(CUDA_ERROR_INVALID_VALUE)),
        _ => panic!("no failure"),
    }
}

#[test]
fn begin_capture_binds_and_then_begins() {
    let ctx = context();
    let stream = CudaStream::from_raw(CUstream(0x30), &ctx);
    assert_eq!(stream.cu_stream(), CUstream(0x30));
    assert_eq!(
        stream.begin_capture(CaptureMode::ThreadLocal, &[]),
        Step::Perform(Action::BindToThread { ctx: ctx.clone() })
    );
    assert_eq!(
        stream.begin_capture(CaptureMode::ThreadLocal, &[reply(0, 0, 0)]),
        Step::Perform(Action::StreamBeginCapture { stream: CUstream(0x30), mode: 1 })
    );
    assert_eq!(
        stream.begin_capture(CaptureMode::ThreadLocal, &[reply(0, 0, 0), reply(0, 0, 0)]),
        Step::Done(Ok(()))
    );
    assert_eq!(
        stream.begin_capture(CaptureMode::ThreadLocal, &[reply(0, 0, 0), reply(901, 0, 0)]),
        Step::Done(Err(DriverError(901)))
    );
    assert_eq!(
        stream.begin_capture(CaptureMode::ThreadLocal, &[reply(201, 0, 0)]),
        Step::Done(Err(DriverError(201)))
    );
}

#[test]
fn end_capture_yields_the_graph_that_the_driver_made() {
    let stream = CudaStream::from_raw(CUstream(0x30), &context());
    assert_eq!(
        stream.end_capture(&[reply(0, 0, 0)]),
        Step::Perform(Action::StreamEndCapture { stream: CUstream(0x30) })
    );
    match stream.end_capture(&[reply(0, 0, 0), reply(0, 0x77, 0)]) {
        Step::Done(Ok(graph)) => assert_eq!(graph.cu_graph(), CUgraph(0x77)),
        _ => panic!("no graph"),
    }
    assert_eq!(
        stream.end_capture(&[reply(0, 0, 0), reply(904, 0x77, 0)]),
        Step::Done(Err(DriverError(904)))
    );
    assert_eq!(stream.end_capture(&[reply(3, 0, 0)]), Step::Done(Err(DriverError(3))));
}

#[test]
fn is_capturing_tells_none_from_the_other_states() {
    let stream = CudaStream::from_raw(CUstream(0), &context());
    let bound = reply(0, 0, 0);
    assert_eq!(
        stream.is_capturing(&[bound]),
        Step::Perform(Action::StreamIsCapturing { stream: CUstream(0) })
    );
    assert_eq!(stream.is_capturing(&[bound, reply(0, 0, 0)]), Step::Done(Ok(false)));
    assert_eq!(stream.is_capturing(&[bound, reply(0, 0, 1)]), Step::Done(Ok(true)));
    assert_eq!(stream.is_capturing(&[bound, reply(0, 0, 2)]), Step::Done(Ok(true)));
    assert_eq!(stream.is_capturing(&[bound, reply(5, 0, 1)]), Step::Done(Err(DriverError(5))));
    assert_eq!(stream.is_capturing(&[reply(6, 0, 1)]), Step::Done(Err(DriverError(6))));
}
