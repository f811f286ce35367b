//! Driver handles and enumeration values as plain numbers.
//!
//! The driver identifies its objects by opaque pointers. The library never looks behind one: it
//! stores the address, passes it on, and asks whether it is null.

use vstd::prelude::*;

verus! {

/// Status code of a driver call; [`CUDA_SUCCESS`] is the only one that means success.
pub type CUresult = u32;

/// Raw value of the driver's stream capture mode enumeration.
pub type CUstreamCaptureMode = u32;

/// Raw value of the driver's stream capture status enumeration.
pub type CUstreamCaptureStatus = u32;

/// Raw value of the driver's graph update result enumeration.
pub type CUgraphExecUpdateResult = u32;

pub const CUDA_SUCCESS: CUresult = 0;

pub const CUDA_ERROR_INVALID_VALUE: CUresult = 1;

pub const CU_STREAM_CAPTURE_MODE_GLOBAL: CUstreamCaptureMode = 0;

pub const CU_STREAM_CAPTURE_MODE_THREAD_LOCAL: CUstreamCaptureMode = 1;

pub const CU_STREAM_CAPTURE_MODE_RELAXED: CUstreamCaptureMode = 2;

pub const CU_STREAM_CAPTURE_STATUS_NONE: CUstreamCaptureStatus = 0;

pub const CU_GRAPH_EXEC_UPDATE_SUCCESS: CUgraphExecUpdateResult = 0;

pub const CU_GRAPH_EXEC_UPDATE_ERROR_TOPOLOGY_CHANGED: CUgraphExecUpdateResult = 2;

pub const CU_GRAPH_EXEC_UPDATE_ERROR_NODE_TYPE_CHANGED: CUgraphExecUpdateResult = 3;

pub const CU_GRAPH_EXEC_UPDATE_ERROR_FUNCTION_CHANGED: CUgraphExecUpdateResult = 4;

pub const CU_GRAPH_EXEC_UPDATE_ERROR_PARAMETERS_CHANGED: CUgraphExecUpdateResult = 5;

pub const CU_GRAPH_EXEC_UPDATE_ERROR_NOT_SUPPORTED: CUgraphExecUpdateResult = 6;

/// Address of a driver context.
#[derive(Debug, Clone, Copy, PartialEq, Eq, Hash, Structural)]
pub struct CUcontext(pub usize);

/// Address of a driver stream; the null address is the default stream.
#[derive(Debug, Clone, Copy, PartialEq, Eq, Hash, Structural)]
pub struct CUstream(pub usize);

/// Address of a kernel function.
#[derive(Debug, Clone, Copy, PartialEq, Eq, Hash, Structural)]
pub struct CUfunction(pub usize);

/// Address of a driver graph.
#[derive(Debug, Clone, Copy, PartialEq, Eq, Hash, Structural)]
pub struct CUgraph(pub usize);

/// Address of an executable driver graph.
#[derive(Debug, Clone, Copy, PartialEq, Eq, Hash, Structural)]
pub struct CUgraphExec(pub usize);

/// Address of a node of a driver graph.
#[derive(Debug, Clone, Copy, PartialEq, Eq, Hash, Structural)]
pub struct CUgraphNode(pub usize);

} // verus!
