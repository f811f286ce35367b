//! CUDA graph management: capture, construction, instantiation and launch.
//!
//! A [`CudaGraph`](graph::CudaGraph) is a directed acyclic graph of GPU operations. It comes from
//! [capturing a stream](stream::CudaStreamCaptureExt) or is built node by node. Once built, it is
//! [instantiated](graph::CudaGraph::instantiate) into a
//! [`CudaGraphExec`](graph::CudaGraphExec), which can be launched on a stream.
//!
//! The library decides and the caller acts: every operation says which driver call comes next,
//! given the replies to the calls before. See [`driver`] for the protocol, [`calls`] for what
//! each operation asks and yields, and [`laws`] for what holds across operations.

pub mod calls;
pub mod capture;
pub mod driver;
pub mod graph;
pub mod handle;
pub mod laws;
pub mod packing;
pub mod params;
pub mod stream;
