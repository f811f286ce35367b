# cuda_graph

CUDA graph management: capturing a stream into a graph, building a graph node by node,
instantiating it, updating it, and launching it.

The library in `src/` is verified with Verus and makes no driver call. Each operation is a
function of its arguments and of the replies it has had so far. It answers with the next action to
perform or with its result, and its contract says exactly which.

- `driver`: actions, replies, steps, and the shapes that operations take
- `capture`, `stream`: capture modes, the capture mode guard, stream capture
- `graph`: graphs, nodes, executable graphs
- `params`, `packing`: kernel node parameters and the layout of kernel arguments
- `laws`: what holds across operations

`app/` makes the driver calls through `cuda-bindings`, which needs a CUDA toolkit to build, and
owns the driver objects.
