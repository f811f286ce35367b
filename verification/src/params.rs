//! Arguments of a kernel launch node, packed into one buffer.
//!
//! Each argument is stored at the lowest free offset that its type's alignment allows, and the
//! bytes skipped on the way are zero. The offsets are kept, so that the address of every argument
//! can be formed once the buffer has one.

use vstd::prelude::*;

use crate::driver::{KernelNodeBlock, KernelNodeBlockSpec};
use crate::handle::CUfunction;
use crate::packing::Argument;

verus! {

/// Parameters for a kernel launch node in a CUDA graph.
#[derive(Debug)]
pub struct KernelNodeParams {
    pub func: CUfunction,
    pub grid_dim: (u32, u32, u32),
    pub block_dim: (u32, u32, u32),
    pub shared_mem_bytes: u32,
    kernel_params_bytes: Vec<u8>,
    kernel_param_offsets: Vec<usize>,
}

/// What a [`KernelNodeParams`] says: the launch geometry, and the packed arguments.
#[verifier::ext_equal]
pub struct ParamsModel {
    pub func: CUfunction,
    pub grid_dim: (u32, u32, u32),
    pub block_dim: (u32, u32, u32),
    pub shared_mem_bytes: u32,
    /// The packed argument buffer.
    pub bytes: Seq<u8>,
    /// The start of each argument in the buffer, in the order the arguments were pushed.
    pub offsets: Seq<usize>,
}

impl ParamsModel {
    /// No argument starts before an earlier one, and none starts behind the end of the buffer.
    pub open spec fn wf(self) -> bool {
        &&& forall|i: int| 0 <= i < self.offsets.len() ==> self.offsets[i] <= self.bytes.len()
        &&& forall|i: int, j: int|
            0 <= i <= j < self.offsets.len() ==> self.offsets[i] <= self.offsets[j]
    }

    /// The buffer and the offsets are those of `arguments`, packed in this order.
    pub open spec fn packs(self, arguments: Seq<Argument>) -> bool {
        &&& self.bytes == crate::packing::packed(arguments)
        &&& self.offsets.len() == arguments.len()
        &&& forall|i: int|
            0 <= i < arguments.len() ==> self.offsets[i] == crate::packing::packed_offset(
                arguments,
                i,
            )
    }

    /// A buffer cannot grow beyond `isize::MAX` bytes; this says that one more `T` fits.
    pub open spec fn room_for<T>(self) -> bool {
        crate::packing::align_up(self.bytes.len() as int, vstd::layout::align_of::<T>() as int)
            + vstd::layout::size_of::<T>() <= isize::MAX
    }

    /// The same launch with `argument` packed behind the others.
    pub open spec fn push(self, argument: Argument) -> ParamsModel {
        ParamsModel {
            bytes: crate::packing::packed_behind(self.bytes, argument),
            offsets: self.offsets.push(
                crate::packing::align_up(self.bytes.len() as int, argument.align as int) as usize,
            ),
            ..self
        }
    }

    /// The parameter block that the driver is given for this launch.
    pub open spec fn block(self) -> KernelNodeBlockSpec {
        KernelNodeBlockSpec {
            func: self.func,
            grid_dim_x: self.grid_dim.0,
            grid_dim_y: self.grid_dim.1,
            grid_dim_z: self.grid_dim.2,
            block_dim_x: self.block_dim.0,
            block_dim_y: self.block_dim.1,
            block_dim_z: self.block_dim.2,
            shared_mem_bytes: self.shared_mem_bytes,
            kernel_params: self.offsets,
            buffer: self.bytes,
            extra: 0,
            kern: 0,
            ctx: 0,
        }
    }
}

impl View for KernelNodeParams {
    type V = ParamsModel;

    closed spec fn view(&self) -> ParamsModel {
        ParamsModel {
            func: self.func,
            grid_dim: self.grid_dim,
            block_dim: self.block_dim,
            shared_mem_bytes: self.shared_mem_bytes,
            bytes: self.kernel_params_bytes@,
            offsets: self.kernel_param_offsets@,
        }
    }
}

impl KernelNodeParams {
    pub fn new(
        func: CUfunction,
        grid: (u32, u32, u32),
        block: (u32, u32, u32),
        shared_mem: u32,
    ) -> (params: Self)
        ensures
            params@ == (ParamsModel {
                func,
                grid_dim: grid,
                block_dim: block,
                shared_mem_bytes: shared_mem,
                bytes: Seq::empty(),
                offsets: Seq::empty(),
            }),
            params@.wf(),
            params@.packs(Seq::empty()),
    {
        Self {
            func,
            grid_dim: grid,
            block_dim: block,
            shared_mem_bytes: shared_mem,
            kernel_params_bytes: Vec::new(),
            kernel_param_offsets: Vec::new(),
        }
    }

    /// Whether one more argument of type `T` can be pushed.
    pub fn has_room_for<T>(&self) -> (b: bool)
        ensures
            b == self@.room_for::<T>(),
    {
        let offset: usize = self.kernel_params_bytes.len();
        let align: usize = core::mem::align_of::<T>();
        let size: usize = core::mem::size_of::<T>();
        proof {
            broadcast use vstd::layout::align_nonzero;
        }
        let padding: usize = (align - (offset % align)) % align;
        let limit: usize = isize::MAX as usize;
        offset <= limit && padding <= limit - offset && size <= limit - offset - padding
    }

    /// Appends an argument of type `T`, given by the bytes of its value.
    pub fn push_param<T: Copy + 'static>(&mut self, value: &[u8])
        requires
            value@.len() == vstd::layout::size_of::<T>(),
            old(self)@.room_for::<T>(),
        ensures
            final(self)@ == old(self)@.push(
                (Argument { align: vstd::layout::align_of::<T>(), bytes: value@ }),
            ),
            old(self)@.wf() ==> final(self)@.wf(),
            forall|arguments: Seq<Argument>| #[trigger]
                old(self)@.packs(arguments) ==> final(self)@.packs(
                    arguments.push(
                        (Argument { align: vstd::layout::align_of::<T>(), bytes: value@ }),
                    ),
                ),
    {
        let offset: usize = self.kernel_params_bytes.len();
        let align: usize = core::mem::align_of::<T>();
        proof {
            broadcast use vstd::layout::align_nonzero;
        }
        let padding: usize = (align - (offset % align)) % align;
        self.kernel_params_bytes.resize(offset + padding, 0);
        let aligned_offset: usize = self.kernel_params_bytes.len();
        self.kernel_params_bytes.extend_from_slice(value);
        self.kernel_param_offsets.push(aligned_offset);
        proof {
            let argument = Argument { align: vstd::layout::align_of::<T>(), bytes: value@ };
            assert(self@ == old(self)@.push(argument));
            if old(self)@.wf() {
                lemma_push_keeps_wf(old(self)@, argument);
            }
            assert forall|arguments: Seq<Argument>| #[trigger]
                old(self)@.packs(arguments) implies self@.packs(arguments.push(argument)) by {
                lemma_push_packs(old(self)@, arguments, argument);
            }
        }
    }

    /// The address of each argument, relative to the start of a buffer that holds a copy of the
    /// packed arguments, and that buffer.
    pub fn to_raw(&self) -> (raw: (Vec<usize>, Vec<u8>))
        ensures
            raw.0@ == self@.offsets,
            raw.1@ == self@.bytes,
            self@.wf() ==> forall|i: int|
                0 <= i < raw.0@.len() ==> #[trigger] raw.0@[i] <= raw.1@.len(),
    {
        let buf = self.kernel_params_bytes.clone();
        let ptrs = self.kernel_param_offsets.clone();
        assert(buf@ == self.kernel_params_bytes@);
        assert(ptrs@ == self.kernel_param_offsets@);
        (ptrs, buf)
    }

    /// The parameter block for a driver call that adds or changes a kernel node.
    pub(crate) fn to_block(&self) -> (block: KernelNodeBlock)
        ensures
            block@ == self@.block(),
    {
        let (ptrs, buf) = self.to_raw();
        KernelNodeBlock {
            func: self.func,
            grid_dim_x: self.grid_dim.0,
            grid_dim_y: self.grid_dim.1,
            grid_dim_z: self.grid_dim.2,
            block_dim_x: self.block_dim.0,
            block_dim_y: self.block_dim.1,
            block_dim_z: self.block_dim.2,
            shared_mem_bytes: self.shared_mem_bytes,
            kernel_params: ptrs,
            buffer: buf,
            extra: 0,
            kern: 0,
            ctx: 0,
        }
    }
}

/// The model of a launch is what its fields hold.
proof fn lemma_view_is_the_fields(params: KernelNodeParams)
    ensures
        params@.func == params.func,
        params@.grid_dim == params.grid_dim,
        params@.block_dim == params.block_dim,
        params@.shared_mem_bytes == params.shared_mem_bytes,
        params@.bytes == params.kernel_params_bytes@,
        params@.offsets == params.kernel_param_offsets@,
{
}

/// Pushing an argument leaves the launch geometry and everything already packed as it was. The
/// argument starts at the first multiple of its alignment from the old end on, nothing but zeros
/// lies before it, and the buffer ends with it.
pub proof fn lemma_push_appends(params: ParamsModel, argument: Argument, start: int)
    requires
        argument.align > 0,
        params.bytes.len() <= start < params.bytes.len() + argument.align,
        start % (argument.align as int) == 0,
        start <= usize::MAX,
    ensures
        params.push(argument).func == params.func,
        params.push(argument).grid_dim == params.grid_dim,
        params.push(argument).block_dim == params.block_dim,
        params.push(argument).shared_mem_bytes == params.shared_mem_bytes,
        params.push(argument).offsets.len() == params.offsets.len() + 1,
        forall|i: int|
            0 <= i < params.offsets.len() ==> #[trigger] params.push(argument).offsets[i]
                == params.offsets[i],
        params.push(argument).offsets[params.offsets.len() as int] == start,
        params.push(argument).bytes.len() == start + argument.bytes.len(),
        forall|k: int|
            0 <= k < params.bytes.len() ==> #[trigger] params.push(argument).bytes[k]
                == params.bytes[k],
        forall|k: int|
            params.bytes.len() <= k < start ==> #[trigger] params.push(argument).bytes[k] == 0,
        forall|k: int|
            0 <= k < argument.bytes.len() ==> params.push(argument).bytes[start + k]
                == #[trigger] argument.bytes[k],
{
    lemma_start_is_aligned_up(params.bytes.len() as int, argument.align as int, start);
}

/// There is room for one more `T` exactly where its end, behind the padding, stays within
/// `isize::MAX` bytes.
pub proof fn lemma_room_is_what_a_buffer_can_hold<T>(params: ParamsModel, start: int)
    requires
        params.bytes.len() <= start < params.bytes.len() + vstd::layout::align_of::<T>(),
        start % (vstd::layout::align_of::<T>() as int) == 0,
    ensures
        params.room_for::<T>() <==> start + vstd::layout::size_of::<T>() <= isize::MAX,
{
    lemma_start_is_aligned_up(
        params.bytes.len() as int,
        vstd::layout::align_of::<T>() as int,
        start,
    );
}

/// Of `align` offsets in a row, only one is a multiple of `align`.
proof fn lemma_start_is_aligned_up(offset: int, align: int, start: int)
    requires
        0 <= offset <= start < offset + align,
        start % align == 0,
    ensures
        crate::packing::align_up(offset, align) == start,
{
    crate::packing::lemma_align_up_is_least(offset, align);
    let least = crate::packing::align_up(offset, align);
    vstd::arithmetic::div_mod::lemma_fundamental_div_mod(start, align);
    vstd::arithmetic::div_mod::lemma_fundamental_div_mod(least, align);
    let p = start / align;
    let q = least / align;
    assert(p == q) by (nonlinear_arith)
        requires
            align > 0,
            align * q <= align * p < align * q + align,
    ;
}

/// The driver is given the launch as it is: the same kernel, the same grid, the same blocks, the
/// same shared memory, the packed arguments, and null for everything else.
pub proof fn lemma_block_carries_the_launch(params: ParamsModel)
    ensures
        params.block().func == params.func,
        params.block().grid_dim_x == params.grid_dim.0,
        params.block().grid_dim_y == params.grid_dim.1,
        params.block().grid_dim_z == params.grid_dim.2,
        params.block().block_dim_x == params.block_dim.0,
        params.block().block_dim_y == params.block_dim.1,
        params.block().block_dim_z == params.block_dim.2,
        params.block().shared_mem_bytes == params.shared_mem_bytes,
        params.block().kernel_params == params.offsets,
        params.block().buffer == params.bytes,
        params.block().extra == 0,
        params.block().kern == 0,
        params.block().ctx == 0,
{
}

/// Pushing an argument keeps the offsets in order and within the buffer.
pub proof fn lemma_push_keeps_wf(params: ParamsModel, argument: Argument)
    requires
        params.wf(),
        argument.align > 0,
        crate::packing::align_up(params.bytes.len() as int, argument.align as int) <= usize::MAX,
    ensures
        params.push(argument).wf(),
{
    crate::packing::lemma_align_up_is_least(params.bytes.len() as int, argument.align as int);
}

/// Packed arguments are in order and within the buffer.
pub proof fn lemma_packs_is_wf(params: ParamsModel, arguments: Seq<Argument>)
    requires
        params.packs(arguments),
        crate::packing::aligned_types(arguments),
    ensures
        params.wf(),
{
    assert forall|i: int| 0 <= i < params.offsets.len() implies params.offsets[i]
        <= params.bytes.len() by {
        crate::packing::lemma_packed_reads_back(arguments, i);
    }
    assert forall|i: int, j: int| 0 <= i <= j < params.offsets.len() implies params.offsets[i]
        <= params.offsets[j] by {
        if i < j {
            crate::packing::lemma_packed_is_disjoint(arguments, i, j);
        }
    }
}

/// Pushing an argument behind packed ones packs all of them.
pub proof fn lemma_push_packs(params: ParamsModel, arguments: Seq<Argument>, argument: Argument)
    requires
        params.packs(arguments),
        argument.align > 0,
        crate::packing::align_up(params.bytes.len() as int, argument.align as int) <= usize::MAX,
    ensures
        params.push(argument).packs(arguments.push(argument)),
{
    crate::packing::lemma_align_up_is_least(params.bytes.len() as int, argument.align as int);
    crate::packing::lemma_packed_push(arguments, argument);
}

} // verus!
