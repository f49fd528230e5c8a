//! The launch arguments of a matmul on materialised tensors or tensor maps:
//! the shapes of the boxes that a tensor map loads, which of them the
//! hardware accepts, and what each operand is launched with.

use vstd::prelude::*;
use vstd::string::StringExecFns;
use crate::definition::{
    Blueprint, GlobalLayoutConfig, InputBinding, MatmulElems, MatmulProblem, MatmulVectorSizes,
    MatrixLayout, SwizzleMode, SwizzleModes, TensorBinding, TilingScheme,
};
use crate::error::{append_decimal, decimal, InvalidConfigError, MatmulSetupError};

verus! {

/// The largest extent, along either axis, of a box that a tensor map loads.
pub const MAX_TMA_BOX_EXTENT: usize = 256;

/// The `(rows, cols)` of the box that a tensor map loads for the left
/// operand: the whole `(m, k)` stage when the stage is swizzled, otherwise a
/// stage-long strip one tile wide across the contiguous axis.
pub open spec fn lhs_box(ts: TilingScheme, swizzle: SwizzleMode, layout: MatrixLayout) -> (int, int) {
    match swizzle {
        SwizzleMode::Disabled => match layout {
            MatrixLayout::RowMajor => (ts.stage_m(), ts.tile_size.k as int),
            MatrixLayout::ColMajor => (ts.tile_size.m as int, ts.stage_k()),
        },
        _ => (ts.stage_m(), ts.stage_k()),
    }
}

/// The `(rows, cols)` of the box that a tensor map loads for the right
/// operand: the whole `(k, n)` stage when the stage is swizzled, otherwise a
/// stage-long strip one tile wide across the contiguous axis.
pub open spec fn rhs_box(ts: TilingScheme, swizzle: SwizzleMode, layout: MatrixLayout) -> (int, int) {
    match swizzle {
        SwizzleMode::Disabled => match layout {
            MatrixLayout::RowMajor => (ts.stage_k(), ts.tile_size.n as int),
            MatrixLayout::ColMajor => (ts.tile_size.k as int, ts.stage_n()),
        },
        _ => (ts.stage_k(), ts.stage_n()),
    }
}

/// A box shape as integers.
pub open spec fn shape_view(s: (usize, usize)) -> (int, int) {
    (s.0 as int, s.1 as int)
}

/// The box shapes, `(lhs, rhs)`, that tensor maps load for a tiling, the
/// stage swizzles and the operands' layouts.
pub fn tma_box_shapes(
    tiling_scheme: TilingScheme,
    swizzle_modes: SwizzleModes,
    lhs_layout: MatrixLayout,
    rhs_layout: MatrixLayout,
) -> (r: ((usize, usize), (usize, usize)))
    requires
        tiling_scheme.wf(),
    ensures
        shape_view(r.0) == lhs_box(tiling_scheme, swizzle_modes.lhs, lhs_layout),
        shape_view(r.1) == rhs_box(tiling_scheme, swizzle_modes.rhs, rhs_layout),
{
    let stage_m = tiling_scheme.elements_per_stage_along_m() as usize;
    let stage_n = tiling_scheme.elements_per_stage_along_n() as usize;
    let stage_k = tiling_scheme.elements_per_stage_along_k() as usize;
    let (tile_m, tile_n, tile_k) = (
        tiling_scheme.tile_size.m as usize,
        tiling_scheme.tile_size.n as usize,
        tiling_scheme.tile_size.k as usize,
    );

    // Boxes are logical (rows, cols), whatever the operand's memory layout.
    let lhs = match swizzle_modes.lhs {
        SwizzleMode::Disabled => match lhs_layout {
            MatrixLayout::RowMajor => (stage_m, tile_k),
            MatrixLayout::ColMajor => (tile_m, stage_k),
        },
        _ => (stage_m, stage_k),
    };
    let rhs = match swizzle_modes.rhs {
        SwizzleMode::Disabled => match rhs_layout {
            MatrixLayout::RowMajor => (stage_k, tile_n),
            MatrixLayout::ColMajor => (tile_k, stage_n),
        },
        _ => (stage_k, stage_n),
    };
    (lhs, rhs)
}

/// The box shapes, `(lhs, rhs)`, that tensor maps load for a blueprint and
/// the operands' layouts in a problem.
pub fn tma_tile_shapes(
    blueprint: &Blueprint,
    problem: &MatmulProblem,
) -> (r: ((usize, usize), (usize, usize)))
    requires
        blueprint.tiling_scheme.wf(),
    ensures
        shape_view(r.0) == lhs_box(blueprint.tiling_scheme, blueprint.swizzle_modes.lhs, problem.lhs_layout),
        shape_view(r.1) == rhs_box(blueprint.tiling_scheme, blueprint.swizzle_modes.rhs, problem.rhs_layout),
{
    tma_box_shapes(
        blueprint.tiling_scheme,
        blueprint.swizzle_modes,
        problem.lhs_layout,
        problem.rhs_layout,
    )
}

/// Whether the hardware can load a box of this shape: each extent in
/// `1..=256`.
pub open spec fn valid_box(rows: int, cols: int) -> bool {
    &&& 1 <= rows <= MAX_TMA_BOX_EXTENT
    &&& 1 <= cols <= MAX_TMA_BOX_EXTENT
}

/// The words with which the box of operand `name` is refused.
pub open spec fn tma_tile_shape_message(name: Seq<char>, rows: nat, cols: nat) -> Seq<char> {
    name + " TMA tile shape ("@ + decimal(rows) + ", "@ + decimal(cols)
        + ") must have dimensions in 1..=256"@
}

/// Accepts the box shape `(rows, cols)` of operand `name` exactly when the
/// hardware can load it, and otherwise says which operand and shape were
/// refused.
pub fn validate_tma_tile_shape(name: &str, shape: (usize, usize)) -> (r: Result<(), MatmulSetupError>)
    ensures
        r is Ok <==> valid_box(shape.0 as int, shape.1 as int),
        r is Err ==> r->Err_0.message_view() == tma_tile_shape_message(
            name@,
            shape.0 as nat,
            shape.1 as nat,
        ),
{
    let (rows, cols) = shape;
    if !(1 <= rows && rows <= MAX_TMA_BOX_EXTENT) || !(1 <= cols && cols <= MAX_TMA_BOX_EXTENT) {
        let mut message = String::from_str(name);
        message.append(" TMA tile shape (");
        append_decimal(&mut message, rows);
        message.append(", ");
        append_decimal(&mut message, cols);
        message.append(") must have dimensions in 1..=256");
        return Err(MatmulSetupError::InvalidConfig(InvalidConfigError { message }));
    }
    Ok(())
}

/// The product of a sequence of dimensions (1 for none).
pub open spec fn dims_product(s: Seq<usize>) -> int
    decreases s.len(),
{
    if s.len() == 0 {
        1
    } else {
        dims_product(s.drop_last()) * s.last()
    }
}

/// Every partial product of the dimensions, from the left, fits in a `usize`.
pub open spec fn product_fits(s: Seq<usize>) -> bool {
    forall|i: int| 0 <= i <= s.len() ==> #[trigger] dims_product(s.take(i)) <= usize::MAX
}

/// The logical `(batches, rows, cols)` of a tensor that a tensor map reads:
/// the product of the batch dimensions, and the tensor's last two
/// dimensions, each truncated to a `u32`.
pub open spec fn tensor_map_dims_spec(shape: Seq<usize>, batches: Seq<usize>) -> (int, u32, u32) {
    (dims_product(batches), shape[shape.len() - 2] as u32, shape[shape.len() - 1] as u32)
}

/// The logical `(batches, rows, cols)` of a tensor that a tensor map reads.
pub fn tensor_map_dims(binding: &TensorBinding, batches: &Vec<usize>) -> (r: (usize, u32, u32))
    requires
        binding.shape.len() >= 2,
        product_fits(batches@),
    ensures
        (r.0 as int, r.1, r.2) == tensor_map_dims_spec(binding.shape@, batches@),
{
    let rank = binding.shape.len();
    let mut product: usize = 1;
    let mut i: usize = 0;
    assert(batches@.take(0) =~= Seq::<usize>::empty());
    while i < batches.len()
        invariant
            i <= batches.len(),
            product == dims_product(batches@.take(i as int)),
            product_fits(batches@),
        decreases batches.len() - i,
    {
        assert(batches@.take(i as int + 1).drop_last() =~= batches@.take(i as int));
        assert(dims_product(batches@.take(i as int + 1)) <= usize::MAX);
        product = product * batches[i];
        i = i + 1;
    }
    assert(batches@.take(batches.len() as int) =~= batches@);
    (product, binding.shape[rank - 2] as u32, binding.shape[rank - 1] as u32)
}

/// Identification of the tensor input.
#[derive(Clone, Copy, Debug, PartialEq, Eq, Structural)]
pub enum TensorInputIdent {
    Lhs,
    Rhs,
}

/// How a tensor is viewed by the kernel: read `vector_size` elements at a
/// time as `config` says.
#[derive(Debug)]
pub struct TensorViewLaunch {
    pub binding: TensorBinding,
    pub vector_size: usize,
    pub config: GlobalLayoutConfig,
}

/// How an input operand is viewed by the kernel.
#[derive(Debug)]
pub enum ViewLaunch<'a, Q> {
    /// A plain tensor.
    Tensor(TensorViewLaunch),
    /// Quantized data and its scales, laid out for the logical `shape` of the
    /// problem with the quantization `scheme`, read `vector_size` elements at
    /// a time as `config` says.
    Quantized {
        data: TensorBinding,
        scale: TensorBinding,
        shape: Vec<usize>,
        scheme: Q,
        problem: &'a MatmulProblem,
        vector_size: usize,
        config: GlobalLayoutConfig,
    },
}

/// How a batch index is mapped to the batch of a tensor.
#[derive(Debug)]
pub enum BatchLayoutLaunch<'a> {
    /// Through the batch dimensions of a tensor of this `shape` and these
    /// `strides`, with the batches of `problem` broadcast onto them.
    Batch { shape: Vec<usize>, strides: Vec<usize>, problem: &'a MatmulProblem },
    /// Unchanged.
    Noop,
}

/// `layout` maps batches through the batch dimensions of `tensor`, with the
/// batches of `problem`.
pub open spec fn batch_layout_of(layout: BatchLayoutLaunch, tensor: TensorBinding, problem: &MatmulProblem) -> bool {
    match layout {
        BatchLayoutLaunch::Batch { shape, strides, problem: p } => {
            &&& shape@ == tensor.shape@
            &&& strides@ == tensor.strides@
            &&& p == problem
        },
        BatchLayoutLaunch::Noop => false,
    }
}

/// The batch layout of an input operand: a plain tensor maps batches through
/// its own batch dimensions, quantized data leaves them unchanged.
pub open spec fn input_batch_layout<Q>(layout: BatchLayoutLaunch, handle: InputBinding<Q>, problem: &MatmulProblem) -> bool {
    match handle {
        InputBinding::Normal(t) => batch_layout_of(layout, t, problem),
        InputBinding::Quantized { .. } => layout is Noop,
    }
}

/// The view of an input operand, read `vector_size` elements at a time as
/// `config` says: a plain tensor as a tensor view, quantized data with its
/// scales, its logical shape, its scheme and the problem as a quantized view.
pub open spec fn input_view<'a, Q>(
    handle: InputBinding<Q>,
    problem: &'a MatmulProblem,
    config: GlobalLayoutConfig,
    vector_size: usize,
) -> ViewLaunch<'a, Q> {
    match handle {
        InputBinding::Normal(binding) => ViewLaunch::Tensor(TensorViewLaunch { binding, vector_size, config }),
        InputBinding::Quantized { data, scale, shape, scheme } => ViewLaunch::Quantized {
            data,
            scale,
            shape,
            scheme,
            problem,
            vector_size,
            config,
        },
    }
}

/// A copy of a sequence of dimensions.
fn copy_dims(dims: &Vec<usize>) -> (r: Vec<usize>)
    ensures
        r@ == dims@,
{
    let mut r: Vec<usize> = Vec::new();
    let mut i: usize = 0;
    while i < dims.len()
        invariant
            i <= dims.len(),
            r@ == dims@.take(i as int),
        decreases dims.len() - i,
    {
        r.push(dims[i]);
        i = i + 1;
    }
    assert(dims@.take(dims.len() as int) =~= dims@);
    r
}

/// The batch layout of a tensor: through its own batch dimensions, with the
/// batches of `problem`.
fn tensor_batch_layout<'a>(tensor: &TensorBinding, problem: &'a MatmulProblem) -> (r: BatchLayoutLaunch<'a>)
    ensures
        batch_layout_of(r, *tensor, problem),
{
    BatchLayoutLaunch::Batch {
        shape: copy_dims(&tensor.shape),
        strides: copy_dims(&tensor.strides),
        problem,
    }
}

/// The operands of a matmul on materialised tensors, as the kernel holds
/// them: a view of each operand with its batch layout, and optionally an
/// accumulator to start from.
#[derive(Clone, Copy)]
pub struct TensorInputs<Lhs, Rhs, Acc, L> {
    pub lhs_batch: L,
    pub lhs: Lhs,
    pub rhs_batch: L,
    pub rhs: Rhs,
    pub acc_batch: Option<L>,
    pub acc: Option<Acc>,
}

/// The launch of the operands of a matmul on materialised tensors.
#[derive(Debug)]
pub struct TensorInputsLaunch<'a, Q> {
    pub lhs_batch: BatchLayoutLaunch<'a>,
    pub lhs: ViewLaunch<'a, Q>,
    pub rhs_batch: BatchLayoutLaunch<'a>,
    pub rhs: ViewLaunch<'a, Q>,
    pub acc_batch: Option<BatchLayoutLaunch<'a>>,
    pub acc: Option<ViewLaunch<'a, Q>>,
}

impl<Lhs, Rhs, Acc, L> TensorInputs<Lhs, Rhs, Acc, L> {
    /// Materialised tensors need no tensor-map boxes: every blueprint is
    /// accepted.
    pub fn validate<T>(
        _blueprint: &Blueprint,
        _problem: &MatmulProblem,
        _vector_sizes: &MatmulVectorSizes,
        _dtypes: &MatmulElems<T>,
    ) -> (r: Result<(), MatmulSetupError>)
        ensures
            r is Ok,
    {
        Ok(())
    }

    /// The view of an operand: a plain tensor as a tensor view, quantized
    /// data with its scales as a quantized view.
    fn view<'a, Q>(
        handle: InputBinding<Q>,
        problem: &'a MatmulProblem,
        config: GlobalLayoutConfig,
        vector_size: usize,
    ) -> (r: ViewLaunch<'a, Q>)
        ensures
            r == input_view(handle, problem, config, vector_size),
    {
        match handle {
            InputBinding::Normal(binding) => ViewLaunch::Tensor(TensorViewLaunch { binding, vector_size, config }),
            InputBinding::Quantized { data, scale, shape, scheme } => ViewLaunch::Quantized {
                data,
                scale,
                shape,
                scheme,
                problem,
                vector_size,
                config,
            },
        }
    }

    /// The batch layout of an operand.
    fn batch_layout<'a, Q>(handle: &InputBinding<Q>, problem: &'a MatmulProblem) -> (r: BatchLayoutLaunch<'a>)
        ensures
            input_batch_layout(r, *handle, problem),
    {
        match handle {
            InputBinding::Normal(t) => tensor_batch_layout(t, problem),
            InputBinding::Quantized { .. } => BatchLayoutLaunch::Noop,
        }
    }

    /// The launch of both operands: each with its batch layout and its view,
    /// read with its own global layout from the blueprint and its own vector
    /// size; no accumulator.
    pub fn create<'a, Q, T>(
        lhs: InputBinding<Q>,
        rhs: InputBinding<Q>,
        blueprint: &Blueprint,
        problem: &'a MatmulProblem,
        vector_sizes: &MatmulVectorSizes,
        _dtypes: &MatmulElems<T>,
    ) -> (r: TensorInputsLaunch<'a, Q>)
        ensures
            input_batch_layout(r.lhs_batch, lhs, problem),
            r.lhs == input_view(lhs, problem, blueprint.lhs_global_layout_config, vector_sizes.lhs),
            input_batch_layout(r.rhs_batch, rhs, problem),
            r.rhs == input_view(rhs, problem, blueprint.rhs_global_layout_config, vector_sizes.rhs),
            r.acc_batch is None,
            r.acc is None,
    {
        let lhs_batch = Self::batch_layout(&lhs, problem);
        let rhs_batch = Self::batch_layout(&rhs, problem);
        TensorInputsLaunch {
            lhs_batch,
            lhs: Self::view(lhs, problem, blueprint.lhs_global_layout_config, vector_sizes.lhs),
            rhs_batch,
            rhs: Self::view(rhs, problem, blueprint.rhs_global_layout_config, vector_sizes.rhs),
            acc_batch: None,
            acc: None,
        }
    }
}

/// The output of a matmul on materialised tensors, as the kernel holds it:
/// a writable view and its batch layout.
#[derive(Clone, Copy)]
pub struct TensorOutput<Out, L> {
    pub view: Out,
    pub batch: L,
}

/// The launch of the output: its view and its batch layout.
#[derive(Debug)]
pub struct TensorOutputLaunch<'a> {
    pub view: TensorViewLaunch,
    pub batch: BatchLayoutLaunch<'a>,
}

impl<Out, L> TensorOutput<Out, L> {
    /// The launch of the output: a tensor view read `vector_sizes.out`
    /// elements at a time with the blueprint's output layout, and a batch
    /// layout through the output's own batch dimensions with the problem's
    /// batches.
    pub fn create<'a, T>(
        out: TensorBinding,
        blueprint: &Blueprint,
        problem: &'a MatmulProblem,
        vector_sizes: &MatmulVectorSizes,
        _dtypes: &MatmulElems<T>,
    ) -> (r: TensorOutputLaunch<'a>)
        ensures
            r.view == (TensorViewLaunch {
                binding: out,
                vector_size: vector_sizes.out,
                config: blueprint.out_global_layout_config,
            }),
            batch_layout_of(r.batch, out, problem),
    {
        let batch = tensor_batch_layout(&out, problem);
        TensorOutputLaunch {
            view: TensorViewLaunch {
                binding: out,
                vector_size: vector_sizes.out,
                config: blueprint.out_global_layout_config,
            },
            batch,
        }
    }
}

/// The operands of a matmul on tensor maps, as the kernel holds them: a view
/// of each operand, and optionally an accumulator to start from with its
/// batch layout.
#[derive(Clone, Copy)]
pub struct TensorMapInputs<Lhs, Rhs, Acc, L> {
    pub lhs: Lhs,
    pub rhs: Rhs,
    pub acc: Option<Acc>,
    pub acc_batch: Option<L>,
}

/// What a tensor map is made from for one operand: the tensor, its logical
/// `(batches, rows, cols)`, its layout, the box it is loaded in, the element
/// type of its stage and the stage's swizzle.
#[derive(Debug)]
pub struct TensorMapOperand<T> {
    pub binding: TensorBinding,
    pub dims: (usize, u32, u32),
    pub layout: MatrixLayout,
    pub box_shape: (usize, usize),
    pub stage_dtype: T,
    pub swizzle: SwizzleMode,
}

/// The launch of the operands of a matmul on tensor maps.
#[derive(Debug)]
pub struct TensorMapInputsLaunch<'a, T> {
    pub lhs: TensorMapOperand<T>,
    pub rhs: TensorMapOperand<T>,
    pub acc: Option<TensorMapOperand<T>>,
    pub acc_batch: Option<BatchLayoutLaunch<'a>>,
}

impl<Lhs, Rhs, Acc, L> TensorMapInputs<Lhs, Rhs, Acc, L> {
    /// Accepts a blueprint exactly when the hardware can load both operand
    /// boxes; the left operand's box is checked, and reported, first.
    pub fn validate<T>(
        blueprint: &Blueprint,
        problem: &MatmulProblem,
        _vector_sizes: &MatmulVectorSizes,
        _dtypes: &MatmulElems<T>,
    ) -> (r: Result<(), MatmulSetupError>)
        requires
            blueprint.tiling_scheme.wf(),
        ensures
            ({
                let l = lhs_box(blueprint.tiling_scheme, blueprint.swizzle_modes.lhs, problem.lhs_layout);
                let rr = rhs_box(blueprint.tiling_scheme, blueprint.swizzle_modes.rhs, problem.rhs_layout);
                &&& r is Ok <==> valid_box(l.0, l.1) && valid_box(rr.0, rr.1)
                &&& !valid_box(l.0, l.1) ==> r is Err && r->Err_0.message_view()
                    == tma_tile_shape_message("lhs"@, l.0 as nat, l.1 as nat)
                &&& valid_box(l.0, l.1) && !valid_box(rr.0, rr.1) ==> r is Err
                    && r->Err_0.message_view() == tma_tile_shape_message("rhs"@, rr.0 as nat, rr.1 as nat)
            }),
    {
        let (lhs, rhs) = tma_tile_shapes(blueprint, problem);
        match validate_tma_tile_shape("lhs", lhs) {
            Ok(()) => {},
            Err(e) => {
                return Err(e);
            },
        }
        validate_tma_tile_shape("rhs", rhs)
    }

    /// What the tensor maps of both operands are made from: the operands'
    /// data, their logical dimensions with the problem's batches, their
    /// layouts, the boxes of `tma_tile_shapes`, the stages' element types and
    /// the stages' swizzles; no accumulator.
    pub fn create<'a, Q, T: Copy>(
        lhs_handle: InputBinding<Q>,
        rhs_handle: InputBinding<Q>,
        blueprint: &Blueprint,
        problem: &MatmulProblem,
        _vector_sizes: &MatmulVectorSizes,
        dtypes: &MatmulElems<T>,
    ) -> (r: TensorMapInputsLaunch<'a, T>)
        requires
            blueprint.tiling_scheme.wf(),
            lhs_handle.data().shape.len() >= 2,
            rhs_handle.data().shape.len() >= 2,
            product_fits(problem.lhs_batches@),
            product_fits(problem.rhs_batches@),
        ensures
            r.lhs.binding == lhs_handle.data(),
            r.rhs.binding == rhs_handle.data(),
            (r.lhs.dims.0 as int, r.lhs.dims.1, r.lhs.dims.2)
                == tensor_map_dims_spec(lhs_handle.data().shape@, problem.lhs_batches@),
            (r.rhs.dims.0 as int, r.rhs.dims.1, r.rhs.dims.2)
                == tensor_map_dims_spec(rhs_handle.data().shape@, problem.rhs_batches@),
            r.lhs.layout == problem.lhs_layout,
            r.rhs.layout == problem.rhs_layout,
            shape_view(r.lhs.box_shape)
                == lhs_box(blueprint.tiling_scheme, blueprint.swizzle_modes.lhs, problem.lhs_layout),
            shape_view(r.rhs.box_shape)
                == rhs_box(blueprint.tiling_scheme, blueprint.swizzle_modes.rhs, problem.rhs_layout),
            r.lhs.stage_dtype == dtypes.lhs_stage,
            r.rhs.stage_dtype == dtypes.rhs_stage,
            r.lhs.swizzle == blueprint.swizzle_modes.lhs,
            r.rhs.swizzle == blueprint.swizzle_modes.rhs,
            r.acc is None,
            r.acc_batch is None,
    {
        let lhs = lhs_handle.into_data();
        let rhs = rhs_handle.into_data();

        let (box_lhs, box_rhs) = tma_tile_shapes(blueprint, problem);

        // Logical (batches, rows, cols), read before the tensor maps take the bindings.
        let lhs_dims = tensor_map_dims(&lhs, &problem.lhs_batches);
        let rhs_dims = tensor_map_dims(&rhs, &problem.rhs_batches);

        TensorMapInputsLaunch {
            lhs: TensorMapOperand {
                binding: lhs,
                dims: lhs_dims,
                layout: problem.lhs_layout,
                box_shape: box_lhs,
                stage_dtype: dtypes.lhs_stage,
                swizzle: blueprint.swizzle_modes.lhs,
            },
            rhs: TensorMapOperand {
                binding: rhs,
                dims: rhs_dims,
                layout: problem.rhs_layout,
                box_shape: box_rhs,
                stage_dtype: dtypes.rhs_stage,
                swizzle: blueprint.swizzle_modes.rhs,
            },
            acc: None,
            acc_batch: None,
        }
    }
}

/// The boxes that tensor maps load, in terms of the tiling's sizes: without a
/// swizzle, a row-major left operand loads `(m of a stage, k of a tile)`, a
/// column-major one `(m of a tile, k of a stage)`, a row-major right operand
/// `(k of a stage, n of a tile)` and a column-major one `(k of a tile, n of a
/// stage)`; with a swizzle, each loads its whole stage. A stage extent is
/// the product of the tile, partition and stage sizes along its axis.
pub proof fn lemma_tma_boxes_exact(ts: TilingScheme, swizzle: SwizzleMode)
    ensures
        lhs_box(ts, SwizzleMode::Disabled, MatrixLayout::RowMajor)
            == (ts.tile_size.m * ts.partition_size.m * ts.stage_size.m, ts.tile_size.k as int),
        lhs_box(ts, SwizzleMode::Disabled, MatrixLayout::ColMajor)
            == (ts.tile_size.m as int, ts.tile_size.k * ts.partition_size.k * ts.stage_size.k),
        rhs_box(ts, SwizzleMode::Disabled, MatrixLayout::RowMajor)
            == (ts.tile_size.k * ts.partition_size.k * ts.stage_size.k, ts.tile_size.n as int),
        rhs_box(ts, SwizzleMode::Disabled, MatrixLayout::ColMajor)
            == (ts.tile_size.k as int, ts.tile_size.n * ts.partition_size.n * ts.stage_size.n),
        swizzle != SwizzleMode::Disabled ==> {
            &&& lhs_box(ts, swizzle, MatrixLayout::RowMajor) == lhs_box(ts, swizzle, MatrixLayout::ColMajor)
            &&& lhs_box(ts, swizzle, MatrixLayout::RowMajor)
                == (ts.tile_size.m * ts.partition_size.m * ts.stage_size.m,
                    ts.tile_size.k * ts.partition_size.k * ts.stage_size.k)
            &&& rhs_box(ts, swizzle, MatrixLayout::RowMajor) == rhs_box(ts, swizzle, MatrixLayout::ColMajor)
            &&& rhs_box(ts, swizzle, MatrixLayout::RowMajor)
                == (ts.tile_size.k * ts.partition_size.k * ts.stage_size.k,
                    ts.tile_size.n * ts.partition_size.n * ts.stage_size.n)
        },
{
}

/// A stage taller than the hardware loads is refused: without a swizzle, a
/// row-major left operand whose stage holds more than 256 rows along `m`
/// (the product of the tile, partition and stage sizes along `m`) has a box
/// that cannot be loaded, so `TensorMapInputs::validate` refuses it.
pub proof fn lemma_tall_unswizzled_stage_refused(ts: TilingScheme)
    requires
        ts.tile_size.m * ts.partition_size.m * ts.stage_size.m > 256,
    ensures
        !valid_box(
            lhs_box(ts, SwizzleMode::Disabled, MatrixLayout::RowMajor).0,
            lhs_box(ts, SwizzleMode::Disabled, MatrixLayout::RowMajor).1,
        ),
{
    lemma_tma_boxes_exact(ts, SwizzleMode::Disabled);
}

/// The batch count of a tensor map is the product of all the batch
/// dimensions: with no batch dimension it is 1, appending a batch dimension
/// `d` multiplies it by `d`, and the rows and columns are the tensor's last
/// two dimensions, whatever the batches.
pub proof fn lemma_tensor_map_batches_multiply(shape: Seq<usize>, batches: Seq<usize>, d: usize)
    requires
        shape.len() >= 2,
    ensures
        tensor_map_dims_spec(shape, Seq::<usize>::empty()).0 == 1,
        tensor_map_dims_spec(shape, batches.push(d)).0 == tensor_map_dims_spec(shape, batches).0 * d,
        tensor_map_dims_spec(shape, batches).1 == shape[shape.len() - 2] as u32,
        tensor_map_dims_spec(shape, batches).2 == shape[shape.len() - 1] as u32,
{
    assert(batches.push(d).drop_last() =~= batches);
}

/// The view of an operand is made with exactly the layout config and vector
/// size it is given: a plain tensor becomes a tensor view of that tensor, and
/// quantized data a quantized view of that data, its scales, its logical
/// shape, its scheme and the problem, in both cases with `config` (its matrix
/// layout included) and `vector_size` unchanged.
pub proof fn lemma_input_view_keeps_config<'a, Q>(
    handle: InputBinding<Q>,
    problem: &'a MatmulProblem,
    config: GlobalLayoutConfig,
    vector_size: usize,
)
    ensures
        match (handle, input_view(handle, problem, config, vector_size)) {
            (InputBinding::Normal(t), ViewLaunch::Tensor(v)) => {
                &&& v.binding == t
                &&& v.config == config
                &&& v.config.matrix_layout == config.matrix_layout
                &&& v.vector_size == vector_size
            },
            (
                InputBinding::Quantized { data, scale, shape, scheme },
                ViewLaunch::Quantized { data: d, scale: sc, shape: sh, scheme: q, problem: p, vector_size: n, config: c },
            ) => {
                &&& d == data
                &&& sc == scale
                &&& sh == shape
                &&& q == scheme
                &&& p == problem
                &&& c == config
                &&& c.matrix_layout == config.matrix_layout
                &&& n == vector_size
            },
            _ => false,
        },
{
}

/// A batch layout made for a tensor holds the tensor's whole shape and
/// strides, for every rank: as many dimensions as the tensor has, each equal
/// to the tensor's, and the problem it was made with.
pub proof fn lemma_batch_layout_whole_tensor(layout: BatchLayoutLaunch, tensor: TensorBinding, problem: &MatmulProblem)
    requires
        batch_layout_of(layout, tensor, problem),
    ensures
        match layout {
            BatchLayoutLaunch::Batch { shape, strides, problem: p } => {
                &&& shape.len() == tensor.shape.len()
                &&& strides.len() == tensor.strides.len()
                &&& forall|i: int| 0 <= i < tensor.shape.len() ==> shape@[i] == #[trigger] tensor.shape@[i]
                &&& forall|i: int| 0 <= i < tensor.strides.len() ==> strides@[i] == #[trigger] tensor.strides@[i]
                &&& p == problem
            },
            BatchLayoutLaunch::Noop => false,
        },
{
}

/// The hardware loads exactly the boxes whose extents both lie in `1..=256`.
pub proof fn lemma_valid_box_bounds(rows: int, cols: int)
    ensures
        valid_box(rows, cols) <==> (1 <= rows && rows <= 256 && 1 <= cols && cols <= 256),
{
}

/// An operand's batch layout follows its kind: a plain tensor's batches are
/// mapped through that tensor's whole shape and strides with the problem,
/// and quantized data's batches are left unchanged.
pub proof fn lemma_input_batch_layout_kind<Q>(layout: BatchLayoutLaunch, handle: InputBinding<Q>, problem: &MatmulProblem)
    requires
        input_batch_layout(layout, handle, problem),
    ensures
        handle is Normal <==> layout is Batch,
        handle is Quantized <==> layout is Noop,
        handle matches InputBinding::Normal(t) ==> (layout matches BatchLayoutLaunch::Batch { shape, strides, problem: p }
            && shape@ =~= t.shape@ && strides@ =~= t.strides@ && p == problem),
{
}

/// A tensor map's box never exceeds its stage, and covers the whole stage
/// when the stage is swizzled, whatever the operand's layout: with at least
/// one partition per stage and one tile per partition along every axis, the
/// left box is at most `(stage_m, stage_k)` and the right box at most
/// `(stage_k, stage_n)`, each equal to it under a swizzle.
pub proof fn lemma_tma_boxes_within_stage(
    ts: TilingScheme,
    swizzle_modes: SwizzleModes,
    lhs_layout: MatrixLayout,
    rhs_layout: MatrixLayout,
)
    requires
        ts.partition_size.m >= 1,
        ts.partition_size.n >= 1,
        ts.partition_size.k >= 1,
        ts.stage_size.m >= 1,
        ts.stage_size.n >= 1,
        ts.stage_size.k >= 1,
    ensures
        lhs_box(ts, swizzle_modes.lhs, lhs_layout).0 <= ts.stage_m(),
        lhs_box(ts, swizzle_modes.lhs, lhs_layout).1 <= ts.stage_k(),
        rhs_box(ts, swizzle_modes.rhs, rhs_layout).0 <= ts.stage_k(),
        rhs_box(ts, swizzle_modes.rhs, rhs_layout).1 <= ts.stage_n(),
        swizzle_modes.lhs != SwizzleMode::Disabled
            ==> lhs_box(ts, swizzle_modes.lhs, lhs_layout) == (ts.stage_m(), ts.stage_k()),
        swizzle_modes.rhs != SwizzleMode::Disabled
            ==> rhs_box(ts, swizzle_modes.rhs, rhs_layout) == (ts.stage_k(), ts.stage_n()),
{
    lemma_tile_within_stage(ts.tile_size.m, ts.partition_size.m, ts.stage_size.m);
    lemma_tile_within_stage(ts.tile_size.n, ts.partition_size.n, ts.stage_size.n);
    lemma_tile_within_stage(ts.tile_size.k, ts.partition_size.k, ts.stage_size.k);
}

/// A tile is no longer than the stage it belongs to.
proof fn lemma_tile_within_stage(tile: u32, partition: u32, stage: u32)
    requires
        partition >= 1,
        stage >= 1,
    ensures
        tile <= crate::definition::stage_extent(tile, partition, stage),
{
    assert(tile <= tile * partition * stage) by (nonlinear_arith)
        requires partition >= 1, stage >= 1, tile >= 0;
}

/// The batch of a tensor that batch `batch` reads through an optional
/// batch layout: where the layout maps it, or `batch` itself without one.
fn batch_through<L: Fn(usize) -> usize>(layout: &Option<L>, batch: usize) -> (r: usize)
    requires
        layout matches Some(l) ==> call_requires(l, (batch,)),
    ensures
        match layout {
            Some(l) => call_ensures(l, (batch,), r),
            None => r == batch,
        },
{
    match layout {
        Some(l) => l(batch),
        None => batch,
    }
}

/// Matmul arguments on materialised tensors. The kernel's state is the
/// triple `(inputs, output, runtime config)`.
pub struct TensorArgs {}

impl TensorArgs {
    /// The kernel's state: copies of the inputs and the output, and the
    /// runtime config; the output is left as it was, and the global layout
    /// configs do not enter the state.
    pub fn init_state<Lhs: Copy, Rhs: Copy, Acc: Copy, L: Copy, Out: Copy, OL: Copy, C>(
        input: &TensorInputs<Lhs, Rhs, Acc, L>,
        output: &mut TensorOutput<Out, OL>,
        config: C,
        _lhs_layout_config: GlobalLayoutConfig,
        _rhs_layout_config: GlobalLayoutConfig,
        _out_layout_config: GlobalLayoutConfig,
    ) -> (r: (TensorInputs<Lhs, Rhs, Acc, L>, TensorOutput<Out, OL>, C))
        ensures
            r == (*input, *old(output), config),
            *final(output) == *old(output),
    {
        (*input, *output, config)
    }

    /// The view of the left operand.
    pub fn view_lhs<Lhs, Rhs, Acc, L, O, C>(state: &(TensorInputs<Lhs, Rhs, Acc, L>, O, C)) -> (r: &Lhs)
        ensures
            *r == state.0.lhs,
    {
        &state.0.lhs
    }

    /// The batch of the left operand that batch `batch` reads: where its
    /// batch layout maps it.
    pub fn batch_lhs<Lhs, Rhs, Acc, L: Fn(usize) -> usize, O, C>(
        state: &(TensorInputs<Lhs, Rhs, Acc, L>, O, C),
        batch: usize,
    ) -> (r: usize)
        requires
            call_requires(state.0.lhs_batch, (batch,)),
        ensures
            call_ensures(state.0.lhs_batch, (batch,), r),
    {
        (state.0.lhs_batch)(batch)
    }

    /// The view of the right operand.
    pub fn view_rhs<Lhs, Rhs, Acc, L, O, C>(state: &(TensorInputs<Lhs, Rhs, Acc, L>, O, C)) -> (r: &Rhs)
        ensures
            *r == state.0.rhs,
    {
        &state.0.rhs
    }

    /// The batch of the right operand that batch `batch` reads: where its
    /// batch layout maps it.
    pub fn batch_rhs<Lhs, Rhs, Acc, L: Fn(usize) -> usize, O, C>(
        state: &(TensorInputs<Lhs, Rhs, Acc, L>, O, C),
        batch: usize,
    ) -> (r: usize)
        requires
            call_requires(state.0.rhs_batch, (batch,)),
        ensures
            call_ensures(state.0.rhs_batch, (batch,), r),
    {
        (state.0.rhs_batch)(batch)
    }

    /// The view of the accumulator, if there is one.
    pub fn view_acc<Lhs, Rhs, Acc, L, O, C>(state: &(TensorInputs<Lhs, Rhs, Acc, L>, O, C)) -> (r: &Option<Acc>)
        ensures
            *r == state.0.acc,
    {
        &state.0.acc
    }

    /// The batch of the accumulator that batch `batch` reads: where the
    /// accumulator's batch layout maps it, or `batch` itself when there is
    /// none.
    pub fn batch_acc<Lhs, Rhs, Acc, L: Fn(usize) -> usize, O, C>(
        state: &(TensorInputs<Lhs, Rhs, Acc, L>, O, C),
        batch: usize,
    ) -> (r: usize)
        requires
            state.0.acc_batch matches Some(l) ==> call_requires(l, (batch,)),
        ensures
            match state.0.acc_batch {
                Some(l) => call_ensures(l, (batch,), r),
                None => r == batch,
            },
    {
        batch_through(&state.0.acc_batch, batch)
    }

    /// The view of the output.
    pub fn view_out<I, Out, L, C>(state: &(I, TensorOutput<Out, L>, C)) -> (r: &Out)
        ensures
            *r == state.1.view,
    {
        &state.1.view
    }

    /// The batch of the output that batch `batch` writes: where its batch
    /// layout maps it.
    pub fn batch_out<I, Out, L: Fn(usize) -> usize, C>(state: &(I, TensorOutput<Out, L>, C), batch: usize) -> (r: usize)
        requires
            call_requires(state.1.batch, (batch,)),
        ensures
            call_ensures(state.1.batch, (batch,), r),
    {
        (state.1.batch)(batch)
    }

    /// The runtime config.
    pub fn runtime_config<I, O, C: Copy>(state: &(I, O, C)) -> (r: C)
        ensures
            r == state.2,
    {
        state.2
    }
}

/// Matmul arguments on tensor maps. The kernel's state is the triple
/// `(inputs, output, runtime config)`.
pub struct TensorMapArgs {}

impl TensorMapArgs {
    /// The kernel's state: copies of the inputs and the output, and the
    /// runtime config; the output is left as it was, and the global layout
    /// configs do not enter the state.
    pub fn init_state<Lhs: Copy, Rhs: Copy, Acc: Copy, L: Copy, Out: Copy, OL: Copy, C>(
        input: &TensorMapInputs<Lhs, Rhs, Acc, L>,
        output: &mut TensorOutput<Out, OL>,
        config: C,
        _lhs_layout_config: GlobalLayoutConfig,
        _rhs_layout_config: GlobalLayoutConfig,
        _out_layout_config: GlobalLayoutConfig,
    ) -> (r: (TensorMapInputs<Lhs, Rhs, Acc, L>, TensorOutput<Out, OL>, C))
        ensures
            r == (*input, *old(output), config),
            *final(output) == *old(output),
    {
        (*input, *output, config)
    }

    /// The view of the left operand.
    pub fn view_lhs<Lhs, Rhs, Acc, L, O, C>(state: &(TensorMapInputs<Lhs, Rhs, Acc, L>, O, C)) -> (r: &Lhs)
        ensures
            *r == state.0.lhs,
    {
        &state.0.lhs
    }

    /// The batch of the left operand that batch `batch` reads: a tensor map
    /// is addressed by the batch itself.
    pub fn batch_lhs<I, O, C>(_state: &(I, O, C), batch: usize) -> (r: usize)
        ensures
            r == batch,
    {
        batch
    }

    /// The view of the right operand.
    pub fn view_rhs<Lhs, Rhs, Acc, L, O, C>(state: &(TensorMapInputs<Lhs, Rhs, Acc, L>, O, C)) -> (r: &Rhs)
        ensures
            *r == state.0.rhs,
    {
        &state.0.rhs
    }

    /// The batch of the right operand that batch `batch` reads: a tensor map
    /// is addressed by the batch itself.
    pub fn batch_rhs<I, O, C>(_state: &(I, O, C), batch: usize) -> (r: usize)
        ensures
            r == batch,
    {
        batch
    }

    /// The view of the accumulator, if there is one.
    pub fn view_acc<Lhs, Rhs, Acc, L, O, C>(state: &(TensorMapInputs<Lhs, Rhs, Acc, L>, O, C)) -> (r: &Option<Acc>)
        ensures
            *r == state.0.acc,
    {
        &state.0.acc
    }

    /// The batch of the accumulator that batch `batch` reads: where the
    /// accumulator's batch layout maps it, or `batch` itself when there is
    /// none.
    pub fn batch_acc<Lhs, Rhs, Acc, L: Fn(usize) -> usize, O, C>(
        state: &(TensorMapInputs<Lhs, Rhs, Acc, L>, O, C),
        batch: usize,
    ) -> (r: usize)
        requires
            state.0.acc_batch matches Some(l) ==> call_requires(l, (batch,)),
        ensures
            match state.0.acc_batch {
                Some(l) => call_ensures(l, (batch,), r),
                None => r == batch,
            },
    {
        batch_through(&state.0.acc_batch, batch)
    }

    /// The view of the output.
    pub fn view_out<I, Out, L, C>(state: &(I, TensorOutput<Out, L>, C)) -> (r: &Out)
        ensures
            *r == state.1.view,
    {
        &state.1.view
    }

    /// The batch of the output that batch `batch` writes: where its batch
    /// layout maps it.
    pub fn batch_out<I, Out, L: Fn(usize) -> usize, C>(state: &(I, TensorOutput<Out, L>, C), batch: usize) -> (r: usize)
        requires
            call_requires(state.1.batch, (batch,)),
        ensures
            call_ensures(state.1.batch, (batch,), r),
    {
        (state.1.batch)(batch)
    }

    /// The runtime config.
    pub fn runtime_config<I, O, C: Copy>(state: &(I, O, C)) -> (r: C)
        ensures
            r == state.2,
    {
        state.2
    }
}

} // verus!
