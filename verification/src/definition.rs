//! The problem and tiling descriptions that the setup decisions read.

use vstd::prelude::*;

verus! {

/// How a matrix is laid out in memory.
#[derive(Clone, Copy, Debug, PartialEq, Eq, Structural)]
pub enum MatrixLayout {
    /// Consecutive elements of a row are contiguous.
    RowMajor,
    /// Consecutive elements of a column are contiguous.
    ColMajor,
}

/// A size along the three axes of a matrix multiplication.
#[derive(Clone, Copy, Debug, PartialEq, Eq, Structural)]
pub struct MatmulDim {
    pub m: u32,
    pub n: u32,
    pub k: u32,
}

/// The shape of a matrix multiplication problem: `(m, k) x (k, n)`, with
/// batch dimensions in front.
#[derive(Debug)]
pub struct MatmulProblem {
    pub m: usize,
    pub n: usize,
    pub k: usize,
    /// The batch dimensions of the left operand.
    pub lhs_batches: Vec<usize>,
    /// The batch dimensions of the right operand.
    pub rhs_batches: Vec<usize>,
    pub lhs_layout: MatrixLayout,
    pub rhs_layout: MatrixLayout,
}

/// How a problem is split: a stage holds `stage_size` partitions of
/// `partition_size` tiles of `tile_size` elements each, along every axis.
#[derive(Clone, Copy, Debug, PartialEq, Eq, Structural)]
pub struct TilingScheme {
    pub tile_size: MatmulDim,
    pub partition_size: MatmulDim,
    pub stage_size: MatmulDim,
}

/// The number of elements of a stage along one axis.
pub open spec fn stage_extent(tile: u32, partition: u32, stage: u32) -> int {
    tile * partition * stage
}

impl TilingScheme {
    pub open spec fn stage_m(self) -> int {
        stage_extent(self.tile_size.m, self.partition_size.m, self.stage_size.m)
    }

    pub open spec fn stage_n(self) -> int {
        stage_extent(self.tile_size.n, self.partition_size.n, self.stage_size.n)
    }

    pub open spec fn stage_k(self) -> int {
        stage_extent(self.tile_size.k, self.partition_size.k, self.stage_size.k)
    }

    /// Every stage extent, and the partition extent it is computed from,
    /// fits in a `u32`.
    pub open spec fn wf(self) -> bool {
        &&& self.tile_size.m * self.partition_size.m <= u32::MAX
        &&& self.tile_size.n * self.partition_size.n <= u32::MAX
        &&& self.tile_size.k * self.partition_size.k <= u32::MAX
        &&& self.stage_m() <= u32::MAX
        &&& self.stage_n() <= u32::MAX
        &&& self.stage_k() <= u32::MAX
    }

    /// The number of elements of a stage along `m`.
    pub fn elements_per_stage_along_m(&self) -> (r: u32)
        requires
            self.wf(),
        ensures
            r == self.stage_m(),
    {
        self.tile_size.m * self.partition_size.m * self.stage_size.m
    }

    /// The number of elements of a stage along `n`.
    pub fn elements_per_stage_along_n(&self) -> (r: u32)
        requires
            self.wf(),
        ensures
            r == self.stage_n(),
    {
        self.tile_size.n * self.partition_size.n * self.stage_size.n
    }

    /// The number of elements of a stage along `k`.
    pub fn elements_per_stage_along_k(&self) -> (r: u32)
        requires
            self.wf(),
        ensures
            r == self.stage_k(),
    {
        self.tile_size.k * self.partition_size.k * self.stage_size.k
    }
}

/// The swizzle that a stage is read with; `Disabled` reads it as laid out.
#[derive(Clone, Copy, Debug, PartialEq, Eq, Structural)]
pub enum SwizzleMode {
    Disabled,
    B32,
    B64,
    B128,
}

/// The swizzle of each operand's stage.
#[derive(Clone, Copy, Debug, PartialEq, Eq, Structural)]
pub struct SwizzleModes {
    pub lhs: SwizzleMode,
    pub rhs: SwizzleMode,
    pub acc: SwizzleMode,
    pub out: SwizzleMode,
}

impl Default for SwizzleModes {
    fn default() -> (r: SwizzleModes)
        ensures
            r.lhs == SwizzleMode::Disabled,
            r.rhs == SwizzleMode::Disabled,
            r.acc == SwizzleMode::Disabled,
            r.out == SwizzleMode::Disabled,
    {
        SwizzleModes {
            lhs: SwizzleMode::Disabled,
            rhs: SwizzleMode::Disabled,
            acc: SwizzleMode::Disabled,
            out: SwizzleMode::Disabled,
        }
    }
}

/// How a global tensor is read: its layout, and along which axes the reads
/// are checked against the tensor's bounds.
#[derive(Clone, Copy, Debug, PartialEq, Eq, Structural)]
pub struct GlobalLayoutConfig {
    pub matrix_layout: MatrixLayout,
    pub check_row_bounds: bool,
    pub check_col_bounds: bool,
}

/// The choices a routine made for a problem, as far as the launch reads
/// them: the tiling, the stage swizzles and how each global tensor is read.
#[derive(Clone, Copy, Debug)]
pub struct Blueprint {
    pub tiling_scheme: TilingScheme,
    pub swizzle_modes: SwizzleModes,
    pub lhs_global_layout_config: GlobalLayoutConfig,
    pub rhs_global_layout_config: GlobalLayoutConfig,
    pub out_global_layout_config: GlobalLayoutConfig,
}

/// The number of elements read at a time from each global tensor.
#[derive(Clone, Copy, Debug, PartialEq, Eq, Structural)]
pub struct MatmulVectorSizes {
    pub lhs: usize,
    pub rhs: usize,
    pub out: usize,
}

/// A tensor handed to a kernel, as far as the launch reads it.
#[derive(Debug)]
pub struct TensorBinding {
    pub shape: Vec<usize>,
    pub strides: Vec<usize>,
}

/// An input operand: a plain tensor, or quantized data with its scales and
/// the quantization scheme `Q` they were made with.
#[derive(Debug)]
pub enum InputBinding<Q> {
    Normal(TensorBinding),
    Quantized {
        data: TensorBinding,
        scale: TensorBinding,
        /// The logical shape of the dequantized tensor.
        shape: Vec<usize>,
        scheme: Q,
    },
}

impl<Q> InputBinding<Q> {
    /// The tensor that holds the operand's values.
    pub open spec fn data(self) -> TensorBinding {
        match self {
            InputBinding::Normal(t) => t,
            InputBinding::Quantized { data, .. } => data,
        }
    }

    /// The tensor that holds the operand's values: the tensor itself, or the
    /// quantized data.
    pub fn into_data(self) -> (r: TensorBinding)
        ensures
            r == self.data(),
    {
        match self {
            InputBinding::Normal(t) => t,
            InputBinding::Quantized { data, .. } => data,
        }
    }
}

/// The element type `T` of each operand, in global memory and in the stage.
#[derive(Clone, Copy, Debug)]
pub struct MatmulElems<T> {
    pub lhs_global: T,
    pub rhs_global: T,
    pub acc_global: T,
    pub lhs_stage: T,
    pub rhs_stage: T,
    pub acc_stage: T,
}

} // verus!
