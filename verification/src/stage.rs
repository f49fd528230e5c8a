//! The tiling of a bias stage: where each tile of a stage lies in the stage
//! memory, and which stage configurations a bias stage accepts.

use vstd::prelude::*;
use vstd::string::StringExecFns;
use crate::definition::MatrixLayout;
use vstd::arithmetic::div_mod::{
    lemma_div_by_multiple, lemma_div_by_self, lemma_div_is_ordered, lemma_fundamental_div_mod,
};
use crate::error::{append_decimal, decimal, InvalidConfigError};

verus! {

/// The shape of a stage in shared memory: `tiles_per_stage_along_row` by
/// `tiles_per_stage_along_col` tiles of `elements_per_tile_along_row` by
/// `elements_per_tile_along_col` elements, read `vector_size` elements at a
/// time.
#[derive(Clone, Copy, Debug, PartialEq, Eq, Structural)]
pub struct StageMemoryConfig {
    pub elements_per_tile_along_row: u32,
    pub elements_per_tile_along_col: u32,
    pub tiles_per_stage_along_row: u32,
    pub tiles_per_stage_along_col: u32,
    pub vector_size: u32,
    pub matrix_layout: MatrixLayout,
}

impl StageMemoryConfig {
    /// The number of elements of the stage along its columns.
    pub open spec fn stage_cols(self) -> int {
        self.tiles_per_stage_along_col * self.elements_per_tile_along_col
    }

    /// The number of elements of the stage along its columns.
    pub fn elements_per_stage_along_col(&self) -> (r: u32)
        requires
            self.stage_cols() <= u32::MAX,
        ensures
            r == self.stage_cols(),
    {
        self.tiles_per_stage_along_col * self.elements_per_tile_along_col
    }
}

/// The memory of a bias stage: its vectors, and the swizzle that its tiles
/// are read with.
#[derive(Debug)]
pub struct BiasStageMemory<E, Sw> {
    pub data: Vec<E>,
    pub swizzle: Sw,
}

/// A tile of a stage: the vectors `start..end` of `memory`, whose
/// consecutive lines lie `stride` vectors apart (a stride of 0 reads the same
/// vectors for every line).
#[derive(Debug)]
pub struct StridedTile<'a, E, Sw> {
    pub memory: &'a [E],
    pub start: u32,
    pub end: u32,
    pub stride: u32,
    pub swizzle: Sw,
    pub layout: MatrixLayout,
}

/// Tiling layout specific for bias, which is one-dimensional with stride 0:
/// a bias stage holds one vector of biases per group of output columns, and
/// every row of a tile reads the same biases.
#[derive(Clone, Copy, Debug)]
pub struct BiasTilingLayout {}

/// The number of bias vectors of a tile: its columns, `vector_size` at a time.
pub open spec fn bias_tile_width(c: StageMemoryConfig) -> int {
    (c.elements_per_tile_along_col / c.vector_size) as int
}

/// The first bias vector of the tiles of tile column `col`.
pub open spec fn bias_tile_start(c: StageMemoryConfig, col: int) -> int {
    col * bias_tile_width(c)
}

/// The number of bias vectors that the stage holds: its columns,
/// `vector_size` at a time.
pub open spec fn bias_stage_vectors(c: StageMemoryConfig) -> int {
    c.stage_cols() / c.vector_size as int
}

/// The words with which a vector wider than the stage is refused.
pub open spec fn vector_size_message(vector_size: nat, stage_width: nat) -> Seq<char> {
    "Invalid vector size. Got "@ + decimal(vector_size) + " which should not be >"@
        + decimal(stage_width)
}

impl BiasTilingLayout {
    /// The tile at `tile = (row, col)` of a bias stage: one run of
    /// `bias_tile_width` vectors of the stage memory, starting at the tile
    /// column's offset, with stride 0, so that every row of the tile, and
    /// every tile row of the stage, reads the same biases. It is read with
    /// the stage's swizzle and the configured layout.
    pub fn get_tile<'a, E, Sw: Copy>(
        stage: &'a BiasStageMemory<E, Sw>,
        tile: (u32, u32),
        config: StageMemoryConfig,
    ) -> (t: StridedTile<'a, E, Sw>)
        requires
            config.vector_size > 0,
            bias_tile_start(config, tile.1 as int) + bias_tile_width(config) <= u32::MAX,
        ensures
            t.memory@ == stage.data@,
            t.start == bias_tile_start(config, tile.1 as int),
            t.end == t.start + bias_tile_width(config),
            t.stride == 0,
            t.swizzle == stage.swizzle,
            t.layout == config.matrix_layout,
    {
        let (_row, col) = tile;
        let tile_size_col = config.elements_per_tile_along_col / config.vector_size;
        proof { lemma_product_nonnegative(col as int, tile_size_col as int); }
        let start = col * tile_size_col;
        StridedTile {
            memory: stage.data.as_slice(),
            start,
            end: start + tile_size_col,
            stride: 0,
            swizzle: stage.swizzle,
            layout: config.matrix_layout,
        }
    }
}

impl BiasTilingLayout {
    /// Accepts a stage configuration exactly when its vectors are no wider
    /// than a row of the stage (`vector_size <= elements_per_stage_along_col`).
    pub fn check(config: StageMemoryConfig) -> (r: Result<(), InvalidConfigError>)
        requires
            config.stage_cols() <= u32::MAX,
        ensures
            r is Ok <==> config.vector_size <= config.stage_cols(),
            r is Err ==> r->Err_0.message@ == vector_size_message(
                config.vector_size as nat,
                config.stage_cols() as nat,
            ),
    {
        let stage_width = config.elements_per_stage_along_col();
        if config.vector_size > stage_width {
            let mut message = String::from_str("Invalid vector size. Got ");
            append_decimal(&mut message, config.vector_size as usize);
            message.append(" which should not be >");
            append_decimal(&mut message, stage_width as usize);
            return Err(InvalidConfigError { message });
        }
        Ok(())
    }
}

proof fn lemma_product_nonnegative(a: int, b: int)
    requires
        a >= 0,
        b >= 0,
    ensures
        a * b >= 0,
{
    assert(a * b >= 0) by (nonlinear_arith) requires a >= 0, b >= 0;
}

/// `n` groups of `e / v` vectors fit in the `(n * e) / v` vectors of `n * e`
/// elements.
proof fn lemma_tiles_fit_line(n: int, e: int, v: int)
    requires
        n >= 0,
        e >= 0,
        v > 0,
    ensures
        n * (e / v) <= (n * e) / v,
        0 <= e / v,
{
    let q = e / v;
    lemma_fundamental_div_mod(e, v);
    assert(0 <= q) by (nonlinear_arith)
        requires e == v * q + e % v, 0 <= e % v < v, e >= 0, v > 0;
    assert((n * q) * v <= n * e) by (nonlinear_arith)
        requires e == v * q + e % v, 0 <= e % v, n >= 0;
    lemma_div_is_ordered((n * q) * v, n * e, v);
    lemma_div_by_multiple(n * q, v);
}

/// Every bias tile of a stage lies inside the stage memory: for a tile
/// column `col` of the stage, the tile's vectors `start..end` lie within the
/// `elements_per_stage_along_col / vector_size` vectors of the stage.
pub proof fn lemma_bias_tile_inside_stage(c: StageMemoryConfig, col: int)
    requires
        c.vector_size > 0,
        0 <= col < c.tiles_per_stage_along_col,
    ensures
        0 <= bias_tile_start(c, col),
        bias_tile_start(c, col) + bias_tile_width(c) <= bias_stage_vectors(c),
{
    let w = bias_tile_width(c);
    lemma_tiles_fit_line(c.tiles_per_stage_along_col as int, c.elements_per_tile_along_col as int, c.vector_size as int);
    assert(0 <= col * w && col * w + w <= c.tiles_per_stage_along_col * w) by (nonlinear_arith)
        requires 0 <= col < c.tiles_per_stage_along_col, w >= 0;
}

/// The bias tiles of distinct tile columns do not overlap: the tile of an
/// earlier column ends no later than the tile of a later column starts.
pub proof fn lemma_bias_tiles_of_columns_disjoint(c: StageMemoryConfig, col1: int, col2: int)
    requires
        c.vector_size > 0,
        0 <= col1 < col2,
    ensures
        bias_tile_start(c, col1) + bias_tile_width(c) <= bias_tile_start(c, col2),
{
    let w = bias_tile_width(c);
    lemma_tiles_fit_line(1, c.elements_per_tile_along_col as int, c.vector_size as int);
    assert(col1 * w + w <= col2 * w) by (nonlinear_arith)
        requires 0 <= col1 < col2, w >= 0;
}

/// A configuration that `check` accepts holds at least one bias vector:
/// when `0 < vector_size <= elements_per_stage_along_col`, the stage holds
/// at least one vector.
pub proof fn lemma_accepted_config_holds_a_vector(c: StageMemoryConfig)
    requires
        0 < c.vector_size <= c.stage_cols(),
    ensures
        bias_stage_vectors(c) >= 1,
{
    lemma_div_is_ordered(c.vector_size as int, c.stage_cols(), c.vector_size as int);
    lemma_div_by_self(c.vector_size as int);
}

/// The bias tiles of a stage lie side by side: the tile of the first tile
/// column starts at vector 0, each next column's tile starts where the
/// previous one ends, and a tile holds as many whole vectors as fit in
/// `elements_per_tile_along_col` elements.
pub proof fn lemma_bias_tiles_adjacent(c: StageMemoryConfig, col: int)
    requires
        c.vector_size > 0,
        col >= 0,
    ensures
        bias_tile_start(c, 0) == 0,
        bias_tile_start(c, col + 1) == bias_tile_start(c, col) + bias_tile_width(c),
        bias_tile_width(c) * c.vector_size <= c.elements_per_tile_along_col,
        c.elements_per_tile_along_col < (bias_tile_width(c) + 1) * c.vector_size,
{
    let w = bias_tile_width(c);
    let e = c.elements_per_tile_along_col as int;
    let v = c.vector_size as int;
    lemma_fundamental_div_mod(e, v);
    assert((col + 1) * w == col * w + w) by (nonlinear_arith);
    assert(w * v <= e && e < (w + 1) * v) by (nonlinear_arith)
        requires e == v * w + e % v, 0 <= e % v < v;
}

} // verus!
