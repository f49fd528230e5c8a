use lib::args::{
    tensor_map_dims, tma_box_shapes, tma_tile_shapes,
    validate_tma_tile_shape, TensorMapInputs,
};
use lib::definition::{
    Blueprint, GlobalLayoutConfig, InputBinding, MatmulDim, MatmulElems, MatmulProblem,
    MatmulVectorSizes, MatrixLayout, SwizzleMode, SwizzleModes, TensorBinding, TilingScheme,
};
use lib::error::MatmulSetupError;

fn tiling_scheme() -> TilingScheme {
    TilingScheme {
        tile_size: MatmulDim { m: 8, n: 16, k: 4 },
        partition_size: MatmulDim { m: 2, n: 2, k: 2 },
        stage_size: MatmulDim { m: 2, n: 2, k: 1 },
    }
}

fn layout_config(matrix_layout: MatrixLayout) -> GlobalLayoutConfig {
    GlobalLayoutConfig { matrix_layout, check_row_bounds: true, check_col_bounds: false }
}

fn blueprint(tiling_scheme: TilingScheme, swizzle_modes: SwizzleModes) -> Blueprint {
    Blueprint {
        tiling_scheme,
        swizzle_modes,
        lhs_global_layout_config: layout_config(MatrixLayout::RowMajor),
        rhs_global_layout_config: layout_config(MatrixLayout::RowMajor),
        out_global_layout_config: layout_config(MatrixLayout::RowMajor),
    }
}

fn problem(lhs_layout: MatrixLayout, rhs_layout: MatrixLayout) -> MatmulProblem {
    MatmulProblem {
        m: 64,
        n: 64,
        k: 64,
        lhs_batches: vec![2, 3],
        rhs_batches: vec![4],
        lhs_layout,
        rhs_layout,
    }
}

type Maps = TensorMapInputs<(), (), (), fn(usize) -> usize>;

const SIZES: MatmulVectorSizes = MatmulVectorSizes { lhs: 8, rhs: 8, out: 4 };

fn dtypes() -> MatmulElems<&'static str> {
    MatmulElems {
        lhs_global: "f32",
        rhs_global: "f32",
        acc_global: "f32",
        lhs_stage: "f16",
        rhs_stage: "bf16",
        acc_stage: "f32",
    }
}

fn message(error: &MatmulSetupError) -> String {
    match error {
        MatmulSetupError::InvalidConfig(e) => e.message.clone(),
    }
}

#[test]
fn tma_box_shapes_follow_layout_and_swizzle() {
    let none = SwizzleModes {
        lhs: SwizzleMode::Disabled,
        rhs: SwizzleMode::Disabled,
        ..Default::default()
    };
    assert_eq!(
        tma_box_shapes(tiling_scheme(), none, MatrixLayout::RowMajor, MatrixLayout::RowMajor),
        ((32, 4), (8, 16))
    );

    assert_eq!(
        tma_box_shapes(tiling_scheme(), none, MatrixLayout::ColMajor, MatrixLayout::ColMajor),
        ((8, 8), (4, 64))
    );

    let swizzled = SwizzleModes {
        lhs: SwizzleMode::B32,
        rhs: SwizzleMode::B64,
        ..Default::default()
    };
    assert_eq!(
        tma_box_shapes(tiling_scheme(), swizzled, MatrixLayout::ColMajor, MatrixLayout::RowMajor),
        ((32, 8), (8, 64))
    );
}

#[test]
fn tma_tile_shape_validation_enforces_descriptor_bounds() {
    for (rows, cols) in [(1, 1), (256, 256), (1, 256), (256, 1)] {
        assert!(validate_tma_tile_shape("operand", (rows, cols)).is_ok());
    }
    for shape in [(0, 1), (1, 0), (257, 1), (1, 257), (257, 257)] {
        let error = validate_tma_tile_shape("operand", shape).unwrap_err();
        assert!(format!("{error:?}").contains("operand TMA tile shape"));
    }
}

#[test]
fn tma_tile_shape_error_names_operand_and_shape() {
    let error = validate_tma_tile_shape("lhs", (0, 1024)).unwrap_err();
    assert_eq!(message(&error), "lhs TMA tile shape (0, 1024) must have dimensions in 1..=256");
    let error = validate_tma_tile_shape("rhs", (257, 10)).unwrap_err();
    assert_eq!(message(&error), "rhs TMA tile shape (257, 10) must have dimensions in 1..=256");
}

#[test]
fn swizzled_boxes_cover_the_stage_for_every_layout() {
    let swizzled = SwizzleModes { lhs: SwizzleMode::B128, rhs: SwizzleMode::B32, ..Default::default() };
    for lhs_layout in [MatrixLayout::RowMajor, MatrixLayout::ColMajor] {
        for rhs_layout in [MatrixLayout::RowMajor, MatrixLayout::ColMajor] {
            assert_eq!(
                tma_box_shapes(tiling_scheme(), swizzled, lhs_layout, rhs_layout),
                ((32, 8), (8, 64))
            );
        }
    }
}

#[test]
fn unswizzled_boxes_fit_in_the_stage() {
    let none = SwizzleModes::default();
    for lhs_layout in [MatrixLayout::RowMajor, MatrixLayout::ColMajor] {
        for rhs_layout in [MatrixLayout::RowMajor, MatrixLayout::ColMajor] {
            let ((lr, lc), (rr, rc)) = tma_box_shapes(tiling_scheme(), none, lhs_layout, rhs_layout);
            assert!(lr <= 32 && lc <= 8 && rr <= 8 && rc <= 64);
        }
    }
}

#[test]
fn tiling_scheme_stage_extents() {
    let ts = tiling_scheme();
    assert_eq!(ts.elements_per_stage_along_m(), 32);
    assert_eq!(ts.elements_per_stage_along_n(), 64);
    assert_eq!(ts.elements_per_stage_along_k(), 8);
}

#[test]
fn tile_shapes_read_blueprint_and_problem_layouts() {
    let bp = blueprint(tiling_scheme(), SwizzleModes::default());
    let pb = problem(MatrixLayout::ColMajor, MatrixLayout::RowMajor);
    assert_eq!(tma_tile_shapes(&bp, &pb), ((8, 8), (8, 16)));
}

#[test]
fn validate_accepts_small_boxes() {
    let bp = blueprint(tiling_scheme(), SwizzleModes::default());
    let pb = problem(MatrixLayout::RowMajor, MatrixLayout::RowMajor);
    assert!(Maps::validate(&bp, &pb, &SIZES, &dtypes()).is_ok());
}

#[test]
fn validate_rejects_oversized_box_lhs_first() {
    // A stage of 512 x 64 elements along m and k: the swizzled lhs box is too tall.
    let ts = TilingScheme {
        tile_size: MatmulDim { m: 16, n: 16, k: 16 },
        partition_size: MatmulDim { m: 8, n: 4, k: 4 },
        stage_size: MatmulDim { m: 4, n: 2, k: 1 },
    };
    let swizzled = SwizzleModes { lhs: SwizzleMode::B128, rhs: SwizzleMode::B128, ..Default::default() };
    let bp = blueprint(ts, swizzled);
    let pb = problem(MatrixLayout::RowMajor, MatrixLayout::RowMajor);
    let error = Maps::validate(&bp, &pb, &SIZES, &dtypes()).unwrap_err();
    let text = format!("{error:?}");
    assert!(text.contains("TMA tile shape") && text.contains("1..=256"));
    assert_eq!(message(&error), "lhs TMA tile shape (512, 64) must have dimensions in 1..=256");
}

#[test]
fn validate_rejects_oversized_rhs_box() {
    // Stage n of 512: only the rhs box is refused.
    let ts = TilingScheme {
        tile_size: MatmulDim { m: 16, n: 16, k: 16 },
        partition_size: MatmulDim { m: 2, n: 8, k: 2 },
        stage_size: MatmulDim { m: 2, n: 4, k: 1 },
    };
    let swizzled = SwizzleModes { lhs: SwizzleMode::B64, rhs: SwizzleMode::B64, ..Default::default() };
    let bp = blueprint(ts, swizzled);
    let pb = problem(MatrixLayout::RowMajor, MatrixLayout::RowMajor);
    let error = Maps::validate(&bp, &pb, &SIZES, &dtypes()).unwrap_err();
    assert_eq!(message(&error), "rhs TMA tile shape (32, 512) must have dimensions in 1..=256");
}

#[test]
fn tensor_map_dims_multiply_batches_and_take_last_two_dims() {
    let binding = TensorBinding { shape: vec![2, 3, 40, 24], strides: vec![2880, 960, 24, 1] };
    assert_eq!(tensor_map_dims(&binding, &vec![2, 3]), (6, 40, 24));
    assert_eq!(tensor_map_dims(&binding, &vec![]), (1, 40, 24));
    let flat = TensorBinding { shape: vec![7, 9], strides: vec![9, 1] };
    assert_eq!(tensor_map_dims(&flat, &vec![5, 0, 3]), (0, 7, 9));
}

#[test]
fn tensor_map_create_uses_data_dims_boxes_and_swizzles() {
    let swizzles = SwizzleModes { lhs: SwizzleMode::Disabled, rhs: SwizzleMode::B64, ..Default::default() };
    let bp = blueprint(tiling_scheme(), swizzles);
    let pb = problem(MatrixLayout::RowMajor, MatrixLayout::ColMajor);
    let lhs: InputBinding<&str> =
        InputBinding::Normal(TensorBinding { shape: vec![2, 3, 64, 32], strides: vec![6144, 2048, 32, 1] });
    let rhs = InputBinding::Quantized {
        data: TensorBinding { shape: vec![4, 32, 16], strides: vec![512, 1, 32] },
        scale: TensorBinding { shape: vec![4, 1, 1], strides: vec![1, 1, 1] },
        shape: vec![4, 32, 16],
        scheme: "q8",
    };
    let launch = Maps::create(lhs, rhs, &bp, &pb, &SIZES, &dtypes());
    assert_eq!(launch.lhs.stage_dtype, "f16");
    assert_eq!(launch.rhs.stage_dtype, "bf16");
    assert!(launch.acc.is_none() && launch.acc_batch.is_none());
    assert_eq!(launch.lhs.binding.shape, vec![2, 3, 64, 32]);
    assert_eq!(launch.lhs.dims, (6, 64, 32));
    assert_eq!(launch.lhs.box_shape, (32, 4));
    assert_eq!(launch.lhs.layout, MatrixLayout::RowMajor);
    assert_eq!(launch.lhs.swizzle, SwizzleMode::Disabled);
    assert_eq!(launch.rhs.binding.strides, vec![512, 1, 32]);
    assert_eq!(launch.rhs.dims, (4, 32, 16));
    assert_eq!(launch.rhs.box_shape, (8, 64));
    assert_eq!(launch.rhs.layout, MatrixLayout::ColMajor);
    assert_eq!(launch.rhs.swizzle, SwizzleMode::B64);
}
