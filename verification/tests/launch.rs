use lib::args::{
    BatchLayoutLaunch, TensorArgs, TensorInputIdent, TensorInputs, TensorMapArgs, TensorMapInputs,
    TensorOutput, TensorViewLaunch, ViewLaunch,
};
use lib::definition::{
    Blueprint, GlobalLayoutConfig, InputBinding, MatmulDim, MatmulElems, MatmulProblem,
    MatmulVectorSizes, MatrixLayout, SwizzleModes, TensorBinding, TilingScheme,
};
use lib::error::MatmulSetupError;
use lib::routines::validate_vecmat_problem;

fn blueprint() -> Blueprint {
    Blueprint {
        tiling_scheme: TilingScheme {
            tile_size: MatmulDim { m: 16, n: 16, k: 16 },
            partition_size: MatmulDim { m: 1, n: 1, k: 1 },
            stage_size: MatmulDim { m: 1, n: 1, k: 1 },
        },
        swizzle_modes: SwizzleModes::default(),
        lhs_global_layout_config: GlobalLayoutConfig {
            matrix_layout: MatrixLayout::RowMajor,
            check_row_bounds: true,
            check_col_bounds: false,
        },
        rhs_global_layout_config: GlobalLayoutConfig {
            matrix_layout: MatrixLayout::ColMajor,
            check_row_bounds: false,
            check_col_bounds: true,
        },
        out_global_layout_config: GlobalLayoutConfig {
            matrix_layout: MatrixLayout::RowMajor,
            check_row_bounds: true,
            check_col_bounds: true,
        },
    }
}

fn problem(m: usize) -> MatmulProblem {
    MatmulProblem {
        m,
        n: 256,
        k: 256,
        lhs_batches: vec![],
        rhs_batches: vec![],
        lhs_layout: MatrixLayout::RowMajor,
        rhs_layout: MatrixLayout::ColMajor,
    }
}

#[test]
fn vecmat_accepts_single_row() {
    assert!(validate_vecmat_problem(&problem(1)).is_ok());
}

#[test]
fn vecmat_rejects_general_matmul() {
    for m in [0, 2, 256, 1000] {
        let error = validate_vecmat_problem(&problem(m)).unwrap_err();
        assert!(format!("{error:?}").contains("vec"));
        let MatmulSetupError::InvalidConfig(e) = error;
        assert_eq!(e.message, format!("m must equal 1 to qualify as a vecmat problem, got {m}"));
    }
}

fn dtypes() -> MatmulElems<u8> {
    MatmulElems { lhs_global: 1, rhs_global: 2, acc_global: 3, lhs_stage: 4, rhs_stage: 5, acc_stage: 6 }
}

type Inputs = TensorInputs<(), (), (), fn(usize) -> usize>;
type Output = TensorOutput<(), fn(usize) -> usize>;

#[test]
fn tensor_inputs_accept_every_blueprint() {
    let sizes = MatmulVectorSizes { lhs: 4, rhs: 2, out: 8 };
    assert!(Inputs::validate(&blueprint(), &problem(64), &sizes, &dtypes()).is_ok());
}

#[test]
fn tensor_inputs_view_plain_and_quantized_operands() {
    let lhs: InputBinding<&str> = InputBinding::Normal(TensorBinding { shape: vec![2, 8, 4], strides: vec![32, 4, 1] });
    let rhs = InputBinding::Quantized {
        data: TensorBinding { shape: vec![4, 2], strides: vec![2, 1] },
        scale: TensorBinding { shape: vec![1], strides: vec![1] },
        shape: vec![4, 8],
        scheme: "int8-per-tensor",
    };
    let sizes = MatmulVectorSizes { lhs: 4, rhs: 2, out: 8 };
    let bp = blueprint();
    let pb = problem(8);
    let launch = Inputs::create(lhs, rhs, &bp, &pb, &sizes, &dtypes());
    match launch.lhs_batch {
        BatchLayoutLaunch::Batch { shape, strides, problem } => {
            assert_eq!(shape, vec![2, 8, 4]);
            assert_eq!(strides, vec![32, 4, 1]);
            assert_eq!(problem.m, 8);
        }
        BatchLayoutLaunch::Noop => panic!("a plain operand maps batches through its own layout"),
    }
    assert!(matches!(launch.rhs_batch, BatchLayoutLaunch::Noop));
    match launch.lhs {
        ViewLaunch::Tensor(TensorViewLaunch { binding, vector_size, config }) => {
            assert_eq!(binding.shape, vec![2, 8, 4]);
            assert_eq!(vector_size, 4);
            assert_eq!(config, bp.lhs_global_layout_config);
        }
        ViewLaunch::Quantized { .. } => panic!("a plain operand is viewed as a tensor"),
    }
    match launch.rhs {
        ViewLaunch::Quantized { data, scale, shape, scheme, problem, vector_size, config } => {
            assert_eq!(data.shape, vec![4, 2]);
            assert_eq!(scale.shape, vec![1]);
            assert_eq!(shape, vec![4, 8]);
            assert_eq!(scheme, "int8-per-tensor");
            assert_eq!(problem.k, 256);
            assert_eq!(vector_size, 2);
            assert_eq!(config, bp.rhs_global_layout_config);
        }
        ViewLaunch::Tensor(_) => panic!("a quantized operand is viewed as quantized"),
    }
    assert!(launch.acc.is_none());
    assert!(launch.acc_batch.is_none());
}

#[test]
fn tensor_output_is_a_batched_tensor_view() {
    let sizes = MatmulVectorSizes { lhs: 4, rhs: 2, out: 8 };
    let bp = blueprint();
    let pb = problem(8);
    let out = TensorBinding { shape: vec![3, 8, 8], strides: vec![64, 8, 1] };
    let launch = Output::create(out, &bp, &pb, &sizes, &dtypes());
    match launch.batch {
        BatchLayoutLaunch::Batch { shape, strides, problem } => {
            assert_eq!(shape, vec![3, 8, 8]);
            assert_eq!(strides, vec![64, 8, 1]);
            assert_eq!(problem.n, 256);
        }
        BatchLayoutLaunch::Noop => panic!("the output maps batches through its own layout"),
    }
    assert_eq!(launch.view.binding.strides, vec![64, 8, 1]);
    assert_eq!(launch.view.vector_size, 8);
    assert_eq!(launch.view.config, bp.out_global_layout_config);
}

fn broadcast(batch: usize) -> usize {
    batch % 3
}

fn double(batch: usize) -> usize {
    batch * 2
}

#[test]
fn tensor_args_state_reads_its_parts() {
    let inputs = TensorInputs {
        lhs_batch: broadcast as fn(usize) -> usize,
        lhs: "lhs view",
        rhs_batch: double as fn(usize) -> usize,
        rhs: "rhs view",
        acc_batch: None,
        acc: Some("acc view"),
    };
    let mut output = TensorOutput { view: "out view", batch: double as fn(usize) -> usize };
    let config = GlobalLayoutConfig { matrix_layout: MatrixLayout::RowMajor, check_row_bounds: true, check_col_bounds: true };
    let state = TensorArgs::init_state(&inputs, &mut output, 42u32, config, config, config);
    assert_eq!(*output.view, *"out view");
    assert_eq!(*TensorArgs::view_lhs(&state), "lhs view");
    assert_eq!(*TensorArgs::view_rhs(&state), "rhs view");
    assert_eq!(*TensorArgs::view_acc(&state), Some("acc view"));
    assert_eq!(*TensorArgs::view_out(&state), "out view");
    assert_eq!(TensorArgs::batch_lhs(&state, 7), 1);
    assert_eq!(TensorArgs::batch_rhs(&state, 7), 14);
    assert_eq!(TensorArgs::batch_acc(&state, 7), 7);
    assert_eq!(TensorArgs::batch_out(&state, 5), 10);
    assert_eq!(TensorArgs::runtime_config(&state), 42);
    assert_eq!(*inputs.lhs, *"lhs view");
}

#[test]
fn tensor_map_args_state_reads_its_parts() {
    let inputs = TensorMapInputs {
        lhs: 10u8,
        rhs: 20u8,
        acc: Some(30u8),
        acc_batch: Some(broadcast as fn(usize) -> usize),
    };
    let mut output = TensorOutput { view: 40u8, batch: double as fn(usize) -> usize };
    let config = GlobalLayoutConfig { matrix_layout: MatrixLayout::ColMajor, check_row_bounds: false, check_col_bounds: true };
    let state = TensorMapArgs::init_state(&inputs, &mut output, "runtime", config, config, config);
    assert_eq!(output.view, 40);
    assert_eq!(*TensorMapArgs::view_lhs(&state), 10);
    assert_eq!(*TensorMapArgs::view_rhs(&state), 20);
    assert_eq!(*TensorMapArgs::view_acc(&state), Some(30));
    assert_eq!(*TensorMapArgs::view_out(&state), 40);
    assert_eq!(TensorMapArgs::batch_lhs(&state, 12), 12);
    assert_eq!(TensorMapArgs::batch_rhs(&state, 0), 0);
    assert_eq!(TensorMapArgs::batch_acc(&state, 5), 2);
    assert_eq!(TensorMapArgs::batch_out(&state, 5), 10);
    assert_eq!(TensorMapArgs::runtime_config(&state), "runtime");
    assert_eq!(inputs.lhs, 10);
}

#[test]
fn input_data_of_each_binding() {
    let plain: InputBinding<()> = InputBinding::Normal(TensorBinding { shape: vec![2, 2], strides: vec![2, 1] });
    assert_eq!(plain.into_data().shape, vec![2, 2]);
    let quantized = InputBinding::Quantized {
        data: TensorBinding { shape: vec![5, 1], strides: vec![1, 1] },
        scale: TensorBinding { shape: vec![1], strides: vec![1] },
        shape: vec![5, 8],
        scheme: (),
    };
    assert_eq!(quantized.into_data().shape, vec![5, 1]);
    assert_ne!(TensorInputIdent::Lhs, TensorInputIdent::Rhs);
}
