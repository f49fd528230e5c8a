# Setup decisions of tiled matmul and convolution kernels

A Verus library that states and proves the host-side decisions made before a
tiled matrix multiplication or convolution kernel is launched:

- `stage`: the one-dimensional, stride-0 tile that a bias stage hands each
  tile (`BiasTilingLayout::get_tile`), which stage configurations a bias
  stage accepts (`BiasTilingLayout::check`), and proofs that a bias tile lies
  inside the stage and that the tiles of distinct tile columns do not
  overlap.
- `args`: the boxes that tensor maps load (`tma_box_shapes`,
  `tma_tile_shapes`), which boxes the hardware accepts
  (`validate_tma_tile_shape`, `TensorMapInputs::validate`), and what each
  operand and the output are launched with (`TensorInputs::create`,
  `TensorMapInputs::create`, `TensorOutput::create`), and what the kernel
  reads from its `(inputs, output, config)` state (`TensorArgs`,
  `TensorMapArgs`).
- `routines`: the check that a problem is a vector-matrix product.
- `definition`: the problem, tiling, swizzle and binding descriptions these
  decisions read; `error`: setup errors and their messages.

Run the tests under `tests/` against the compiled library; the contracts are
checked by Verus on `src/`.
