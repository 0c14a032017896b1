# ndarray_slice

Slicing arguments for n-dimensional arrays, verified with Verus.

- `src/slice.rs`: `Slice` (a range with a step size) and `SliceOrIndex`
  (a slice or a single index), with `step_by`, `is_slice`, `is_index` and the
  text of an argument as `s![]` takes it.
- `src/conversions.rs`: `From` conversions from ranges and indices.
- `src/slice_info.rs`: `SliceInfo`, a list of arguments with the dimension
  type of the result, whose invariant ties that type to the number of slices;
  and `SliceNextDim`, which gives that type argument by argument.
- `src/dimension.rs`: the dimension types; `src/error.rs`: `ShapeError`.
- `src/text.rs`: decimal text of integers.
- `src/laws.rs`: what holds across the operations.
- `app/lib.rs`: the `s![]` macro, which Verus code cannot define.
