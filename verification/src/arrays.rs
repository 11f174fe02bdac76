use vstd::prelude::*;

verus! {

/// Why a flat array could not be cut into rows.
#[derive(Clone, Copy, Debug, PartialEq, Eq, Structural)]
pub enum ShapeError {
    /// The array does not have the number of dimensions asked for.
    WrongDimensions,
    /// A row does not have the number of columns asked for.
    WrongWidth,
}

/// Row `i` of `values` cut into rows of `width` items.
pub open spec fn chunk<T>(values: Seq<T>, width: int, i: int) -> Seq<T> {
    values.subrange(i * width, i * width + width)
}

/// Cuts `values` into consecutive rows of `width` items, as `chunks_exact`
/// does: a last incomplete row is left out.
pub fn rows_from_flat<T: Copy>(values: &[T], width: usize) -> (r: Vec<Vec<T>>)
    requires
        width > 0,
    ensures
        r@.len() == (values@.len() as int) / (width as int),
        forall|i: int| 0 <= i < r@.len() ==> (#[trigger] r@[i])@ == chunk(values@, width as int, i),
{
    let n = values.len();
    let mut rows: Vec<Vec<T>> = Vec::new();
    let mut start: usize = 0;
    assert(rows@.len() * width == 0) by (nonlinear_arith)
        requires
            rows@.len() == 0,
    ;
    while width <= n - start
        invariant
            width > 0,
            n == values@.len(),
            start <= n,
            start as int == rows@.len() * width,
            forall|i: int|
                0 <= i < rows@.len() ==> (#[trigger] rows@[i])@ == chunk(values@, width as int, i),
        decreases n - start,
    {
        let mut row: Vec<T> = Vec::new();
        let mut j: usize = 0;
        while j < width
            invariant
                j <= width,
                start + width <= n,
                n == values@.len(),
                row@ == values@.subrange(start as int, start + j),
            decreases width - j,
        {
            row.push(values[start + j]);
            j = j + 1;
            assert(row@ =~= values@.subrange(start as int, start + j));
        }
        let ghost count = rows@.len();
        rows.push(row);
        proof {
            assert(chunk(values@, width as int, count as int) == values@.subrange(
                start as int,
                start + width,
            ));
            assert(start + width == (count + 1) * width) by (nonlinear_arith)
                requires
                    start == count * width,
            ;
        }
        start = start + width;
    }
    proof {
        let count = rows@.len() as int;
        let w = width as int;
        let len = n as int;
        assert(count == len / w) by (nonlinear_arith)
            requires
                count * w <= len,
                len < count * w + w,
                w > 0,
        ;
    }
    rows
}

/// Cuts `values` into blocks of `depth` rows of `width` items: block `t` is
/// the `t`-th run of `depth * width` items, cut into rows.
pub fn blocks_from_flat<T: Copy>(values: &[T], depth: usize, width: usize) -> (r: Vec<
    Vec<Vec<T>>,
>)
    requires
        width > 0,
        depth > 0,
        depth * width <= usize::MAX,
    ensures
        r@.len() == (values@.len() as int) / (depth * width),
        forall|t: int|
            0 <= t < r@.len() ==> (#[trigger] r@[t])@.len() == depth && forall|j: int|
                0 <= j < depth ==> (#[trigger] r@[t]@[j])@ == chunk(
                    chunk(values@, depth * width, t),
                    width as int,
                    j,
                ),
{
    let block_width: usize = depth * width;
    assert(block_width > 0) by (nonlinear_arith)
        requires
            block_width == depth * width,
            depth > 0,
            width > 0,
    ;
    let flat_blocks = rows_from_flat(values, block_width);
    let mut blocks: Vec<Vec<Vec<T>>> = Vec::new();
    let mut t: usize = 0;
    while t < flat_blocks.len()
        invariant
            t <= flat_blocks@.len(),
            width > 0,
            block_width == depth * width,
            block_width > 0,
            flat_blocks@.len() == (values@.len() as int) / (block_width as int),
            forall|i: int|
                0 <= i < flat_blocks@.len() ==> (#[trigger] flat_blocks@[i])@ == chunk(
                    values@,
                    block_width as int,
                    i,
                ),
            blocks@.len() == t,
            forall|i: int|
                0 <= i < t ==> (#[trigger] blocks@[i])@.len() == depth && forall|j: int|
                    0 <= j < depth ==> (#[trigger] blocks@[i]@[j])@ == chunk(
                        chunk(values@, depth * width, i),
                        width as int,
                        j,
                    ),
        decreases flat_blocks@.len() - t,
    {
        let block = flat_blocks[t].as_slice();
        proof {
            let b = t as int * block_width;
            assert(flat_blocks@[t as int]@ == chunk(values@, block_width as int, t as int));
            assert(block@.len() == block_width) by {
                assert(t < (values@.len() as int) / (block_width as int));
                assert(b + block_width <= values@.len()) by (nonlinear_arith)
                    requires
                        t < (values@.len() as int) / (block_width as int),
                        b == t * block_width,
                        block_width > 0,
                ;
            }
            assert((block_width as int) / (width as int) == depth) by (nonlinear_arith)
                requires
                    block_width == depth * width,
                    width > 0,
            ;
        }
        let rows = rows_from_flat(block, width);
        blocks.push(rows);
        t = t + 1;
    }
    blocks
}

/// The rows of a two-dimensional array given by its shape and its items in
/// row-major order.
pub fn rows_from_shape<T: Copy>(shape: &[usize], values: &[T]) -> (r: Result<Vec<Vec<T>>, ShapeError>)
    requires
        shape@.len() == 2 ==> shape@[1] > 0,
    ensures
        shape@.len() != 2 ==> r == Err::<Vec<Vec<T>>, ShapeError>(ShapeError::WrongDimensions),
        shape@.len() == 2 ==> (r matches Ok(rows) && rows@.len() == (values@.len() as int) / (
        shape@[1] as int) && forall|i: int|
            0 <= i < rows@.len() ==> (#[trigger] rows@[i])@ == chunk(values@, shape@[1] as int, i)),
{
    if shape.len() != 2 {
        return Err(ShapeError::WrongDimensions);
    }
    Ok(rows_from_flat(values, shape[1]))
}

/// The rows of a two-dimensional array whose rows must have `width` items.
pub fn fixed_width_rows<T: Copy>(shape: &[usize], values: &[T], width: usize) -> (r: Result<
    Vec<Vec<T>>,
    ShapeError,
>)
    requires
        width > 0,
    ensures
        (shape@.len() != 2 || shape@[1] != width) ==> r == Err::<Vec<Vec<T>>, ShapeError>(
            ShapeError::WrongWidth,
        ),
        (shape@.len() == 2 && shape@[1] == width) ==> (r matches Ok(rows) && rows@.len()
            == (values@.len() as int) / (width as int) && forall|i: int|
            0 <= i < rows@.len() ==> (#[trigger] rows@[i])@ == chunk(values@, width as int, i)),
{
    if shape.len() != 2 || shape[1] != width {
        return Err(ShapeError::WrongWidth);
    }
    Ok(rows_from_flat(values, width))
}

/// The blocks of a three-dimensional array given by its shape and its items
/// in row-major order.
pub fn blocks_from_shape<T: Copy>(shape: &[usize], values: &[T]) -> (r: Result<
    Vec<Vec<Vec<T>>>,
    ShapeError,
>)
    requires
        shape@.len() == 3 ==> shape@[1] > 0 && shape@[2] > 0 && shape@[1] * shape@[2]
            <= usize::MAX,
    ensures
        shape@.len() != 3 ==> r == Err::<Vec<Vec<Vec<T>>>, ShapeError>(ShapeError::WrongDimensions),
        shape@.len() == 3 ==> (r matches Ok(blocks) && blocks@.len() == (values@.len() as int) / (shape@[1]
            * shape@[2]) && forall|t: int|
            0 <= t < blocks@.len() ==> (#[trigger] blocks@[t])@.len() == shape@[1] && forall|j: int|
                0 <= j < shape@[1] ==> (#[trigger] blocks@[t]@[j])@ == chunk(
                    chunk(values@, shape@[1] * shape@[2], t),
                    shape@[2] as int,
                    j,
                )),
{
    if shape.len() != 3 {
        return Err(ShapeError::WrongDimensions);
    }
    Ok(blocks_from_flat(values, shape[1], shape[2]))
}

/// Whether every row has exactly `width` items.
pub fn all_rows_have_width<T>(rows: &Vec<Vec<T>>, width: usize) -> (b: bool)
    ensures
        b == forall|i: int| 0 <= i < rows@.len() ==> (#[trigger] rows@[i])@.len() == width,
{
    let mut i: usize = 0;
    while i < rows.len()
        invariant
            i <= rows@.len(),
            forall|k: int| 0 <= k < i ==> (#[trigger] rows@[k])@.len() == width,
        decreases rows@.len() - i,
    {
        if rows[i].len() != width {
            return false;
        }
        i = i + 1;
    }
    true
}

} // verus!
