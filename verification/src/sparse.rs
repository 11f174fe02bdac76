use vstd::prelude::*;

verus! {

broadcast use vstd::seq_lib::group_seq_properties;

/// Why compressed sparse-set columns were refused.
#[derive(Clone, Copy, Debug, PartialEq, Eq, Structural)]
pub enum SparseSetError {
    /// There are not as many offset columns as id columns.
    ColumnCountMismatch,
    /// A column's offsets do not number one more than the rows.
    OffsetCount { column: usize },
    /// A column's offsets do not start at 0.
    NonZeroStart { column: usize },
    /// A column's last offset is not the number of its ids.
    FinalOffsetMismatch { column: usize },
    /// A column's offsets decrease somewhere.
    Decreasing { column: usize },
}

/// What is wrong with one column, before the column's index is attached.
#[derive(Clone, Copy, Debug, PartialEq, Eq, Structural)]
pub enum ColumnFault {
    OffsetCount,
    NonZeroStart,
    FinalOffsetMismatch,
    Decreasing,
}

/// Whether no offset is greater than the next.
pub open spec fn non_decreasing(offsets: Seq<usize>) -> bool {
    forall|i: int| 0 <= i < offsets.len() - 1 ==> #[trigger] offsets[i] <= offsets[i + 1]
}

/// The first fault of a column with `rows` rows, offsets `offsets` and
/// `id_count` ids, checked in this order: the number of offsets, the first
/// offset, the last offset, the order of the offsets.
pub open spec fn column_fault(rows: usize, offsets: Seq<usize>, id_count: int) -> Option<ColumnFault> {
    if offsets.len() != rows + 1 {
        Some(ColumnFault::OffsetCount)
    } else if offsets[0] != 0 {
        Some(ColumnFault::NonZeroStart)
    } else if offsets.last() != id_count {
        Some(ColumnFault::FinalOffsetMismatch)
    } else if !non_decreasing(offsets) {
        Some(ColumnFault::Decreasing)
    } else {
        None
    }
}

/// The error for `fault` in column `column`.
pub open spec fn column_error(fault: ColumnFault, column: usize) -> SparseSetError {
    match fault {
        ColumnFault::OffsetCount => SparseSetError::OffsetCount { column },
        ColumnFault::NonZeroStart => SparseSetError::NonZeroStart { column },
        ColumnFault::FinalOffsetMismatch => SparseSetError::FinalOffsetMismatch { column },
        ColumnFault::Decreasing => SparseSetError::Decreasing { column },
    }
}

/// The columns given, or none.
pub open spec fn given_columns<T>(columns: Option<Vec<Vec<T>>>) -> Seq<Vec<T>> {
    match columns {
        Some(v) => v@,
        None => Seq::empty(),
    }
}

/// The fault of column `c`.
pub open spec fn fault_of_column(
    rows: usize,
    offsets: Seq<Vec<usize>>,
    ids: Seq<Vec<u64>>,
    c: int,
) -> Option<ColumnFault> {
    column_fault(rows, offsets[c]@, ids[c]@.len() as int)
}

/// The set of row `k`: the ids between its offset and the next.
pub open spec fn row_set(ids: Seq<u64>, offsets: Seq<usize>, k: int) -> Seq<u64> {
    ids.subrange(offsets[k] as int, offsets[k + 1] as int)
}

/// The sets of the first `rows` rows.
pub open spec fn row_sets(ids: Seq<u64>, offsets: Seq<usize>, rows: int) -> Seq<Seq<u64>> {
    Seq::new(rows as nat, |k: int| row_set(ids, offsets, k))
}

/// Adjacent order gives order between any two offsets.
pub proof fn lemma_non_decreasing_ordered(offsets: Seq<usize>, i: int, j: int)
    requires
        non_decreasing(offsets),
        0 <= i <= j < offsets.len(),
    ensures
        offsets[i] <= offsets[j],
    decreases j - i,
{
    if i < j {
        lemma_non_decreasing_ordered(offsets, i, j - 1);
        assert(offsets[j - 1] <= offsets[j]);
    }
}

/// The ids from `from` up to `to`.
fn copy_ids(ids: &Vec<u64>, from: usize, to: usize) -> (r: Vec<u64>)
    requires
        from <= to <= ids@.len(),
    ensures
        r@ == ids@.subrange(from as int, to as int),
{
    let mut r: Vec<u64> = Vec::new();
    let mut i: usize = from;
    while i < to
        invariant
            from <= i <= to <= ids@.len(),
            r@ == ids@.subrange(from as int, i as int),
        decreases to - i,
    {
        r.push(ids[i]);
        i = i + 1;
        assert(r@ =~= ids@.subrange(from as int, i as int));
    }
    r
}

/// The first fault of one column.
fn check_column(rows: usize, offsets: &Vec<usize>, id_count: usize) -> (r: Option<ColumnFault>)
    ensures
        r == column_fault(rows, offsets@, id_count as int),
{
    let n = offsets.len();
    if n == 0 || n - 1 != rows {
        return Some(ColumnFault::OffsetCount);
    }
    if offsets[0] != 0 {
        return Some(ColumnFault::NonZeroStart);
    }
    if offsets[n - 1] != id_count {
        return Some(ColumnFault::FinalOffsetMismatch);
    }
    let mut i: usize = 0;
    while i + 1 < n
        invariant
            i < n,
            n == offsets@.len(),
            n - 1 == rows,
            offsets@[0] == 0,
            offsets@[n - 1] == id_count,
            forall|k: int| 0 <= k < i ==> #[trigger] offsets@[k] <= offsets@[k + 1],
        decreases n - i,
    {
        if offsets[i] > offsets[i + 1] {
            assert(!non_decreasing(offsets@)) by {
                assert(offsets@[i as int] > offsets@[i as int + 1]);
            }
            return Some(ColumnFault::Decreasing);
        }
        i = i + 1;
    }
    None
}

/// The row sets of one valid column.
fn column_sets(rows: usize, offsets: &Vec<usize>, ids: &Vec<u64>) -> (r: Vec<Vec<u64>>)
    requires
        column_fault(rows, offsets@, ids@.len() as int) is None,
    ensures
        r@.len() == rows,
        forall|k: int| 0 <= k < rows ==> (#[trigger] r@[k])@ == row_set(ids@, offsets@, k),
{
    let mut column: Vec<Vec<u64>> = Vec::new();
    let mut k: usize = 0;
    while k < rows
        invariant
            k <= rows,
            offsets@.len() == rows + 1,
            column_fault(rows, offsets@, ids@.len() as int) is None,
            column@.len() == k,
            forall|j: int| 0 <= j < k ==> (#[trigger] column@[j])@ == row_set(ids@, offsets@, j),
        decreases rows - k,
    {
        proof {
            lemma_non_decreasing_ordered(offsets@, k as int + 1, rows as int);
            assert(offsets@[k as int] <= offsets@[k as int + 1]);
        }
        let set = copy_ids(ids, offsets[k], offsets[k + 1]);
        column.push(set);
        k = k + 1;
    }
    column
}

/// Decodes compressed sparse-set columns: column `c` gives each of the
/// `rows` rows the ids of `sparse_ids[c]` between its offset and the next in
/// `sparse_offsets[c]`. Missing offsets or ids count as no columns. The
/// columns are checked in order, and the first fault found is the error.
pub fn encoded_sparse_sets(
    rows: usize,
    sparse_offsets: Option<Vec<Vec<usize>>>,
    sparse_ids: Option<Vec<Vec<u64>>>,
) -> (r: Result<Vec<Vec<Vec<u64>>>, SparseSetError>)
    ensures
        ({
            let offsets = given_columns(sparse_offsets);
            let ids = given_columns(sparse_ids);
            match r {
                Ok(columns) => {
                    &&& offsets.len() == ids.len()
                    &&& forall|c: int|
                        0 <= c < offsets.len() ==> #[trigger] fault_of_column(rows, offsets, ids, c)
                            is None
                    &&& columns@.len() == offsets.len()
                    &&& forall|c: int|
                        0 <= c < offsets.len() ==> (#[trigger] columns@[c])@.len() == rows
                    &&& forall|c: int, k: int|
                        0 <= c < offsets.len() && 0 <= k < rows ==> (#[trigger] columns@[c]@[k])@
                            == row_set(ids[c]@, offsets[c]@, k)
                },
                Err(SparseSetError::ColumnCountMismatch) => offsets.len() != ids.len(),
                Err(e) => {
                    &&& offsets.len() == ids.len()
                    &&& exists|c: int|
                        {
                            &&& 0 <= c < offsets.len()
                            &&& forall|d: int|
                                0 <= d < c ==> #[trigger] fault_of_column(rows, offsets, ids, d)
                                    is None
                            &&& #[trigger] fault_of_column(rows, offsets, ids, c) is Some
                            &&& e == column_error(fault_of_column(rows, offsets, ids, c)->0, c as usize)
                        }
                },
            }
        }),
{
    let offsets: Vec<Vec<usize>> = match sparse_offsets {
        Some(v) => v,
        None => Vec::new(),
    };
    let ids: Vec<Vec<u64>> = match sparse_ids {
        Some(v) => v,
        None => Vec::new(),
    };
    if offsets.len() != ids.len() {
        return Err(SparseSetError::ColumnCountMismatch);
    }
    let mut columns: Vec<Vec<Vec<u64>>> = Vec::new();
    let mut c: usize = 0;
    while c < offsets.len()
        invariant
            c <= offsets@.len(),
            offsets@ == given_columns(sparse_offsets),
            ids@ == given_columns(sparse_ids),
            offsets@.len() == ids@.len(),
            columns@.len() == c,
            forall|d: int| 0 <= d < c ==> #[trigger] fault_of_column(rows, offsets@, ids@, d) is None,
            forall|d: int| 0 <= d < c ==> (#[trigger] columns@[d])@.len() == rows,
            forall|d: int, k: int|
                0 <= d < c && 0 <= k < rows ==> (#[trigger] columns@[d]@[k])@ == row_set(
                    ids@[d]@,
                    offsets@[d]@,
                    k,
                ),
        decreases offsets@.len() - c,
    {
        let column_offsets = &offsets[c];
        let column_ids = &ids[c];
        match check_column(rows, column_offsets, column_ids.len()) {
            Some(fault) => {
                let e = match fault {
                    ColumnFault::OffsetCount => SparseSetError::OffsetCount { column: c },
                    ColumnFault::NonZeroStart => SparseSetError::NonZeroStart { column: c },
                    ColumnFault::FinalOffsetMismatch => SparseSetError::FinalOffsetMismatch {
                        column: c,
                    },
                    ColumnFault::Decreasing => SparseSetError::Decreasing { column: c },
                };
                assert(fault_of_column(rows, offsets@, ids@, c as int) == Some(fault));
                assert(e == column_error(fault, c));
                return Err(e);
            },
            None => {},
        }
        let column = column_sets(rows, column_offsets, column_ids);
        columns.push(column);
        proof {
            assert(fault_of_column(rows, offsets@, ids@, c as int) is None);
            assert forall|d: int, k: int| 0 <= d <= c && 0 <= k < rows implies (
            #[trigger] columns@[d]@[k])@ == row_set(ids@[d]@, offsets@[d]@, k) by {
                if d == c {
                    assert(columns@[d] == column);
                }
            }
        }
        c = c + 1;
    }
    Ok(columns)
}

/// The sets of the first `k` rows of a valid column, concatenated, are the
/// ids before the offset of row `k`.
proof fn lemma_row_sets_prefix(rows: usize, offsets: Seq<usize>, ids: Seq<u64>, k: int)
    requires
        column_fault(rows, offsets, ids.len() as int) is None,
        0 <= k <= rows,
    ensures
        row_sets(ids, offsets, k).flatten() == ids.subrange(0, offsets[k] as int),
    decreases k,
{
    if k == 0 {
        assert(row_sets(ids, offsets, 0) =~= Seq::<Seq<u64>>::empty());
        assert(ids.subrange(0, offsets[0] as int) =~= Seq::<u64>::empty());
    } else {
        lemma_row_sets_prefix(rows, offsets, ids, k - 1);
        lemma_non_decreasing_ordered(offsets, k, rows as int);
        assert(offsets[k - 1] <= offsets[k]);
        assert(row_sets(ids, offsets, k) =~= row_sets(ids, offsets, k - 1).push(
            row_set(ids, offsets, k - 1),
        ));
        row_sets(ids, offsets, k - 1).lemma_flatten_push(row_set(ids, offsets, k - 1));
        assert(ids.subrange(0, offsets[k - 1] as int) + ids.subrange(
            offsets[k - 1] as int,
            offsets[k] as int,
        ) =~= ids.subrange(0, offsets[k] as int));
    }
}

/// The sets of a valid column, concatenated row after row, are the column's
/// ids: every id belongs to exactly one row, in order.
pub proof fn lemma_row_sets_concatenate(rows: usize, offsets: Seq<usize>, ids: Seq<u64>)
    requires
        column_fault(rows, offsets, ids.len() as int) is None,
    ensures
        row_sets(ids, offsets, rows as int).flatten() == ids,
{
    lemma_row_sets_prefix(rows, offsets, ids, rows as int);
    assert(ids.subrange(0, ids.len() as int) =~= ids);
}

/// The checks of a column, in their order: a column is accepted exactly when
/// it has one offset more than there are rows, starts at 0, ends at the
/// number of its ids and never decreases; a wrong number of offsets is
/// reported before a wrong start, a wrong start before a wrong end, and a
/// wrong end before a decrease.
pub proof fn lemma_column_checks(rows: usize, offsets: Seq<usize>, id_count: int)
    ensures
        column_fault(rows, offsets, id_count) is None <==> (offsets.len() == rows + 1
            && offsets[0] == 0 && offsets[offsets.len() - 1] == id_count && forall|i: int|
            0 <= i < offsets.len() - 1 ==> #[trigger] offsets[i] <= offsets[i + 1]),
        offsets.len() != rows + 1 ==> column_fault(rows, offsets, id_count) == Some(
            ColumnFault::OffsetCount,
        ),
        offsets.len() == rows + 1 && offsets[0] != 0 ==> column_fault(rows, offsets, id_count)
            == Some(ColumnFault::NonZeroStart),
        offsets.len() == rows + 1 && offsets[0] == 0 && offsets[offsets.len() - 1] != id_count
            ==> column_fault(rows, offsets, id_count) == Some(ColumnFault::FinalOffsetMismatch),
        offsets.len() == rows + 1 && offsets[0] == 0 && offsets[offsets.len() - 1] == id_count
            && (exists|i: int| 0 <= i < offsets.len() - 1 && #[trigger] offsets[i] > offsets[i + 1])
            ==> column_fault(rows, offsets, id_count) == Some(ColumnFault::Decreasing),
{
}

} // verus!
