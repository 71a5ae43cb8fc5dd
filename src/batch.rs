//! Row-wise evaluation of a scalar function over equal-length columns.
//!
//! Each row whose arguments are all present is handed to an evaluator; a row
//! with any missing argument yields the `missing` value (not-a-number for
//! floating-point outputs). The first failing evaluation fails the whole batch.

use vstd::prelude::*;

verus! {

/// The result of evaluating `f` on the row `t`, for an evaluator whose result is
/// determined by its argument.
pub open spec fn row_value<T, R, E, F: Fn(T) -> Result<R, E>>(f: F, t: T) -> Result<R, E> {
    choose|r: Result<R, E>| f.ensures((t,), r)
}

/// `f` returns at most one result for each argument.
pub open spec fn deterministic<T, R, E, F: Fn(T) -> Result<R, E>>(f: F) -> bool {
    forall|t: T, r1: Result<R, E>, r2: Result<R, E>|
        f.ensures((t,), r1) && f.ensures((t,), r2) ==> r1 == r2
}

/// What evaluating the rows in order produces: the outputs row by row, or the
/// error of the first present row whose evaluation fails.
pub open spec fn batch_model<T, R, E, F: Fn(T) -> Result<R, E>>(
    rows: Seq<Option<T>>,
    missing: R,
    f: F,
) -> Result<Seq<R>, E>
    decreases rows.len(),
{
    if rows.len() == 0 {
        Ok(Seq::empty())
    } else {
        match batch_model(rows.drop_last(), missing, f) {
            Err(e) => Err(e),
            Ok(prev) => match rows.last() {
                None => Ok(prev.push(missing)),
                Some(t) => match row_value(f, t) {
                    Ok(v) => Ok(prev.push(v)),
                    Err(e) => Err(e),
                },
            },
        }
    }
}

/// A row evaluates without failure: it is missing an argument, or `f` succeeds on it.
pub open spec fn row_ok<T, R, E, F: Fn(T) -> Result<R, E>>(row: Option<T>, f: F) -> bool {
    match row {
        None => true,
        Some(t) => row_value(f, t) is Ok,
    }
}

/// The output of one row that evaluates without failure.
pub open spec fn row_output<T, R, E, F: Fn(T) -> Result<R, E>>(
    row: Option<T>,
    missing: R,
    f: F,
) -> R {
    match row {
        None => missing,
        Some(t) => row_value(f, t)->Ok_0,
    }
}

/// A batch succeeds exactly when every row does, and its output is then the
/// output of each row at that row's position.
pub proof fn lemma_batch_rowwise<T, R, E, F: Fn(T) -> Result<R, E>>(
    rows: Seq<Option<T>>,
    missing: R,
    f: F,
)
    ensures
        batch_model(rows, missing, f) is Ok <==> forall|i: int|
            0 <= i < rows.len() ==> #[trigger] row_ok(rows[i], f),
        batch_model(rows, missing, f) is Ok ==> batch_model(rows, missing, f)->Ok_0 == Seq::new(
            rows.len(),
            |i: int| row_output(rows[i], missing, f),
        ),
    decreases rows.len(),
{
    if rows.len() > 0 {
        let prefix = rows.drop_last();
        lemma_batch_rowwise(prefix, missing, f);
        if batch_model(rows, missing, f) is Ok {
            assert forall|i: int| 0 <= i < rows.len() implies #[trigger] row_ok(rows[i], f) by {
                if i < rows.len() - 1 {
                    assert(row_ok(prefix[i], f));
                }
            }
            assert(batch_model(rows, missing, f)->Ok_0 =~= Seq::new(
                rows.len(),
                |i: int| row_output(rows[i], missing, f),
            ));
        } else if forall|i: int| 0 <= i < rows.len() ==> #[trigger] row_ok(rows[i], f) {
            assert forall|i: int| 0 <= i < prefix.len() implies #[trigger] row_ok(prefix[i], f) by {
                assert(row_ok(rows[i], f));
            }
            assert(row_ok(rows[rows.len() - 1], f));
        }
    }
}

/// A row with a missing argument yields `missing` at its own position, fails
/// nothing, and leaves the output of every other row as it was.
pub proof fn lemma_missing_argument<T, R, E, F: Fn(T) -> Result<R, E>>(
    rows: Seq<Option<T>>,
    missing: R,
    f: F,
    i: int,
)
    requires
        0 <= i < rows.len(),
        batch_model(rows, missing, f) is Ok,
    ensures
        batch_model(rows.update(i, None), missing, f) == Ok::<Seq<R>, E>(
            batch_model(rows, missing, f)->Ok_0.update(i, missing),
        ),
{
    let rows2 = rows.update(i, None);
    lemma_batch_rowwise(rows, missing, f);
    lemma_batch_rowwise(rows2, missing, f);
    assert forall|j: int| 0 <= j < rows2.len() implies #[trigger] row_ok(rows2[j], f) by {
        assert(row_ok(rows[j], f));
    }
    assert(batch_model(rows2, missing, f)->Ok_0 =~= batch_model(rows, missing, f)->Ok_0.update(
        i,
        missing,
    ));
}

/// A batch with a row whose evaluation fails fails as a whole, with the error of
/// the first such row.
pub proof fn lemma_failing_row<T, R, E, F: Fn(T) -> Result<R, E>>(
    rows: Seq<Option<T>>,
    missing: R,
    f: F,
    i: int,
)
    requires
        0 <= i < rows.len(),
        !row_ok(rows[i], f),
    ensures
        batch_model(rows, missing, f) is Err,
        exists|j: int|
            0 <= j <= i && !row_ok(#[trigger] rows[j], f) && (forall|k: int|
                0 <= k < j ==> row_ok(#[trigger] rows[k], f)) && batch_model(rows, missing, f)
                == Err::<Seq<R>, E>(row_value(f, rows[j]->Some_0)->Err_0),
    decreases rows.len(),
{
    lemma_batch_rowwise(rows, missing, f);
    let prefix = rows.drop_last();
    if i < rows.len() - 1 {
        lemma_failing_row(prefix, missing, f, i);
        let j = choose|j: int|
            0 <= j <= i && !row_ok(#[trigger] prefix[j], f) && (forall|k: int|
                0 <= k < j ==> row_ok(#[trigger] prefix[k], f)) && batch_model(prefix, missing, f)
                == Err::<Seq<R>, E>(row_value(f, prefix[j]->Some_0)->Err_0);
        assert(!row_ok(rows[j], f));
        assert forall|k: int| 0 <= k < j implies row_ok(#[trigger] rows[k], f) by {
            assert(row_ok(prefix[k], f));
        }
    } else if batch_model(prefix, missing, f) is Err {
        lemma_failing_row_first(prefix, missing, f);
        let j = choose|j: int|
            0 <= j < prefix.len() && !row_ok(#[trigger] prefix[j], f) && (forall|k: int|
                0 <= k < j ==> row_ok(#[trigger] prefix[k], f)) && batch_model(prefix, missing, f)
                == Err::<Seq<R>, E>(row_value(f, prefix[j]->Some_0)->Err_0);
        assert(!row_ok(rows[j], f));
        assert forall|k: int| 0 <= k < j implies row_ok(#[trigger] rows[k], f) by {
            assert(row_ok(prefix[k], f));
        }
    } else {
        lemma_batch_rowwise(prefix, missing, f);
        assert forall|k: int| 0 <= k < i implies row_ok(#[trigger] rows[k], f) by {
            assert(row_ok(prefix[k], f));
        }
    }
}

/// A failed batch failed on a row whose rows before it all evaluate.
proof fn lemma_failing_row_first<T, R, E, F: Fn(T) -> Result<R, E>>(
    rows: Seq<Option<T>>,
    missing: R,
    f: F,
)
    requires
        batch_model(rows, missing, f) is Err,
    ensures
        exists|j: int|
            0 <= j < rows.len() && !row_ok(#[trigger] rows[j], f) && (forall|k: int|
                0 <= k < j ==> row_ok(#[trigger] rows[k], f)) && batch_model(rows, missing, f)
                == Err::<Seq<R>, E>(row_value(f, rows[j]->Some_0)->Err_0),
    decreases rows.len(),
{
    let prefix = rows.drop_last();
    if batch_model(prefix, missing, f) is Err {
        lemma_failing_row_first(prefix, missing, f);
        let j = choose|j: int|
            0 <= j < prefix.len() && !row_ok(#[trigger] prefix[j], f) && (forall|k: int|
                0 <= k < j ==> row_ok(#[trigger] prefix[k], f)) && batch_model(prefix, missing, f)
                == Err::<Seq<R>, E>(row_value(f, prefix[j]->Some_0)->Err_0);
        assert(!row_ok(rows[j], f));
        assert forall|k: int| 0 <= k < j implies row_ok(#[trigger] rows[k], f) by {
            assert(row_ok(prefix[k], f));
        }
    } else {
        lemma_batch_rowwise(prefix, missing, f);
        let j = rows.len() - 1;
        assert forall|k: int| 0 <= k < j implies row_ok(#[trigger] rows[k], f) by {
            assert(row_ok(prefix[k], f));
        }
    }
}

/// Rearranging the rows rearranges the output the same way: when row `j` of
/// `moved` is row `p[j]` of `rows`, output `j` of `moved` is output `p[j]` of
/// `rows`.
pub proof fn lemma_rows_rearranged<T, R, E, F: Fn(T) -> Result<R, E>>(
    rows: Seq<Option<T>>,
    moved: Seq<Option<T>>,
    p: Seq<int>,
    missing: R,
    f: F,
)
    requires
        p.len() == moved.len(),
        forall|j: int| 0 <= j < p.len() ==> 0 <= #[trigger] p[j] < rows.len(),
        forall|j: int| 0 <= j < p.len() ==> #[trigger] moved[j] == rows[p[j]],
        batch_model(rows, missing, f) is Ok,
    ensures
        batch_model(moved, missing, f) == Ok::<Seq<R>, E>(
            Seq::new(moved.len(), |j: int| batch_model(rows, missing, f)->Ok_0[p[j]]),
        ),
{
    lemma_batch_rowwise(rows, missing, f);
    lemma_batch_rowwise(moved, missing, f);
    assert forall|j: int| 0 <= j < moved.len() implies #[trigger] row_ok(moved[j], f) by {
        assert(row_ok(rows[p[j]], f));
    }
    assert(batch_model(moved, missing, f)->Ok_0 =~= Seq::new(
        moved.len(),
        |j: int| batch_model(rows, missing, f)->Ok_0[p[j]],
    ));
}

/// A failure in the first `k` rows is the failure of the whole batch.
proof fn lemma_prefix_error<T, R, E, F: Fn(T) -> Result<R, E>>(
    rows: Seq<Option<T>>,
    missing: R,
    f: F,
    k: int,
)
    requires
        0 <= k <= rows.len(),
        batch_model(rows.subrange(0, k), missing, f) is Err,
    ensures
        batch_model(rows, missing, f) == batch_model(rows.subrange(0, k), missing, f),
    decreases rows.len(),
{
    if k < rows.len() {
        assert(rows.drop_last().subrange(0, k) =~= rows.subrange(0, k));
        lemma_prefix_error(rows.drop_last(), missing, f, k);
    } else {
        assert(rows.subrange(0, k) =~= rows);
    }
}

/// The outputs of an evaluation as a sequence.
pub open spec fn seq_result<R, E>(r: Result<Vec<R>, E>) -> Result<Seq<R>, E> {
    match r {
        Ok(v) => Ok(v@),
        Err(e) => Err(e),
    }
}

/// What holds of the result `r` of evaluating `f` row by row: it has one output
/// per row, `missing` where an argument is missing and a result of `f` elsewhere;
/// a failure is a failure of `f` on a present row; and for an evaluator whose
/// result is determined by its argument, `r` is `batch_model`.
pub open spec fn evaluation_of<T, R, E, F: Fn(T) -> Result<R, E>>(
    rows: Seq<Option<T>>,
    missing: R,
    f: F,
    r: Result<Seq<R>, E>,
) -> bool {
    &&& r is Ok ==> r->Ok_0.len() == rows.len()
    &&& r is Ok ==> forall|i: int|
        0 <= i < rows.len() && rows[i] is None ==> #[trigger] r->Ok_0[i] == missing
    &&& r is Ok ==> forall|i: int|
        0 <= i < rows.len() && #[trigger] rows[i] is Some ==> f.ensures(
            (rows[i]->Some_0,),
            Ok::<R, E>(r->Ok_0[i]),
        )
    &&& r is Err ==> exists|i: int|
        0 <= i < rows.len() && #[trigger] rows[i] is Some && f.ensures(
            (rows[i]->Some_0,),
            Err::<R, E>(r->Err_0),
        )
    &&& deterministic(f) ==> r == batch_model(rows, missing, f)
}

/// Evaluating the same rows twice with an evaluator whose result is determined by
/// its argument gives the same result both times.
pub proof fn lemma_repeatable<T, R, E, F: Fn(T) -> Result<R, E>>(
    rows: Seq<Option<T>>,
    missing: R,
    f: F,
    first: Result<Seq<R>, E>,
    second: Result<Seq<R>, E>,
)
    requires
        deterministic(f),
        evaluation_of(rows, missing, f, first),
        evaluation_of(rows, missing, f, second),
    ensures
        first == second,
{
}

/// Evaluates `f` on every present row, in index order.
pub fn evaluate_rows<T: Copy, R: Copy, E, F: Fn(T) -> Result<R, E>>(
    rows: &Vec<Option<T>>,
    missing: R,
    f: F,
) -> (r: Result<Vec<R>, E>)
    requires
        forall|t: T| f.requires((t,)),
    ensures
        evaluation_of(rows@, missing, f, seq_result(r)),
{
    let mut out: Vec<R> = Vec::new();
    let mut i: usize = 0;
    while i < rows.len()
        invariant
            i <= rows.len(),
            forall|t: T| f.requires((t,)),
            out@.len() == i,
            forall|j: int| 0 <= j < i && rows@[j] is None ==> #[trigger] out@[j] == missing,
            forall|j: int|
                0 <= j < i && #[trigger] rows@[j] is Some ==> f.ensures(
                    (rows@[j]->Some_0,),
                    Ok::<R, E>(out@[j]),
                ),
            deterministic(f) ==> batch_model(rows@.subrange(0, i as int), missing, f) == Ok::<Seq<R>, E>(out@),
        decreases rows.len() - i,
    {
        proof {
            assert(rows@.subrange(0, i + 1).drop_last() =~= rows@.subrange(0, i as int));
        }
        match rows[i] {
            None => {
                out.push(missing);
            },
            Some(t) => {
                match f(t) {
                    Ok(v) => {
                        out.push(v);
                    },
                    Err(e) => {
                        proof {
                            if deterministic(f) {
                                lemma_prefix_error(rows@, missing, f, i + 1);
                            }
                        }
                        return Err(e);
                    },
                }
            },
        }
        i = i + 1;
    }
    proof {
        assert(rows@.subrange(0, i as int) =~= rows@);
    }
    Ok(out)
}

/// The row of two argument values, present when both are.
pub open spec fn row2<A, B>(a: Option<A>, b: Option<B>) -> Option<(A, B)> {
    match (a, b) {
        (Some(a), Some(b)) => Some((a, b)),
        _ => None,
    }
}

/// The row of three argument values, present when all are.
pub open spec fn row3<A, B, C>(a: Option<A>, b: Option<B>, c: Option<C>) -> Option<(A, B, C)> {
    match (a, b, c) {
        (Some(a), Some(b), Some(c)) => Some((a, b, c)),
        _ => None,
    }
}

/// The row of four argument values, present when all are.
pub open spec fn row4<A, B, C, D>(a: Option<A>, b: Option<B>, c: Option<C>, d: Option<D>) -> Option<
    (A, B, C, D),
> {
    match (a, b, c, d) {
        (Some(a), Some(b), Some(c), Some(d)) => Some((a, b, c, d)),
        _ => None,
    }
}

/// The rows of two columns of equal length.
pub open spec fn rows2<A, B>(xs: Seq<Option<A>>, ys: Seq<Option<B>>) -> Seq<Option<(A, B)>> {
    Seq::new(xs.len(), |i: int| row2(xs[i], ys[i]))
}

/// The rows of three columns of equal length.
pub open spec fn rows3<A, B, C>(xs: Seq<Option<A>>, ys: Seq<Option<B>>, zs: Seq<Option<C>>) -> Seq<
    Option<(A, B, C)>,
> {
    Seq::new(xs.len(), |i: int| row3(xs[i], ys[i], zs[i]))
}

/// The rows of four columns of equal length.
pub open spec fn rows4<A, B, C, D>(
    xs: Seq<Option<A>>,
    ys: Seq<Option<B>>,
    zs: Seq<Option<C>>,
    ws: Seq<Option<D>>,
) -> Seq<Option<(A, B, C, D)>> {
    Seq::new(xs.len(), |i: int| row4(xs[i], ys[i], zs[i], ws[i]))
}

/// Joins two columns into rows; a row is missing where either value is.
pub fn zip2<A: Copy, B: Copy>(xs: &Vec<Option<A>>, ys: &Vec<Option<B>>) -> (r: Vec<Option<(A, B)>>)
    requires
        xs.len() == ys.len(),
    ensures
        r@ == rows2(xs@, ys@),
{
    let mut r: Vec<Option<(A, B)>> = Vec::new();
    let mut i: usize = 0;
    while i < xs.len()
        invariant
            i <= xs.len() == ys.len(),
            r@ =~= rows2(xs@, ys@).subrange(0, i as int),
        decreases xs.len() - i,
    {
        let row = match (xs[i], ys[i]) {
            (Some(a), Some(b)) => Some((a, b)),
            _ => None,
        };
        r.push(row);
        i = i + 1;
    }
    r
}

/// Joins three columns into rows; a row is missing where any value is.
pub fn zip3<A: Copy, B: Copy, C: Copy>(
    xs: &Vec<Option<A>>,
    ys: &Vec<Option<B>>,
    zs: &Vec<Option<C>>,
) -> (r: Vec<Option<(A, B, C)>>)
    requires
        xs.len() == ys.len(),
        xs.len() == zs.len(),
    ensures
        r@ == rows3(xs@, ys@, zs@),
{
    let mut r: Vec<Option<(A, B, C)>> = Vec::new();
    let mut i: usize = 0;
    while i < xs.len()
        invariant
            i <= xs.len() == ys.len() == zs.len(),
            r@ =~= rows3(xs@, ys@, zs@).subrange(0, i as int),
        decreases xs.len() - i,
    {
        let row = match (xs[i], ys[i], zs[i]) {
            (Some(a), Some(b), Some(c)) => Some((a, b, c)),
            _ => None,
        };
        r.push(row);
        i = i + 1;
    }
    r
}

/// Joins four columns into rows; a row is missing where any value is.
pub fn zip4<A: Copy, B: Copy, C: Copy, D: Copy>(
    xs: &Vec<Option<A>>,
    ys: &Vec<Option<B>>,
    zs: &Vec<Option<C>>,
    ws: &Vec<Option<D>>,
) -> (r: Vec<Option<(A, B, C, D)>>)
    requires
        xs.len() == ys.len(),
        xs.len() == zs.len(),
        xs.len() == ws.len(),
    ensures
        r@ == rows4(xs@, ys@, zs@, ws@),
{
    let mut r: Vec<Option<(A, B, C, D)>> = Vec::new();
    let mut i: usize = 0;
    while i < xs.len()
        invariant
            i <= xs.len() == ys.len() == zs.len() == ws.len(),
            r@ =~= rows4(xs@, ys@, zs@, ws@).subrange(0, i as int),
        decreases xs.len() - i,
    {
        let row = match (xs[i], ys[i], zs[i], ws[i]) {
            (Some(a), Some(b), Some(c), Some(d)) => Some((a, b, c, d)),
            _ => None,
        };
        r.push(row);
        i = i + 1;
    }
    r
}

/// Evaluates a function of two arguments over two columns of equal length.
pub fn invoke2<A: Copy, B: Copy, R: Copy, E, F: Fn((A, B)) -> Result<R, E>>(
    xs: &Vec<Option<A>>,
    ys: &Vec<Option<B>>,
    missing: R,
    f: F,
) -> (r: Result<Vec<R>, E>)
    requires
        xs.len() == ys.len(),
        forall|t: (A, B)| f.requires((t,)),
    ensures
        evaluation_of(rows2(xs@, ys@), missing, f, seq_result(r)),
{
    let rows = zip2(xs, ys);
    evaluate_rows(&rows, missing, f)
}

/// Evaluates a function of three arguments over three columns of equal length.
pub fn invoke3<A: Copy, B: Copy, C: Copy, R: Copy, E, F: Fn((A, B, C)) -> Result<R, E>>(
    xs: &Vec<Option<A>>,
    ys: &Vec<Option<B>>,
    zs: &Vec<Option<C>>,
    missing: R,
    f: F,
) -> (r: Result<Vec<R>, E>)
    requires
        xs.len() == ys.len(),
        xs.len() == zs.len(),
        forall|t: (A, B, C)| f.requires((t,)),
    ensures
        evaluation_of(rows3(xs@, ys@, zs@), missing, f, seq_result(r)),
{
    let rows = zip3(xs, ys, zs);
    evaluate_rows(&rows, missing, f)
}

/// Evaluates a function of four arguments over four columns of equal length.
pub fn invoke4<
    A: Copy,
    B: Copy,
    C: Copy,
    D: Copy,
    R: Copy,
    E,
    F: Fn((A, B, C, D)) -> Result<R, E>,
>(
    xs: &Vec<Option<A>>,
    ys: &Vec<Option<B>>,
    zs: &Vec<Option<C>>,
    ws: &Vec<Option<D>>,
    missing: R,
    f: F,
) -> (r: Result<Vec<R>, E>)
    requires
        xs.len() == ys.len(),
        xs.len() == zs.len(),
        xs.len() == ws.len(),
        forall|t: (A, B, C, D)| f.requires((t,)),
    ensures
        evaluation_of(rows4(xs@, ys@, zs@, ws@), missing, f, seq_result(r)),
{
    let rows = zip4(xs, ys, zs, ws);
    evaluate_rows(&rows, missing, f)
}

} // verus!
