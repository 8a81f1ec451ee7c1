use vstd::prelude::*;

verus! {

/// How many rows a DML statement touched, as the server reported it.
#[derive(Clone, Copy, Debug, PartialEq, Eq, Structural)]
pub enum RowCount {
    /// The exact number of rows modified.
    RowCountExact(i64),
    /// A lower bound on the number of rows modified (partitioned DML).
    RowCountLowerBound(i64),
}

/// The statistics that accompany the result of one statement.
#[derive(Clone, Copy, Debug, PartialEq, Eq, Structural)]
pub struct ResultSetStats {
    pub row_count: Option<RowCount>,
}

/// The row count that a statement's statistics stand for: the exact count when
/// present, otherwise the lower bound, otherwise zero.
pub open spec fn row_count_of(rs: Option<ResultSetStats>) -> i64 {
    match rs {
        Some(stats) => match stats.row_count {
            Some(RowCount::RowCountExact(v)) => v,
            Some(RowCount::RowCountLowerBound(v)) => v,
            None => 0,
        },
        None => 0,
    }
}

/// Reads the number of affected rows out of a statement's statistics.
pub fn extract_row_count(rs: Option<ResultSetStats>) -> (r: i64)
    ensures
        r == row_count_of(rs),
{
    match rs {
        Some(stats) => match stats.row_count {
            Some(RowCount::RowCountExact(v)) => v,
            Some(RowCount::RowCountLowerBound(v)) => v,
            None => 0,
        },
        None => 0,
    }
}

/// Reads the row count of every statement of a batch, in statement order.
pub fn extract_row_counts(results: &Vec<Option<ResultSetStats>>) -> (r: Vec<i64>)
    ensures
        r@.len() == results@.len(),
        forall|i: int| 0 <= i < r@.len() ==> r@[i] == row_count_of(#[trigger] results@[i]),
{
    let mut counts: Vec<i64> = Vec::new();
    let mut i: usize = 0;
    while i < results.len()
        invariant
            i <= results@.len(),
            counts@.len() == i,
            forall|j: int| 0 <= j < i ==> counts@[j] == row_count_of(#[trigger] results@[j]),
        decreases results@.len() - i,
    {
        counts.push(extract_row_count(results[i]));
        i = i + 1;
    }
    counts
}

/// The outcome of one statement execution: its row count, or the status of the
/// failed call, unchanged.
pub fn rows_updated(response: Result<Option<ResultSetStats>, tonic::Status>) -> (r: Result<
    i64,
    tonic::Status,
>)
    ensures
        response.is_ok() ==> r == Ok::<i64, tonic::Status>(row_count_of(response->Ok_0)),
        response.is_err() ==> r == Err::<i64, tonic::Status>(response->Err_0),
{
    match response {
        Ok(stats) => Ok(extract_row_count(stats)),
        Err(status) => Err(status),
    }
}

/// The outcome of one batch execution: the row count of each statement, in order,
/// or the status of the failed call, unchanged; never a part of the counts.
pub fn batch_rows_updated(response: Result<Vec<Option<ResultSetStats>>, tonic::Status>) -> (r:
    Result<Vec<i64>, tonic::Status>)
    ensures
        response.is_ok() ==> r.is_ok() && r->Ok_0@.len() == response->Ok_0@.len() && (forall|
            i: int,
        |
            0 <= i < r->Ok_0@.len() ==> r->Ok_0@[i] == row_count_of(
                #[trigger] response->Ok_0@[i],
            )),
        response.is_err() ==> r == Err::<Vec<i64>, tonic::Status>(response->Err_0),
{
    match response {
        Ok(results) => Ok(extract_row_counts(&results)),
        Err(status) => Err(status),
    }
}

} // verus!
