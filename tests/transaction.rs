use google_cloud_googleapis::spanner::v1::mutation::{Operation, Write};
use google_cloud_googleapis::spanner::v1::Mutation;
use spanner_rw::options::{CallOptions, CommitOptions, Priority, QueryMode, QueryOptions, RetrySetting};
use spanner_rw::policy::{finish_action, FinishAction, TransactionError};
use spanner_rw::row_count::{
    batch_rows_updated, extract_row_count, extract_row_counts, rows_updated, ResultSetStats,
    RowCount,
};
use spanner_rw::transaction::{
    commit, commit_finished, rollback_finished, CommitResponse, FinishStep, ReadWriteTransaction,
    TransactionMode, TransactionSelector,
};
use tonic::{Code, Status};

#[derive(Debug, PartialEq)]
struct FakeSession {
    id: u32,
}

/// A failure of the caller's work: either a server status or a local fault.
#[derive(Debug, PartialEq)]
enum AppError {
    Server(Code, String),
    Local(String),
}

impl TransactionError for AppError {
    fn status_code(&self) -> Option<Code> {
        match self {
            AppError::Server(code, _) => Some(*code),
            AppError::Local(_) => None,
        }
    }

    fn from_status(status: Status) -> Self {
        AppError::Server(status.code(), status.message().to_string())
    }
}

fn mutation(table: &str) -> Mutation {
    Mutation {
        operation: Some(Operation::Insert(Write {
            table: table.to_string(),
            columns: vec!["id".to_string()],
            values: vec![],
        })),
    }
}

fn stats(count: Option<RowCount>) -> Option<ResultSetStats> {
    Some(ResultSetStats { row_count: count })
}

fn begun(id: &[u8]) -> ReadWriteTransaction<FakeSession> {
    match ReadWriteTransaction::begin(FakeSession { id: 1 }, "sessions/s1".to_string(), Ok(id.to_vec())) {
        Ok(tx) => tx,
        Err(_) => panic!("begin failed"),
    }
}

fn selected_id(sel: &TransactionSelector) -> Vec<u8> {
    match sel {
        TransactionSelector::Id(id) => id.clone(),
        TransactionSelector::Begin(_) => panic!("selector begins a transaction"),
    }
}

#[test]
fn row_count_exact() {
    assert_eq!(extract_row_count(stats(Some(RowCount::RowCountExact(5)))), 5);
}

#[test]
fn row_count_lower_bound() {
    assert_eq!(extract_row_count(stats(Some(RowCount::RowCountLowerBound(7)))), 7);
}

#[test]
fn row_count_absent() {
    assert_eq!(extract_row_count(None), 0);
    assert_eq!(extract_row_count(stats(None)), 0);
}

#[test]
fn row_counts_keep_statement_order() {
    let results = vec![
        stats(Some(RowCount::RowCountExact(2))),
        None,
        stats(Some(RowCount::RowCountLowerBound(9))),
        stats(None),
    ];
    assert_eq!(extract_row_counts(&results), vec![2, 0, 9, 0]);
    assert_eq!(batch_rows_updated(Ok(results)).unwrap(), vec![2, 0, 9, 0]);
}

#[test]
fn failed_statement_passes_status_through() {
    let r = rows_updated(Err(Status::new(Code::Internal, "boom")));
    let status = r.unwrap_err();
    assert_eq!(status.code(), Code::Internal);
    assert_eq!(status.message(), "boom");
    let b = batch_rows_updated(Err(Status::new(Code::Aborted, "batch")));
    assert_eq!(b.unwrap_err().code(), Code::Aborted);
    assert_eq!(rows_updated(Ok(stats(Some(RowCount::RowCountExact(3))))).unwrap(), 3);
}

#[test]
fn begin_request_carries_mode_and_priority() {
    let options = CallOptions { priority: Some(Priority::High), ..Default::default() };
    let r = ReadWriteTransaction::<FakeSession>::begin_request(
        "sessions/s1".to_string(),
        TransactionMode::PartitionedDml,
        options,
    );
    assert_eq!(r.session, "sessions/s1");
    assert_eq!(r.mode, TransactionMode::PartitionedDml);
    assert_eq!(r.call_options.priority, Some(Priority::High));
}

#[test]
fn begin_sets_fresh_state() {
    let tx = begun(b"TX1");
    assert_eq!(tx.transaction_id(), &b"TX1".to_vec());
    assert_eq!(tx.sequence_number(), 0);
    assert_eq!(tx.mode(), TransactionMode::ReadWrite);
    assert!(tx.buffered_mutations().is_empty());
    assert!(!tx.finalized());
    assert_eq!(tx.session(), &FakeSession { id: 1 });
    assert_eq!(tx.session_name(), "sessions/s1");
    let p = ReadWriteTransaction::begin_partitioned_dml(FakeSession { id: 2 }, "s".to_string(), Ok(b"P".to_vec()));
    assert_eq!(p.ok().unwrap().mode(), TransactionMode::PartitionedDml);
}

#[test]
fn begin_failure_returns_session() {
    let r = ReadWriteTransaction::begin(
        FakeSession { id: 42 },
        "sessions/s1".to_string(),
        Err(Status::new(Code::Unavailable, "down")),
    );
    match r {
        Ok(_) => panic!("begin should fail"),
        Err(e) => {
            assert_eq!(e.session, FakeSession { id: 42 });
            assert_eq!(e.status.code(), Code::Unavailable);
        }
    }
}

#[test]
fn sequence_numbers_rise_from_zero() {
    let mut tx = begun(b"TX1");
    let a = tx.update("UPDATE a", None);
    tx.buffer_write(vec![mutation("t")]);
    let b = tx.batch_update(vec!["UPDATE b", "UPDATE c"], None);
    let _ = tx.session_mut();
    let c = tx.update(
        "UPDATE d",
        Some(QueryOptions { mode: QueryMode::Profile, call_options: CallOptions { priority: Some(Priority::Low), ..Default::default() } }),
    );
    assert_eq!((a.seqno, b.seqno, c.seqno), (0, 1, 2));
    assert_eq!(tx.sequence_number(), 3);
    assert_eq!(c.query_mode, QueryMode::Profile);
    assert_eq!(c.call_options.priority, Some(Priority::Low));
    assert_eq!(a.query_mode, QueryMode::Normal);
    assert_eq!(b.statements, vec!["UPDATE b", "UPDATE c"]);
    assert_eq!(selected_id(&a.transaction), b"TX1".to_vec());
    assert_eq!(a.session, "sessions/s1");
}

#[test]
fn buffered_mutations_keep_call_order() {
    let mut tx = begun(b"TX1");
    tx.buffer_write(vec![mutation("a"), mutation("b")]);
    tx.buffer_write(vec![]);
    tx.buffer_write(vec![mutation("c")]);
    let req = tx.commit(CommitOptions { return_commit_stats: true, call_options: CallOptions::default() });
    assert_eq!(req.mutations, vec![mutation("a"), mutation("b"), mutation("c")]);
    assert!(req.return_commit_stats);
    assert!(tx.finalized());
    assert_eq!(tx.buffered_mutations(), &vec![mutation("a"), mutation("b"), mutation("c")]);
}

#[test]
fn call_settings_are_forwarded() {
    let retry = RetrySetting {
        codes: vec![Code::Unavailable],
        from_millis: 10,
        factor: 2,
        max_delay_millis: Some(1000),
        take: 5,
    };
    let call = CallOptions { priority: Some(Priority::High), timeout_millis: Some(250), retry: Some(retry.clone()) };
    let b = ReadWriteTransaction::<FakeSession>::begin_request("s".to_string(), TransactionMode::ReadWrite, call.clone());
    assert_eq!(b.call_options, call);
    let mut tx = begun(b"TX1");
    let u = tx.update("UPDATE a", Some(QueryOptions { mode: QueryMode::Normal, call_options: call.clone() }));
    assert_eq!(u.call_options, call);
    let d = tx.batch_update(vec!["UPDATE b"], None);
    assert_eq!(d.call_options, CallOptions::default());
    let r = tx.rollback(Some(retry.clone()));
    assert_eq!(r.retry, Some(retry.clone()));
    assert_eq!(r.transaction_id, b"TX1".to_vec());
    let mut tx2 = begun(b"TX2");
    let options = CommitOptions { return_commit_stats: false, call_options: call.clone() };
    match tx2.finish_with_origin(Err::<u32, &str>("bad"), Some(Code::Internal), Some(options)) {
        FinishStep::Rollback(req, _) => assert_eq!(req.retry, Some(retry)),
        other => panic!("expected a rollback, got {:?}", other),
    }
}

#[test]
fn finish_table_success_commits() {
    assert_eq!(finish_action(true, None), FinishAction::Commit);
    assert_eq!(finish_action(true, Some(Code::Aborted)), FinishAction::Commit);
    let mut tx = begun(b"TX1");
    tx.buffer_write(vec![mutation("a")]);
    match tx.finish(Ok::<u32, AppError>(7), None) {
        FinishStep::Commit(req, v) => {
            assert_eq!(v, 7);
            assert_eq!(req.mutations, vec![mutation("a")]);
            assert_eq!(selected_id(&req.transaction), b"TX1".to_vec());
            assert!(!req.return_commit_stats);
        }
        other => panic!("expected a commit, got {:?}", other),
    }
}

#[test]
fn finish_table_failed_commit_returns_error() {
    let r: Result<(Option<prost_types::Timestamp>, u32), AppError> =
        commit_finished(Err(Status::new(Code::Aborted, "commit aborted")), 7);
    assert_eq!(r.unwrap_err(), AppError::Server(Code::Aborted, "commit aborted".to_string()));
}

#[test]
fn finish_table_no_status_rolls_back() {
    assert_eq!(finish_action(false, None), FinishAction::Rollback);
    let mut tx = begun(b"TX1");
    match tx.finish(Err::<u32, AppError>(AppError::Local("io".to_string())), None) {
        FinishStep::Rollback(req, e) => {
            assert_eq!(e, AppError::Local("io".to_string()));
            assert_eq!(req.transaction_id, b"TX1".to_vec());
            assert_eq!(req.session, "sessions/s1");
            let r: Result<(Option<prost_types::Timestamp>, u32), AppError> =
                rollback_finished(Err(Status::new(Code::Internal, "rollback failed")), e);
            assert_eq!(r.unwrap_err(), AppError::Local("io".to_string()));
        }
        other => panic!("expected a rollback, got {:?}", other),
    }
}

#[test]
fn finish_table_aborted_propagates() {
    assert_eq!(finish_action(false, Some(Code::Aborted)), FinishAction::Propagate);
    let mut tx = begun(b"TX1");
    let err = AppError::Server(Code::Aborted, "aborted".to_string());
    match tx.finish(Err::<u32, AppError>(err), None) {
        FinishStep::Propagate(e) => assert_eq!(e, AppError::Server(Code::Aborted, "aborted".to_string())),
        other => panic!("expected propagation, got {:?}", other),
    }
    assert!(tx.finalized());
}

#[test]
fn finish_table_not_found_propagates() {
    assert_eq!(finish_action(false, Some(Code::NotFound)), FinishAction::Propagate);
    let mut tx = begun(b"TX1");
    match tx.finish_with_origin(Err::<u32, &str>("gone"), Some(Code::NotFound), None) {
        FinishStep::Propagate(e) => assert_eq!(e, "gone"),
        other => panic!("expected propagation, got {:?}", other),
    }
}

#[test]
fn finish_table_other_status_rolls_back() {
    assert_eq!(finish_action(false, Some(Code::Internal)), FinishAction::Rollback);
    assert_eq!(finish_action(false, Some(Code::DeadlineExceeded)), FinishAction::Rollback);
    let mut tx = begun(b"TX1");
    match tx.finish_with_origin(Err::<u32, &str>("bad"), Some(Code::InvalidArgument), None) {
        FinishStep::Rollback(req, e) => {
            assert_eq!(e, "bad");
            assert_eq!(req.transaction_id, b"TX1".to_vec());
        }
        other => panic!("expected a rollback, got {:?}", other),
    }
}

#[test]
fn finish_reads_status_code() {
    let mut tx = begun(b"TX1");
    match tx.finish(Err::<u32, Status>(Status::new(Code::Aborted, "a")), None) {
        FinishStep::Propagate(s) => assert_eq!(s.code(), Code::Aborted),
        other => panic!("expected propagation, got {:?}", other),
    }
    let mut tx2 = begun(b"TX2");
    match tx2.finish(Err::<u32, Status>(Status::new(Code::Internal, "i")), None) {
        FinishStep::Rollback(req, s) => {
            assert_eq!(s.code(), Code::Internal);
            assert_eq!(req.transaction_id, b"TX2".to_vec());
        }
        other => panic!("expected a rollback, got {:?}", other),
    }
    assert_eq!(Status::new(Code::NotFound, "n").status_code(), Some(Code::NotFound));
}

#[test]
fn second_finish_is_rejected() {
    let mut tx = begun(b"TX1");
    tx.buffer_write(vec![mutation("a")]);
    match tx.finish(Ok::<u32, AppError>(1), None) {
        FinishStep::Commit(_, _) => {}
        other => panic!("expected a commit, got {:?}", other),
    }
    match tx.finish(Ok::<u32, AppError>(2), None) {
        FinishStep::Rejected(r) => assert_eq!(r, Ok(2)),
        other => panic!("expected a rejection, got {:?}", other),
    }
    match tx.finish(Err::<u32, AppError>(AppError::Local("x".to_string())), None) {
        FinishStep::Rejected(r) => assert_eq!(r, Err(AppError::Local("x".to_string()))),
        other => panic!("expected a rejection, got {:?}", other),
    }
}

#[test]
fn end_to_end_commit() {
    let mut tx = begun(b"TX1");
    tx.buffer_write(vec![mutation("m1"), mutation("m2")]);
    let req = tx.update("UPDATE t SET x = 1 WHERE true", None);
    assert_eq!(req.seqno, 0);
    let rows = rows_updated(Ok(stats(Some(RowCount::RowCountExact(3))))).unwrap();
    assert_eq!(rows, 3);
    let ts = prost_types::Timestamp { seconds: 1_700_000_000, nanos: 5 };
    match tx.finish(Ok::<&str, AppError>("done"), None) {
        FinishStep::Commit(req, v) => {
            assert_eq!(req.mutations, vec![mutation("m1"), mutation("m2")]);
            assert_eq!(selected_id(&req.transaction), b"TX1".to_vec());
            let response = CommitResponse { commit_timestamp: Some(ts), mutation_count: None };
            let r: Result<(Option<prost_types::Timestamp>, &str), AppError> = commit_finished(Ok(response), v);
            assert_eq!(r.unwrap(), (Some(ts), "done"));
        }
        other => panic!("expected a commit, got {:?}", other),
    }
}

#[test]
fn abort_scenario_sends_no_rollback() {
    let mut tx = begun(b"TX1");
    tx.buffer_write(vec![mutation("m1"), mutation("m2")]);
    let _ = tx.update("UPDATE t SET x = 1 WHERE true", None);
    let err = AppError::Server(Code::Aborted, "retry".to_string());
    match tx.finish(Err::<&str, AppError>(err), None) {
        FinishStep::Propagate(e) => assert_eq!(e, AppError::Server(Code::Aborted, "retry".to_string())),
        other => panic!("expected propagation, got {:?}", other),
    }
}

#[test]
fn free_commit_builds_request() {
    let options = CommitOptions { return_commit_stats: true, call_options: CallOptions { priority: Some(Priority::Medium), ..Default::default() } };
    let r = commit(
        "sessions/s9".to_string(),
        vec![mutation("x")],
        TransactionSelector::Begin(TransactionMode::ReadWrite),
        options,
    );
    assert_eq!(r.session, "sessions/s9");
    assert_eq!(r.mutations, vec![mutation("x")]);
    assert!(matches!(r.transaction, TransactionSelector::Begin(TransactionMode::ReadWrite)));
    assert_eq!(r.call_options.priority, Some(Priority::Medium));
    assert!(r.return_commit_stats);
}

#[test]
fn default_options() {
    let c = CommitOptions::default();
    assert!(!c.return_commit_stats);
    assert_eq!(c.call_options.priority, None);
    let q = QueryOptions::default();
    assert_eq!(q.mode, QueryMode::Normal);
    assert_eq!(spanner_rw::options::commit_options_or_default(None), c);
    assert_eq!(spanner_rw::options::query_options_or_default(Some(QueryOptions { mode: QueryMode::Plan, call_options: CallOptions::default() })).mode, QueryMode::Plan);
}

#[test]
fn retry_pause_grows_and_stops() {
    let setting = RetrySetting {
        codes: vec![Code::Unavailable, Code::ResourceExhausted],
        from_millis: 10,
        factor: 3,
        max_delay_millis: Some(200),
        take: 4,
    };
    assert_eq!(spanner_rw::options::retry_pause(&setting, 0, Code::Unavailable), Some(10));
    assert_eq!(spanner_rw::options::retry_pause(&setting, 1, Code::Unavailable), Some(30));
    assert_eq!(spanner_rw::options::retry_pause(&setting, 2, Code::ResourceExhausted), Some(90));
    assert_eq!(spanner_rw::options::retry_pause(&setting, 3, Code::Unavailable), Some(200));
    assert_eq!(spanner_rw::options::retry_pause(&setting, 4, Code::Unavailable), None);
    assert_eq!(spanner_rw::options::retry_pause(&setting, 0, Code::Aborted), None);
    let unbounded = RetrySetting { codes: vec![Code::Internal], from_millis: u64::MAX / 2, factor: 4, max_delay_millis: None, take: 10 };
    assert_eq!(spanner_rw::options::retry_pause(&unbounded, 1, Code::Internal), Some(u64::MAX));
    assert!(spanner_rw::options::same_code(Code::Aborted, Code::Aborted));
    assert!(!spanner_rw::options::same_code(Code::Aborted, Code::NotFound));
}
