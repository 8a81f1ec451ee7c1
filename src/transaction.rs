use vstd::prelude::*;
use google_cloud_googleapis::spanner::v1::Mutation;
use crate::policy::{FinishAction, TransactionError, finish_action, finish_step_spec};
use crate::options::{
    CallOptions, CommitOptions, QueryMode, RetrySetting, QueryOptions, commit_options_in_force,
    commit_options_or_default, query_options_in_force, query_options_or_default,
};

verus! {

/// The server-side locking semantics of a transaction.
#[derive(Clone, Copy, Debug, PartialEq, Eq, Structural)]
pub enum TransactionMode {
    /// A locking, externally consistent read-write transaction.
    ReadWrite,
    /// A non-locking, large-scale update.
    PartitionedDml,
}

/// Which transaction a request applies to.
#[derive(Clone, Debug)]
pub enum TransactionSelector {
    /// The transaction with this server-issued id.
    Id(Vec<u8>),
    /// A new transaction begun inline, in this mode.
    Begin(TransactionMode),
}

/// Whether `sel` names the transaction with id `id`.
pub open spec fn selects_id(sel: TransactionSelector, id: Seq<u8>) -> bool {
    match sel {
        TransactionSelector::Id(v) => v@ == id,
        TransactionSelector::Begin(_) => false,
    }
}

/// A request to begin a transaction.
#[derive(Clone, Debug)]
pub struct BeginTransactionRequest {
    pub session: String,
    pub mode: TransactionMode,
    pub call_options: CallOptions,
}

/// A request to execute one statement `Q` inside a transaction.
#[derive(Clone, Debug)]
pub struct ExecuteSqlRequest<Q> {
    pub session: String,
    pub transaction: TransactionSelector,
    pub statement: Q,
    pub query_mode: QueryMode,
    pub seqno: i64,
    pub call_options: CallOptions,
}

/// A request to execute a batch of DML statements inside a transaction.
#[derive(Clone, Debug)]
pub struct ExecuteBatchDmlRequest<Q> {
    pub session: String,
    pub transaction: TransactionSelector,
    pub statements: Vec<Q>,
    pub seqno: i64,
    pub call_options: CallOptions,
}

/// A request to commit a transaction with its buffered mutations.
#[derive(Debug)]
pub struct CommitRequest {
    pub session: String,
    pub mutations: Vec<Mutation>,
    pub transaction: TransactionSelector,
    pub return_commit_stats: bool,
    pub call_options: CallOptions,
}

/// A request to roll a transaction back.
#[derive(Clone, Debug)]
pub struct RollbackRequest {
    pub session: String,
    pub transaction_id: Vec<u8>,
    /// The transport's retry setting for the rollback call.
    pub retry: Option<RetrySetting>,
}

/// What the server answers to a successful commit.
#[derive(Clone, Copy, Debug)]
pub struct CommitResponse {
    pub commit_timestamp: Option<prost_types::Timestamp>,
    /// The number of mutations, when commit statistics were asked for.
    pub mutation_count: Option<i64>,
}

/// The next step of finalizing a transaction.
#[derive(Debug)]
pub enum FinishStep<T, E> {
    /// Send this commit request; on success, the caller's value goes back.
    Commit(CommitRequest, T),
    /// Send this rollback request, then hand this failure back.
    Rollback(RollbackRequest, E),
    /// Send nothing and hand this failure back.
    Propagate(E),
    /// The transaction was already finalized: nothing is sent, the input comes back.
    Rejected(Result<T, E>),
}

/// A failed begin: the server's status, and the session handed back to the caller.
#[derive(Debug)]
pub struct BeginError<S> {
    pub status: tonic::Status,
    pub session: S,
}

/// A locking read-write transaction bound to one session `S`.
///
/// It holds the server-issued id, the sequence counter stamped on each statement
/// execution, and the mutations buffered until commit. It builds the requests to
/// send and decides how to finalize; the caller sends them through the session.
pub struct ReadWriteTransaction<S> {
    session: S,
    session_name: String,
    mode: TransactionMode,
    tx_id: Vec<u8>,
    sequence_number: i64,
    wb: Vec<Mutation>,
    finalized: bool,
    issued: Ghost<Seq<i64>>,
    batches: Ghost<Seq<Seq<Mutation>>>,
}

impl<S> ReadWriteTransaction<S> {
    /// The session the transaction is bound to.
    pub closed spec fn session_spec(&self) -> S {
        self.session
    }

    /// The name of that session.
    pub closed spec fn session_name_spec(&self) -> Seq<char> {
        self.session_name@
    }

    /// The transaction's locking mode.
    pub closed spec fn mode_spec(&self) -> TransactionMode {
        self.mode
    }

    /// The server-issued transaction id.
    pub closed spec fn id_spec(&self) -> Seq<u8> {
        self.tx_id@
    }

    /// The sequence number the next statement execution carries.
    pub closed spec fn next_seqno(&self) -> i64 {
        self.sequence_number
    }

    /// The sequence numbers issued so far, in the order they were issued.
    pub closed spec fn issued_seqnos(&self) -> Seq<i64> {
        self.issued@
    }

    /// The mutations buffered for the commit, in the order they were buffered.
    pub closed spec fn buffered(&self) -> Seq<Mutation> {
        self.wb@
    }

    /// The batches handed to `buffer_write` since the transaction began.
    pub closed spec fn batches(&self) -> Seq<Seq<Mutation>> {
        self.batches@
    }

    /// Whether commit or rollback has been decided on.
    pub closed spec fn is_finalized(&self) -> bool {
        self.finalized
    }

    /// The transaction's invariant: the issued sequence numbers are 0, 1, 2, ...
    /// up to the next one, and the buffer is the batches, concatenated in order.
    pub closed spec fn wf(&self) -> bool {
        &&& self.issued@.len() == self.sequence_number
        &&& forall|i: int| 0 <= i < self.issued@.len() ==> #[trigger] self.issued@[i] == i
        &&& self.wb@ == self.batches@.flatten()
    }

    /// `self` and `before` agree on everything but the sequence counter.
    pub open spec fn same_but_seqno(&self, before: &Self) -> bool {
        &&& self.session_spec() == before.session_spec()
        &&& self.session_name_spec() == before.session_name_spec()
        &&& self.mode_spec() == before.mode_spec()
        &&& self.id_spec() == before.id_spec()
        &&& self.buffered() == before.buffered()
        &&& self.batches() == before.batches()
        &&& self.is_finalized() == before.is_finalized()
    }

    /// `self` and `before` agree on identity and on the sequence counter.
    pub open spec fn same_identity(&self, before: &Self) -> bool {
        &&& self.session_spec() == before.session_spec()
        &&& self.session_name_spec() == before.session_name_spec()
        &&& self.mode_spec() == before.mode_spec()
        &&& self.id_spec() == before.id_spec()
        &&& self.next_seqno() == before.next_seqno()
        &&& self.issued_seqnos() == before.issued_seqnos()
    }

    /// The request that begins a transaction in `mode` on the named session.
    pub fn begin_request(session_name: String, mode: TransactionMode, options: CallOptions) -> (r:
        BeginTransactionRequest)
        ensures
            r.session == session_name,
            r.mode == mode,
            r.call_options == options,
    {
        BeginTransactionRequest { session: session_name, mode, call_options: options }
    }

    /// Builds a read-write transaction from the answer to its begin request.
    pub fn begin(session: S, session_name: String, response: Result<Vec<u8>, tonic::Status>) -> (r:
        Result<Self, BeginError<S>>)
        ensures
            Self::begun(r, session, session_name@, TransactionMode::ReadWrite, response),
    {
        Self::begin_internal(session, session_name, TransactionMode::ReadWrite, response)
    }

    /// Builds a partitioned-DML transaction from the answer to its begin request.
    pub fn begin_partitioned_dml(
        session: S,
        session_name: String,
        response: Result<Vec<u8>, tonic::Status>,
    ) -> (r: Result<Self, BeginError<S>>)
        ensures
            Self::begun(r, session, session_name@, TransactionMode::PartitionedDml, response),
    {
        Self::begin_internal(session, session_name, TransactionMode::PartitionedDml, response)
    }

    /// What a begin returns: on success, a fresh transaction bound to `session`
    /// with the id the server issued; on failure, the status and the same session.
    pub open spec fn begun(
        r: Result<Self, BeginError<S>>,
        session: S,
        session_name: Seq<char>,
        mode: TransactionMode,
        response: Result<Vec<u8>, tonic::Status>,
    ) -> bool {
        match response {
            Ok(id) => match r {
                Ok(tx) => {
                    &&& tx.wf()
                    &&& tx.session_spec() == session
                    &&& tx.session_name_spec() == session_name
                    &&& tx.mode_spec() == mode
                    &&& tx.id_spec() == id@
                    &&& tx.next_seqno() == 0
                    &&& tx.issued_seqnos() == Seq::<i64>::empty()
                    &&& tx.buffered() == Seq::<Mutation>::empty()
                    &&& tx.batches() == Seq::<Seq<Mutation>>::empty()
                    &&& !tx.is_finalized()
                },
                Err(_) => false,
            },
            Err(status) => match r {
                Ok(_) => false,
                Err(e) => e.status == status && e.session == session,
            },
        }
    }

    fn begin_internal(
        session: S,
        session_name: String,
        mode: TransactionMode,
        response: Result<Vec<u8>, tonic::Status>,
    ) -> (r: Result<Self, BeginError<S>>)
        ensures
            Self::begun(r, session, session_name@, mode, response),
    {
        match response {
            Ok(id) => {
                let tx = ReadWriteTransaction {
                    session,
                    session_name,
                    mode,
                    tx_id: id,
                    sequence_number: 0,
                    wb: Vec::new(),
                    finalized: false,
                    issued: Ghost(Seq::empty()),
                    batches: Ghost(Seq::empty()),
                };
                assert(tx.wb@ =~= tx.batches@.flatten());
                Ok(tx)
            },
            Err(status) => Err(BeginError { status, session }),
        }
    }

    /// The selector naming this transaction by its id.
    fn selector(&self) -> (r: TransactionSelector)
        ensures
            selects_id(r, self.id_spec()),
    {
        let id = self.tx_id.clone();
        assert(id@ =~= self.tx_id@);
        TransactionSelector::Id(id)
    }

    /// Appends `ms` to the write buffer, after what was buffered before. Sends nothing.
    pub fn buffer_write(&mut self, ms: Vec<Mutation>)
        requires
            old(self).wf(),
        ensures
            final(self).wf(),
            final(self).buffered() == old(self).buffered() + ms@,
            final(self).batches() == old(self).batches().push(ms@),
            final(self).same_identity(old(self)),
            final(self).is_finalized() == old(self).is_finalized(),
    {
        let mut ms = ms;
        let ghost added = ms@;
        self.wb.append(&mut ms);
        proof {
            self.batches@.lemma_flatten_push(added);
            self.batches = Ghost(self.batches@.push(added));
        }
    }

    /// Builds the request that executes one DML statement, stamped with the next
    /// sequence number, which it then advances.
    pub fn update<Q>(&mut self, stmt: Q, options: Option<QueryOptions>) -> (r: ExecuteSqlRequest<Q>)
        requires
            old(self).wf(),
            old(self).next_seqno() < i64::MAX,
        ensures
            final(self).wf(),
            r.seqno == old(self).next_seqno(),
            final(self).next_seqno() == old(self).next_seqno() + 1,
            final(self).issued_seqnos() == old(self).issued_seqnos().push(r.seqno),
            final(self).same_but_seqno(old(self)),
            r.session@ == old(self).session_name_spec(),
            selects_id(r.transaction, old(self).id_spec()),
            r.statement == stmt,
            r.query_mode == query_options_in_force(options).mode,
            r.call_options == query_options_in_force(options).call_options,
    {
        let opt = query_options_or_default(options);
        let transaction = self.selector();
        let seqno = self.next_sequence_number();
        ExecuteSqlRequest {
            session: self.session_name.clone(),
            transaction,
            statement: stmt,
            query_mode: opt.mode,
            seqno,
            call_options: opt.call_options,
        }
    }

    /// Builds the request that executes a batch of DML statements, in order, under
    /// one sequence number, which it then advances.
    pub fn batch_update<Q>(&mut self, stmts: Vec<Q>, options: Option<QueryOptions>) -> (r:
        ExecuteBatchDmlRequest<Q>)
        requires
            old(self).wf(),
            old(self).next_seqno() < i64::MAX,
        ensures
            final(self).wf(),
            r.seqno == old(self).next_seqno(),
            final(self).next_seqno() == old(self).next_seqno() + 1,
            final(self).issued_seqnos() == old(self).issued_seqnos().push(r.seqno),
            final(self).same_but_seqno(old(self)),
            r.session@ == old(self).session_name_spec(),
            selects_id(r.transaction, old(self).id_spec()),
            r.statements@ == stmts@,
            r.call_options == query_options_in_force(options).call_options,
    {
        let opt = query_options_or_default(options);
        let transaction = self.selector();
        let seqno = self.next_sequence_number();
        ExecuteBatchDmlRequest {
            session: self.session_name.clone(),
            transaction,
            statements: stmts,
            seqno,
            call_options: opt.call_options,
        }
    }

    /// Hands out the next sequence number and advances the counter.
    fn next_sequence_number(&mut self) -> (r: i64)
        requires
            old(self).wf(),
            old(self).next_seqno() < i64::MAX,
        ensures
            final(self).wf(),
            r == old(self).next_seqno(),
            final(self).next_seqno() == old(self).next_seqno() + 1,
            final(self).issued_seqnos() == old(self).issued_seqnos().push(r),
            final(self).same_but_seqno(old(self)),
    {
        let seqno = self.sequence_number;
        self.sequence_number = seqno + 1;
        proof {
            self.issued = Ghost(self.issued@.push(seqno));
        }
        seqno
    }

    /// The sequence number the next statement execution will carry.
    pub fn sequence_number(&self) -> (r: i64)
        ensures
            r == self.next_seqno(),
    {
        self.sequence_number
    }

    /// The server-issued transaction id.
    pub fn transaction_id(&self) -> (r: &Vec<u8>)
        ensures
            r@ == self.id_spec(),
    {
        &self.tx_id
    }

    /// The transaction's locking mode.
    pub fn mode(&self) -> (r: TransactionMode)
        ensures
            r == self.mode_spec(),
    {
        self.mode
    }

    /// The mutations buffered so far, in order.
    pub fn buffered_mutations(&self) -> (r: &Vec<Mutation>)
        ensures
            r@ == self.buffered(),
    {
        &self.wb
    }

    /// Whether commit or rollback has been decided on.
    pub fn finalized(&self) -> (r: bool)
        ensures
            r == self.is_finalized(),
    {
        self.finalized
    }

    /// The session the transaction is bound to.
    pub fn session(&self) -> (r: &S)
        ensures
            *r == self.session_spec(),
    {
        &self.session
    }

    /// The name of the session.
    pub fn session_name(&self) -> (r: &String)
        ensures
            r@ == self.session_name_spec(),
    {
        &self.session_name
    }

    /// The session, to send a request through it or to mark it unusable.
    pub fn session_mut(&mut self) -> (r: &mut S)
        ensures
            *r == old(self).session_spec(),
            final(self).session_spec() == *final(r),
            final(self).wf() == old(self).wf(),
            final(self).session_name_spec() == old(self).session_name_spec(),
            final(self).mode_spec() == old(self).mode_spec(),
            final(self).id_spec() == old(self).id_spec(),
            final(self).next_seqno() == old(self).next_seqno(),
            final(self).issued_seqnos() == old(self).issued_seqnos(),
            final(self).buffered() == old(self).buffered(),
            final(self).batches() == old(self).batches(),
            final(self).is_finalized() == old(self).is_finalized(),
    {
        &mut self.session
    }

    /// Ends the transaction and hands its session back, to be returned to its pool.
    pub fn into_session(self) -> (r: S)
        ensures
            r == self.session_spec(),
    {
        self.session
    }

    /// Whether `r` commits this transaction with everything buffered in `t`.
    pub open spec fn commits(t: Self, r: CommitRequest, opt: CommitOptions) -> bool {
        &&& r.session@ == t.session_name_spec()
        &&& r.mutations@ == t.buffered()
        &&& selects_id(r.transaction, t.id_spec())
        &&& r.return_commit_stats == opt.return_commit_stats
        &&& r.call_options == opt.call_options
    }

    /// Whether `r` rolls back the transaction `t`.
    pub open spec fn rolls_back(t: Self, r: RollbackRequest) -> bool {
        &&& r.session@ == t.session_name_spec()
        &&& r.transaction_id@ == t.id_spec()
    }

    /// `self` is `before` finalized, with its buffer kept.
    pub open spec fn finalized_from(&self, before: &Self) -> bool {
        &&& self.same_identity(before)
        &&& self.buffered() == before.buffered()
        &&& self.batches() == before.batches()
        &&& self.is_finalized()
    }

    /// Builds the commit request, which carries a copy of the whole write buffer
    /// in the order it was buffered, and marks the transaction finalized. The
    /// buffer itself is only read.
    pub fn commit(&mut self, options: CommitOptions) -> (r: CommitRequest)
        requires
            old(self).wf(),
        ensures
            final(self).wf(),
            Self::commits(*old(self), r, options),
            final(self).finalized_from(old(self)),
    {
        let transaction = self.selector();
        let mutations = self.wb.clone();
        assert(mutations@ =~= self.wb@);
        self.finalized = true;
        commit(self.session_name.clone(), mutations, transaction, options)
    }

    /// Builds the rollback request, to be sent with the transport retry setting
    /// `setting`, and marks the transaction finalized.
    pub fn rollback(&mut self, setting: Option<RetrySetting>) -> (r: RollbackRequest)
        requires
            old(self).wf(),
        ensures
            final(self).wf(),
            Self::rolls_back(*old(self), r),
            r.retry == setting,
            final(self).finalized_from(old(self)),
    {
        let transaction_id = self.tx_id.clone();
        assert(transaction_id@ =~= self.tx_id@);
        self.finalized = true;
        RollbackRequest { session: self.session_name.clone(), transaction_id, retry: setting }
    }

    /// Finalizes the transaction once the caller's work has produced `result`,
    /// where `origin` is the server status code that a failure carries, if any.
    ///
    /// On success it commits. On a failure it rolls back, but for `ABORTED` and
    /// `NOT_FOUND`, where it sends nothing; the failure is handed back unchanged
    /// either way. A transaction that was already finalized sends nothing more.
    pub fn finish_with_origin<T, E>(
        &mut self,
        result: Result<T, E>,
        origin: Option<tonic::Code>,
        options: Option<CommitOptions>,
    ) -> (r: FinishStep<T, E>)
        requires
            old(self).wf(),
        ensures
            final(self).wf(),
            final(self).is_finalized(),
            Self::finish_step(*old(self), *final(self), result, origin, options, r),
    {
        if self.finalized {
            return FinishStep::Rejected(result);
        }
        let opt = commit_options_or_default(options);
        let action = finish_action(result.is_ok(), origin);
        match result {
            Ok(value) => {
                let request = self.commit(opt);
                FinishStep::Commit(request, value)
            },
            Err(err) => {
                match action {
                    FinishAction::Propagate => {
                        self.finalized = true;
                        FinishStep::Propagate(err)
                    },
                    _ => {
                        let request = self.rollback(opt.call_options.retry);
                        FinishStep::Rollback(request, err)
                    },
                }
            },
        }
    }

    /// What finalizing `before` into `after` with `result` returns, by the
    /// finalization table.
    pub open spec fn finish_step<T, E>(
        before: Self,
        after: Self,
        result: Result<T, E>,
        origin: Option<tonic::Code>,
        options: Option<CommitOptions>,
        r: FinishStep<T, E>,
    ) -> bool {
        match finish_step_spec(before.is_finalized(), result.is_ok(), origin) {
            FinishAction::Reject => r == FinishStep::<T, E>::Rejected(result) && after == before,
            FinishAction::Commit => match r {
                FinishStep::Commit(req, value) => {
                    &&& result == Ok::<T, E>(value)
                    &&& Self::commits(before, req, commit_options_in_force(options))
                    &&& after.finalized_from(&before)
                },
                _ => false,
            },
            FinishAction::Rollback => match r {
                FinishStep::Rollback(req, err) => {
                    &&& result == Err::<T, E>(err)
                    &&& Self::rolls_back(before, req)
                    &&& req.retry == commit_options_in_force(options).call_options.retry
                    &&& after.finalized_from(&before)
                },
                _ => false,
            },
            FinishAction::Propagate => match r {
                FinishStep::Propagate(err) => {
                    &&& result == Err::<T, E>(err)
                    &&& after.finalized_from(&before)
                },
                _ => false,
            },
        }
    }

    /// Finalizes the transaction once the caller's work has produced `result`,
    /// reading the failure's server status from the failure itself.
    pub fn finish<T, E: TransactionError>(
        &mut self,
        result: Result<T, E>,
        options: Option<CommitOptions>,
    ) -> (r: FinishStep<T, E>)
        requires
            old(self).wf(),
        ensures
            final(self).wf(),
            final(self).is_finalized(),
            exists|origin: Option<tonic::Code>|
                Self::finish_step(*old(self), *final(self), result, origin, options, r),
            result.is_ok() ==> Self::finish_step(*old(self), *final(self), result, None, options, r),
    {
        let origin = match &result {
            Ok(_) => None,
            Err(e) => e.status_code(),
        };
        self.finish_with_origin(result, origin, options)
    }

    /// The sequence numbers issued on a transaction, over any run of statement
    /// executions interleaved with other calls, are 0, 1, 2, ... in issue order:
    /// they start at zero, rise strictly, and none is used twice.
    pub proof fn lemma_seqnos_increase_from_zero(tx: &Self)
        requires
            tx.wf(),
        ensures
            tx.issued_seqnos().len() == tx.next_seqno(),
            forall|i: int| 0 <= i < tx.issued_seqnos().len() ==> #[trigger] tx.issued_seqnos()[i] == i,
            forall|i: int, j: int|
                0 <= i < j < tx.issued_seqnos().len() ==> #[trigger] tx.issued_seqnos()[i]
                    < #[trigger] tx.issued_seqnos()[j],
    {
    }

    /// The write buffer holds the batches given to `buffer_write` since the
    /// transaction began, concatenated in call order.
    pub proof fn lemma_buffer_is_batches_in_order(tx: &Self)
        requires
            tx.wf(),
        ensures
            tx.buffered() == tx.batches().flatten(),
    {
    }

    /// Finalizing a transaction a second time sends nothing: the second call hands
    /// its input back and leaves the transaction as the first call left it.
    pub proof fn lemma_no_double_finish<T, E>(
        t0: Self,
        t1: Self,
        result1: Result<T, E>,
        origin1: Option<tonic::Code>,
        options1: Option<CommitOptions>,
        r1: FinishStep<T, E>,
        t2: Self,
        result2: Result<T, E>,
        origin2: Option<tonic::Code>,
        options2: Option<CommitOptions>,
        r2: FinishStep<T, E>,
    )
        requires
            Self::finish_step(t0, t1, result1, origin1, options1, r1),
            Self::finish_step(t1, t2, result2, origin2, options2, r2),
        ensures
            t1.is_finalized(),
            r2 == FinishStep::<T, E>::Rejected(result2),
            t2 == t1,
    {
    }
}

/// Builds a commit request that carries the mutations `ms` in order, for the
/// transaction that `tx` selects, on the named session.
pub fn commit(
    session_name: String,
    ms: Vec<Mutation>,
    tx: TransactionSelector,
    commit_options: CommitOptions,
) -> (r: CommitRequest)
    ensures
        r.session == session_name,
        r.mutations@ == ms@,
        r.transaction == tx,
        r.return_commit_stats == commit_options.return_commit_stats,
        r.call_options == commit_options.call_options,
{
    CommitRequest {
        session: session_name,
        mutations: ms,
        transaction: tx,
        return_commit_stats: commit_options.return_commit_stats,
        call_options: commit_options.call_options,
    }
}

/// The result of finalizing once the commit request got its answer: the commit
/// timestamp with the caller's value, or the commit's failure. Never rolls back.
pub fn commit_finished<T, E: TransactionError>(
    response: Result<CommitResponse, tonic::Status>,
    value: T,
) -> (r: Result<(Option<prost_types::Timestamp>, T), E>)
    ensures
        response.is_ok() <==> r.is_ok(),
        response.is_ok() ==> r->Ok_0 == (response->Ok_0.commit_timestamp, value),
{
    match response {
        Ok(c) => Ok((c.commit_timestamp, value)),
        Err(status) => Err(E::from_status(status)),
    }
}

/// The result of finalizing once the rollback request got its answer: the
/// original failure, whatever the rollback returned.
pub fn rollback_finished<T, E>(rollback: Result<(), tonic::Status>, err: E) -> (r: Result<
    (Option<prost_types::Timestamp>, T),
    E,
>)
    ensures
        r == Err::<(Option<prost_types::Timestamp>, T), E>(err),
{
    Err(err)
}

} // verus!
