use vstd::prelude::*;

verus! {

/// The priority that the server gives a request.
#[derive(Clone, Copy, Debug, PartialEq, Eq, Structural)]
pub enum Priority {
    Unspecified,
    Low,
    Medium,
    High,
}

/// How the server executes a query: normally, or returning its plan or profile.
#[derive(Clone, Copy, Debug, PartialEq, Eq, Structural)]
pub enum QueryMode {
    Normal,
    Plan,
    Profile,
}

/// When and how often the transport retries a call that failed.
#[derive(Clone, Debug, PartialEq, Eq)]
pub struct RetrySetting {
    /// The status codes on which a call is tried again.
    pub codes: Vec<tonic::Code>,
    /// The first pause between two attempts, in milliseconds.
    pub from_millis: u64,
    /// The factor by which each pause grows.
    pub factor: u64,
    /// The longest pause between two attempts, in milliseconds, if bounded.
    pub max_delay_millis: Option<u64>,
    /// How many retries are made at most.
    pub take: u64,
}

/// Per-call settings forwarded verbatim with each request: the request's
/// priority, the call's deadline and the transport's retry setting.
#[derive(Clone, Debug, PartialEq, Eq)]
pub struct CallOptions {
    pub priority: Option<Priority>,
    /// How long the call may take, in milliseconds, if bounded.
    pub timeout_millis: Option<u64>,
    pub retry: Option<RetrySetting>,
}

/// The call options that ask for nothing in particular.
pub open spec fn default_call_options() -> CallOptions {
    CallOptions { priority: None, timeout_millis: None, retry: None }
}

impl Default for CallOptions {
    fn default() -> (r: CallOptions)
        ensures
            r == default_call_options(),
    {
        CallOptions { priority: None, timeout_millis: None, retry: None }
    }
}

/// Settings of a statement execution.
#[derive(Clone, Debug, PartialEq, Eq)]
pub struct QueryOptions {
    pub mode: QueryMode,
    pub call_options: CallOptions,
}

impl Default for QueryOptions {
    fn default() -> (r: QueryOptions)
        ensures
            r.mode == QueryMode::Normal,
            r.call_options == default_call_options(),
    {
        QueryOptions { mode: QueryMode::Normal, call_options: CallOptions::default() }
    }
}

/// Settings of a commit.
#[derive(Clone, Debug, PartialEq, Eq)]
pub struct CommitOptions {
    pub return_commit_stats: bool,
    pub call_options: CallOptions,
}

impl Default for CommitOptions {
    fn default() -> (r: CommitOptions)
        ensures
            !r.return_commit_stats,
            r.call_options == default_call_options(),
    {
        CommitOptions { return_commit_stats: false, call_options: CallOptions::default() }
    }
}

/// The query options in force: the given ones, or the defaults.
pub open spec fn query_options_in_force(options: Option<QueryOptions>) -> QueryOptions {
    match options {
        Some(o) => o,
        None => QueryOptions { mode: QueryMode::Normal, call_options: default_call_options() },
    }
}

/// The commit options in force: the given ones, or the defaults.
pub open spec fn commit_options_in_force(options: Option<CommitOptions>) -> CommitOptions {
    match options {
        Some(o) => o,
        None => CommitOptions {
            return_commit_stats: false,
            call_options: default_call_options(),
        },
    }
}

/// The query options in force: the given ones, or the defaults.
pub fn query_options_or_default(options: Option<QueryOptions>) -> (r: QueryOptions)
    ensures
        r == query_options_in_force(options),
{
    match options {
        Some(o) => o,
        None => QueryOptions::default(),
    }
}

/// The commit options in force: the given ones, or the defaults.
pub fn commit_options_or_default(options: Option<CommitOptions>) -> (r: CommitOptions)
    ensures
        r == commit_options_in_force(options),
{
    match options {
        Some(o) => o,
        None => CommitOptions::default(),
    }
}

/// Whether two status codes are the same.
pub fn same_code(a: tonic::Code, b: tonic::Code) -> (r: bool)
    ensures
        r == (a == b),
{
    match a {
        tonic::Code::Ok => matches!(b, tonic::Code::Ok),
        tonic::Code::Cancelled => matches!(b, tonic::Code::Cancelled),
        tonic::Code::Unknown => matches!(b, tonic::Code::Unknown),
        tonic::Code::InvalidArgument => matches!(b, tonic::Code::InvalidArgument),
        tonic::Code::DeadlineExceeded => matches!(b, tonic::Code::DeadlineExceeded),
        tonic::Code::NotFound => matches!(b, tonic::Code::NotFound),
        tonic::Code::AlreadyExists => matches!(b, tonic::Code::AlreadyExists),
        tonic::Code::PermissionDenied => matches!(b, tonic::Code::PermissionDenied),
        tonic::Code::ResourceExhausted => matches!(b, tonic::Code::ResourceExhausted),
        tonic::Code::FailedPrecondition => matches!(b, tonic::Code::FailedPrecondition),
        tonic::Code::Aborted => matches!(b, tonic::Code::Aborted),
        tonic::Code::OutOfRange => matches!(b, tonic::Code::OutOfRange),
        tonic::Code::Unimplemented => matches!(b, tonic::Code::Unimplemented),
        tonic::Code::Internal => matches!(b, tonic::Code::Internal),
        tonic::Code::Unavailable => matches!(b, tonic::Code::Unavailable),
        tonic::Code::DataLoss => matches!(b, tonic::Code::DataLoss),
        tonic::Code::Unauthenticated => matches!(b, tonic::Code::Unauthenticated),
    }
}

/// The pause before retry number `attempt` (counting from zero), before any
/// bound: `from` grown by `factor` once per earlier retry, held at `u64::MAX`.
pub open spec fn backoff_spec(from: u64, factor: u64, attempt: nat) -> u64
    decreases attempt,
{
    if attempt == 0 {
        from
    } else {
        let prev = backoff_spec(from, factor, (attempt - 1) as nat);
        if prev * factor > u64::MAX {
            u64::MAX
        } else {
            (prev * factor) as u64
        }
    }
}

/// How long to pause, in milliseconds, before retrying a call that failed with
/// `code` after `attempt` earlier retries; `None` when it is not retried.
pub open spec fn retry_pause_spec(setting: RetrySetting, attempt: nat, code: tonic::Code) -> Option<
    u64,
> {
    if attempt < setting.take && setting.codes@.contains(code) {
        let d = backoff_spec(setting.from_millis, setting.factor, attempt);
        Some(
            match setting.max_delay_millis {
                Some(m) => if d > m {
                    m
                } else {
                    d
                },
                None => d,
            },
        )
    } else {
        None
    }
}

/// Decides whether a call that failed with `code`, after `attempt` earlier
/// retries, is tried again under `setting`, and after how long a pause.
pub fn retry_pause(setting: &RetrySetting, attempt: u64, code: tonic::Code) -> (r: Option<u64>)
    ensures
        r == retry_pause_spec(*setting, attempt as nat, code),
{
    if attempt >= setting.take {
        return None;
    }
    let mut listed = false;
    let mut j: usize = 0;
    while j < setting.codes.len()
        invariant
            j <= setting.codes@.len(),
            listed == (exists|k: int| 0 <= k < j && setting.codes@[k] == code),
        decreases setting.codes@.len() - j,
    {
        if same_code(setting.codes[j], code) {
            listed = true;
        }
        j = j + 1;
    }
    if !listed {
        return None;
    }
    let mut d: u64 = setting.from_millis;
    let mut i: u64 = 0;
    while i < attempt
        invariant
            i <= attempt,
            d == backoff_spec(setting.from_millis, setting.factor, i as nat),
        decreases attempt - i,
    {
        d = match d.checked_mul(setting.factor) {
            Some(v) => v,
            None => u64::MAX,
        };
        i = i + 1;
    }
    match setting.max_delay_millis {
        Some(m) => if d > m {
            Some(m)
        } else {
            Some(d)
        },
        None => Some(d),
    }
}

} // verus!
