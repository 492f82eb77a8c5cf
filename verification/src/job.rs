//! The research job: its lifecycle states and transitions.

use vstd::prelude::*;

use crate::errors::validate_query;
use crate::errors::QueryError;
use crate::errors::MAX_QUERY_LENGTH;
use crate::id::job_id_wf;
use crate::id::JobId;
use crate::query::QueryIntent;

verus! {

/// Relies on `chrono::Utc::now` and `DateTime::timestamp_millis`: the
/// current wall-clock time as milliseconds since the Unix epoch. Nothing is
/// promised of the value.
#[verifier::external_body]
pub(crate) fn now_timestamp_millis() -> i64 {
    chrono::Utc::now().timestamp_millis()
}

/// Where a job stands in its lifecycle. `Completed` and `Failed` are
/// terminal; `Fetching` is reserved for a future content-fetch stage and is
/// not used by the pipeline today.
#[derive(Clone, Copy, Debug, PartialEq, Eq, Structural)]
pub enum JobStatus {
    Pending,
    Planning,
    Searching,
    Fetching,
    Synthesizing,
    Completed,
    Failed,
}

/// The statuses in which a job can make no further progress.
pub open spec fn spec_is_terminal(s: JobStatus) -> bool {
    s is Completed || s is Failed
}

impl JobStatus {
    /// Whether the job can make no further progress.
    pub fn is_terminal(&self) -> (r: bool)
        ensures
            r == spec_is_terminal(*self),
    {
        matches!(self, JobStatus::Completed | JobStatus::Failed)
    }

    /// Whether the job is still moving through the pipeline.
    pub fn is_active(&self) -> (r: bool)
        ensures
            r == !spec_is_terminal(*self),
    {
        !self.is_terminal()
    }
}

/// One research request moving through the pipeline.
pub struct ResearchJob {
    pub id: JobId,
    pub query: String,
    pub intent: Option<QueryIntent>,
    pub status: JobStatus,
    pub created_at: i64,
    pub updated_at: i64,
    pub error_message: Option<String>,
}

/// The mathematical value of a job.
pub ghost struct JobView {
    pub id: Seq<char>,
    pub query: Seq<char>,
    pub intent: Option<crate::query::IntentView>,
    pub status: JobStatus,
    pub created_at: int,
    pub updated_at: int,
    pub error_message: Option<Seq<char>>,
}

impl View for ResearchJob {
    type V = JobView;

    open spec fn view(&self) -> JobView {
        JobView {
            id: self.id@,
            query: self.query@,
            intent: match self.intent {
                Some(i) => Some(i@),
                None => None,
            },
            status: self.status,
            created_at: self.created_at as int,
            updated_at: self.updated_at as int,
            error_message: match self.error_message {
                Some(m) => Some(m@),
                None => None,
            },
        }
    }
}

/// The job invariant: an error message is recorded exactly when the job has
/// failed.
pub open spec fn error_consistent(job: &ResearchJob) -> bool {
    (job.error_message is Some) <==> (job.status is Failed)
}

impl ResearchJob {
    /// Creates a pending job for a validated query. Rejects an empty query
    /// and one longer than `MAX_QUERY_LENGTH` characters.
    pub fn new(query: &str) -> (r: Result<ResearchJob, QueryError>)
        ensures
            query@.len() == 0 ==> r == Result::<ResearchJob, QueryError>::Err(QueryError::Empty),
            query@.len() > MAX_QUERY_LENGTH ==> r == Result::<ResearchJob, QueryError>::Err(
                QueryError::TooLong { max: MAX_QUERY_LENGTH, got: query@.len() as usize },
            ),
            0 < query@.len() <= MAX_QUERY_LENGTH ==> (r matches Ok(job) && job.query@ == query@
                && job.status is Pending && job.intent is None && job.error_message is None
                && job.created_at == job.updated_at && job_id_wf(job.id@) && error_consistent(
                &job,
            )),
    {
        match validate_query(query) {
            Err(e) => Err(e),
            Ok(()) => {
                let now = now_timestamp_millis();
                Ok(
                    ResearchJob {
                        id: JobId::new(),
                        query: query.to_owned(),
                        intent: None,
                        status: JobStatus::Pending,
                        created_at: now,
                        updated_at: now,
                        error_message: None,
                    },
                )
            },
        }
    }

    /// Records the parsed intent of the query.
    pub fn with_intent(self, intent: QueryIntent) -> (r: ResearchJob)
        ensures
            r.intent == Some(intent),
            r.id == self.id,
            r.query == self.query,
            r.status == self.status,
            r.created_at == self.created_at,
            r.error_message == self.error_message,
            error_consistent(&self) ==> error_consistent(&r),
    {
        ResearchJob { intent: Some(intent), updated_at: now_timestamp_millis(), ..self }
    }

    /// Moves the job to the given non-failure status and refreshes its
    /// update time. Failure is reached only through `fail`, which also
    /// records the reason.
    pub fn transition_to(&mut self, status: JobStatus)
        requires
            !(status is Failed),
        ensures
            final(self).status == status,
            final(self).id == old(self).id,
            final(self).query == old(self).query,
            final(self).intent == old(self).intent,
            final(self).created_at == old(self).created_at,
            final(self).error_message == old(self).error_message,
            old(self).error_message is None ==> error_consistent(&*final(self)),
    {
        self.status = status;
        self.updated_at = now_timestamp_millis();
    }

    /// Marks the job failed with the reason, terminally.
    pub fn fail(&mut self, message: &str)
        ensures
            final(self).status is Failed,
            final(self).error_message matches Some(m) && m@ == message@,
            final(self).id == old(self).id,
            final(self).query == old(self).query,
            final(self).intent == old(self).intent,
            final(self).created_at == old(self).created_at,
            error_consistent(&*final(self)),
    {
        self.status = JobStatus::Failed;
        self.error_message = Some(message.to_owned());
        self.updated_at = now_timestamp_millis();
    }
}

/// Two jobs agree field by field; a recorded intent agrees element by
/// element.
pub open spec fn job_equiv(a: &ResearchJob, b: &ResearchJob) -> bool {
    a.id == b.id && a.query == b.query && a.status == b.status && a.created_at == b.created_at
        && a.updated_at == b.updated_at && a.error_message == b.error_message && (a.intent is Some
        <==> b.intent is Some) && (a.intent matches Some(x) ==> b.intent matches Some(y)
        && crate::query::intent_equiv(&x, &y))
}

impl Clone for ResearchJob {
    fn clone(&self) -> (r: Self)
        ensures
            job_equiv(&r, self),
            r@ == self@,
    {
        ResearchJob {
            id: self.id.clone(),
            query: self.query.clone(),
            intent: match &self.intent {
                Some(i) => Some(i.clone()),
                None => None,
            },
            status: self.status,
            created_at: self.created_at,
            updated_at: self.updated_at,
            error_message: match &self.error_message {
                Some(m) => Some(m.clone()),
                None => None,
            },
        }
    }
}

} // verus!
