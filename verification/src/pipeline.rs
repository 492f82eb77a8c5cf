//! The pipeline orchestrator: plans, searches and synthesizes for one job,
//! advancing the job's status and persisting it after every transition.

use vstd::prelude::*;
use vstd::string::StringExecFns;

use crate::answer::ResearchAnswer;
use crate::caps::LlmProvider;
use crate::caps::SearchProvider;
use crate::caps::Store;
use crate::caps::StoreError;
use crate::caps::store_error_message_spec;
use crate::executor::distinct_urls;
use crate::executor::execute_plan;
use crate::executor::sorted_desc;
use crate::executor::ExecutorConfig;
use crate::job::JobStatus;
use crate::job::ResearchJob;
use crate::planner::Planner;
use crate::planner::PlannerConfig;
use crate::source::clamp_score;
use crate::source::source_wf;
use crate::source::Source;
use crate::synthesizer::synthesize_answer;
use crate::synthesizer::SynthesizerConfig;

verus! {

/// Why a pipeline run failed.
#[derive(Debug)]
pub enum PipelineError {
    /// Planning failed.
    Planning(String),
    /// The search stage failed.
    Search(String),
    /// The synthesis stage failed.
    Synthesis(String),
    /// The store failed.
    Store(StoreError),
    /// The search stage found no sources at all.
    NoSources,
}

/// The human-readable message of a pipeline error.
pub open spec fn pipeline_error_message_spec(e: &PipelineError) -> Seq<char> {
    match e {
        PipelineError::Planning(m) => "planning failed: "@ + m@,
        PipelineError::Search(m) => "search failed: "@ + m@,
        PipelineError::Synthesis(m) => "synthesis failed: "@ + m@,
        PipelineError::Store(se) => "store error: "@ + store_error_message_spec(se),
        PipelineError::NoSources => "no sources found for query"@,
    }
}

impl PipelineError {
    /// Renders the error for humans.
    pub fn message(&self) -> (r: String)
        ensures
            r@ == pipeline_error_message_spec(self),
    {
        match self {
            PipelineError::Planning(m) => {
                let mut s = "planning failed: ".to_owned();
                s.append(m.as_str());
                s
            },
            PipelineError::Search(m) => {
                let mut s = "search failed: ".to_owned();
                s.append(m.as_str());
                s
            },
            PipelineError::Synthesis(m) => {
                let mut s = "synthesis failed: ".to_owned();
                s.append(m.as_str());
                s
            },
            PipelineError::Store(se) => {
                let mut s = "store error: ".to_owned();
                s.append(se.message().as_str());
                s
            },
            PipelineError::NoSources => "no sources found for query".to_owned(),
        }
    }
}

/// What a successful run hands back: the completed job, its ranked sources
/// and the synthesized answer.
pub struct PipelineResult {
    pub job: ResearchJob,
    pub sources: Vec<Source>,
    pub answer: ResearchAnswer,
}

/// The configuration of all three stages.
pub struct PipelineConfig {
    pub planner: PlannerConfig,
    pub executor: ExecutorConfig,
    pub synthesizer: SynthesizerConfig,
}

impl Default for PipelineConfig {
    /// The default configuration of every stage.
    fn default() -> (r: PipelineConfig)
        ensures
            r.planner.max_queries == 3,
            r.executor.max_sources == 10,
            r.executor.min_score == 0,
            r.synthesizer.max_context_sources == 5,
    {
        PipelineConfig {
            planner: Default::default(),
            executor: Default::default(),
            synthesizer: Default::default(),
        }
    }
}

/// Sequences Plan, Execute and Synthesize for one job, persisting the job
/// after every status transition.
pub struct Pipeline<S, SP, LP> {
    store: S,
    search_provider: SP,
    llm_provider: LP,
    config: PipelineConfig,
}

impl<S: Store, SP: SearchProvider, LP: LlmProvider> Pipeline<S, SP, LP> {
    /// The store the pipeline persists through.
    pub closed spec fn spec_store(&self) -> S {
        self.store
    }

    /// The configuration the pipeline runs with.
    pub closed spec fn spec_config(&self) -> PipelineConfig {
        self.config
    }

    /// Creates a pipeline with the default configuration.
    pub fn new(store: S, search_provider: SP, llm_provider: LP) -> (r: Pipeline<S, SP, LP>)
        ensures
            r.spec_store() == store,
            r.spec_config().executor.max_sources == 10,
            r.spec_config().executor.min_score == 0,
            r.spec_config().synthesizer.max_context_sources == 5,
    {
        Pipeline { store, search_provider, llm_provider, config: Default::default() }
    }

    /// Replaces the configuration.
    pub fn with_config(self, config: PipelineConfig) -> (r: Pipeline<S, SP, LP>)
        ensures
            r.spec_config() == config,
            r.spec_store() == self.spec_store(),
    {
        Pipeline { config, ..self }
    }

    /// The store the pipeline persists through.
    pub fn store(&self) -> (r: &S)
        ensures
            *r == self.spec_store(),
    {
        &self.store
    }

    /// Persists a new job, as the store does: a caller creates the job
    /// before asking for a run.
    pub fn create_job(&mut self, job: &ResearchJob) -> (r: Result<(), StoreError>)
        ensures
            old(self).spec_store().jobs().contains_key(job.id@) ==> (r matches Err(e)
                && e is Conflict),
            r is Ok ==> !old(self).spec_store().jobs().contains_key(job.id@)
                && final(self).spec_store().jobs() == old(self).spec_store().jobs().insert(
                job.id@,
                job@,
            ),
    {
        self.store.create_job(job)
    }

    /// Runs the pipeline for one job: Planning, Searching, Synthesizing,
    /// then Completed; each status is persisted before the next stage
    /// begins. An empty search result fails the job with a no-sources
    /// message, persisted the same way; any stage error fails the run.
    pub fn run(&mut self, job: ResearchJob) -> (r: Result<PipelineResult, PipelineError>)
        ensures
            r matches Ok(res) ==> {
                &&& res.job.status is Completed
                &&& res.job.id@ == job.id@
                &&& res.job.query@ == job.query@
                &&& res.job.error_message is None <==> job.error_message is None
                &&& 1 <= res.sources@.len() <= old(self).spec_config().executor.max_sources
                &&& sorted_desc(res.sources@)
                &&& distinct_urls(res.sources@)
                &&& forall|i: int|
                    0 <= i < res.sources@.len() ==> (#[trigger] res.sources@[i]).relevance_score
                        >= clamp_score(old(self).spec_config().executor.min_score) && source_wf(
                        &res.sources@[i],
                    )
                &&& final(self).spec_store().jobs().contains_key(job.id@)
                &&& final(self).spec_store().jobs()[job.id@].status is Completed
                &&& final(self).spec_store().sources().contains_key(job.id@)
                &&& final(self).spec_store().sources()[job.id@] == res.sources@
            },
            r matches Err(e) && e is NoSources ==> {
                &&& final(self).spec_store().jobs().contains_key(job.id@)
                &&& final(self).spec_store().jobs()[job.id@].status is Failed
                &&& final(self).spec_store().jobs()[job.id@].error_message == Some(
                    "No sources found for query"@,
                )
                &&& final(self).spec_store().sources() == old(self).spec_store().sources()
            },
            r matches Err(e) ==> (e matches PipelineError::Search(m) ==> {
                &&& final(self).spec_store().jobs().contains_key(job.id@)
                &&& final(self).spec_store().jobs()[job.id@].status is Failed
                &&& final(self).spec_store().jobs()[job.id@].error_message == Some(m@)
                &&& final(self).spec_store().sources() == old(self).spec_store().sources()
            }),
            r matches Err(e) ==> (e matches PipelineError::Synthesis(m) ==> {
                &&& final(self).spec_store().jobs().contains_key(job.id@)
                &&& final(self).spec_store().jobs()[job.id@].status is Failed
                &&& final(self).spec_store().jobs()[job.id@].error_message == Some(m@)
                &&& final(self).spec_store().sources().contains_key(job.id@)
            }),
    {
        let mut job = job;
        job.transition_to(JobStatus::Planning);
        match self.store.update_job(&job) {
            Ok(()) => {},
            Err(e) => {
                return Err(PipelineError::Store(e));
            },
        }
        let planner = Planner::new(self.config.planner.clone());
        let search_plan = planner.plan(job.query.as_str());
        job.transition_to(JobStatus::Searching);
        match self.store.update_job(&job) {
            Ok(()) => {},
            Err(e) => {
                return Err(PipelineError::Store(e));
            },
        }
        let sources = match execute_plan(
            &mut self.search_provider,
            &self.config.executor,
            &search_plan,
        ) {
            Ok(sources) => sources,
            Err(e) => {
                // a stage failure is recorded on the job and persisted
                // before the run reports it
                let message = e.message();
                job.fail(message.as_str());
                match self.store.update_job(&job) {
                    Ok(()) => {},
                    Err(se) => {
                        return Err(PipelineError::Store(se));
                    },
                }
                return Err(PipelineError::Search(message));
            },
        };
        if sources.len() == 0 {
            job.fail("No sources found for query");
            match self.store.update_job(&job) {
                Ok(()) => {},
                Err(e) => {
                    return Err(PipelineError::Store(e));
                },
            }
            return Err(PipelineError::NoSources);
        }
        match self.store.store_sources(&job.id, &sources) {
            Ok(()) => {},
            Err(e) => {
                return Err(PipelineError::Store(e));
            },
        }
        job.transition_to(JobStatus::Synthesizing);
        match self.store.update_job(&job) {
            Ok(()) => {},
            Err(e) => {
                return Err(PipelineError::Store(e));
            },
        }
        let answer = match synthesize_answer(
            &mut self.llm_provider,
            &self.config.synthesizer,
            job.query.as_str(),
            &sources,
        ) {
            Ok(answer) => answer,
            Err(e) => {
                // a stage failure is recorded on the job and persisted
                // before the run reports it
                let message = e.message();
                job.fail(message.as_str());
                match self.store.update_job(&job) {
                    Ok(()) => {},
                    Err(se) => {
                        return Err(PipelineError::Store(se));
                    },
                }
                return Err(PipelineError::Synthesis(message));
            },
        };
        job.transition_to(JobStatus::Completed);
        match self.store.update_job(&job) {
            Ok(()) => {},
            Err(e) => {
                return Err(PipelineError::Store(e));
            },
        }
        Ok(PipelineResult { job, sources, answer })
    }
}

} // verus!
