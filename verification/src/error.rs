//! Error types shared across the crate.

use vstd::prelude::*;
use vstd::string::StringExecFns;

verus! {

/// Top-level error kind for the research engine.
#[derive(Debug)]
pub enum DeepResearchError {
    /// A configuration value is malformed or inconsistent.
    InvalidConfiguration(String),
    /// A required environment reference is missing or empty.
    MissingSecret(String),
    /// A configuration file could not be read.
    ConfigIo { path: String, detail: String },
    /// A graph was rejected at build time.
    PlanningError(String),
    /// Graph execution could not proceed.
    OrchestrationError(String),
    /// A request was rejected before any work started.
    InputValidation(String),
    /// No admission permit was free on the immediate-backpressure path;
    /// transient, retry after a delay.
    AdmissionRejected,
    /// A persisted session was not found or could not be loaded.
    StorageError(String),
    /// The retrieval backend failed.
    RetrievalError(String),
    /// Any other failure, described in prose.
    Other(String),
}

impl DeepResearchError {
    pub fn config_io(path: String, detail: String) -> (e: Self)
        ensures
            e == (DeepResearchError::ConfigIo { path, detail }),
    {
        DeepResearchError::ConfigIo { path, detail }
    }

    /// A one-line description, used where the surrounding service logs or
    /// displays the error.
    pub fn message(&self) -> (r: String)
        ensures
            r@ == self.spec_message(),
    {
        match self {
            DeepResearchError::InvalidConfiguration(s) => {
                let mut m: String = "configuration error: ".to_owned();
                m.append(s.as_str());
                m
            },
            DeepResearchError::MissingSecret(s) => {
                let mut m: String = "missing environment variable: ".to_owned();
                m.append(s.as_str());
                m
            },
            DeepResearchError::ConfigIo { path, detail } => {
                let mut m: String = "I/O error while reading ".to_owned();
                m.append(path.as_str());
                m.append(": ");
                m.append(detail.as_str());
                m
            },
            DeepResearchError::PlanningError(s) => {
                let mut m: String = "planning error: ".to_owned();
                m.append(s.as_str());
                m
            },
            DeepResearchError::OrchestrationError(s) => {
                let mut m: String = "orchestration error: ".to_owned();
                m.append(s.as_str());
                m
            },
            DeepResearchError::InputValidation(s) => {
                let mut m: String = "invalid input: ".to_owned();
                m.append(s.as_str());
                m
            },
            DeepResearchError::AdmissionRejected => {
                "no admission permit is free; retry shortly".to_owned()
            },
            DeepResearchError::StorageError(s) => {
                let mut m: String = "storage error: ".to_owned();
                m.append(s.as_str());
                m
            },
            DeepResearchError::RetrievalError(s) => {
                let mut m: String = "retrieval error: ".to_owned();
                m.append(s.as_str());
                m
            },
            DeepResearchError::Other(s) => {
                let mut m: String = String::new();
                m.append(s.as_str());
                m
            },
        }
    }

    pub open spec fn spec_message(&self) -> Seq<char> {
        match self {
            DeepResearchError::InvalidConfiguration(s) => "configuration error: "@ + s@,
            DeepResearchError::MissingSecret(s) => "missing environment variable: "@ + s@,
            DeepResearchError::ConfigIo { path, detail } => "I/O error while reading "@ + path@
                + ": "@ + detail@,
            DeepResearchError::PlanningError(s) => "planning error: "@ + s@,
            DeepResearchError::OrchestrationError(s) => "orchestration error: "@ + s@,
            DeepResearchError::InputValidation(s) => "invalid input: "@ + s@,
            DeepResearchError::AdmissionRejected => "no admission permit is free; retry shortly"@,
            DeepResearchError::StorageError(s) => "storage error: "@ + s@,
            DeepResearchError::RetrievalError(s) => "retrieval error: "@ + s@,
            DeepResearchError::Other(s) => s@,
        }
    }
}

/// A task failure inside the orchestration graph.
#[derive(Debug)]
pub struct TaskError {
    pub reason: String,
    pub retryable: bool,
}

impl TaskError {
    pub fn new(reason: String, retryable: bool) -> (e: Self)
        ensures
            e.reason@ == reason@,
            e.retryable == retryable,
    {
        TaskError { reason, retryable }
    }

    pub fn is_retryable(&self) -> (r: bool)
        ensures
            r == self.retryable,
    {
        self.retryable
    }

    /// `"retryable task failure: …"` or `"terminal task failure: …"`.
    pub fn describe(&self) -> (r: String)
        ensures
            self.retryable ==> r@ == "retryable task failure: "@ + self.reason@,
            !self.retryable ==> r@ == "terminal task failure: "@ + self.reason@,
    {
        let mut m: String = if self.retryable {
            "retryable task failure: ".to_owned()
        } else {
            "terminal task failure: ".to_owned()
        };
        m.append(self.reason.as_str());
        m
    }
}

impl Clone for TaskError {
    fn clone(&self) -> (r: Self)
        ensures
            r == *self,
    {
        TaskError { reason: self.reason.clone(), retryable: self.retryable }
    }
}

} // verus!
