//! The client side of the inference server's API: where each operation is
//! sent, how long it may take, and what a reply means. Sending and
//! receiving is the caller's part.

use super::models::{DeleteRequest, PullRequest, ShowRequest};
use vstd::prelude::*;
use vstd::string::StringExecFns;

verus! {

/// The time that an operation may take, in seconds.
pub const REQUEST_TIMEOUT_SECS: u64 = 30;

/// The time that pulling a model may take, in seconds: half an hour.
pub const PULL_TIMEOUT_SECS: u64 = 1800;

/// What the client asks of the server.
#[derive(Debug, Clone, Copy, PartialEq, Eq, Structural)]
pub enum Operation {
    CheckHealth,
    ListModels,
    ListRunningModels,
    Generate,
    PullModel,
    DeleteModel,
    ShowModel,
    UnloadAllModels,
}

/// How a request is sent.
#[derive(Debug, Clone, Copy, PartialEq, Eq, Structural)]
pub enum Method {
    Get,
    Post,
    Delete,
}

impl Operation {
    /// The path of the endpoint that serves the operation.
    pub open spec fn path(self) -> Seq<char> {
        match self {
            Operation::CheckHealth => "/api/tags"@,
            Operation::ListModels => "/api/tags"@,
            Operation::ListRunningModels => "/api/ps"@,
            Operation::Generate => "/api/generate"@,
            Operation::PullModel => "/api/pull"@,
            Operation::DeleteModel => "/api/delete"@,
            Operation::ShowModel => "/api/show"@,
            Operation::UnloadAllModels => "/api/generate"@,
        }
    }

    /// How the request of the operation is sent.
    pub open spec fn method(self) -> Method {
        match self {
            Operation::CheckHealth => Method::Get,
            Operation::ListModels => Method::Get,
            Operation::ListRunningModels => Method::Get,
            Operation::DeleteModel => Method::Delete,
            _ => Method::Post,
        }
    }

    /// The time that the operation may take, in seconds.
    pub open spec fn timeout(self) -> u64 {
        if self == Operation::PullModel {
            PULL_TIMEOUT_SECS
        } else {
            REQUEST_TIMEOUT_SECS
        }
    }

    /// Whether a reply that refuses the request still counts as success:
    /// unloading is best effort.
    pub open spec fn tolerates_refusal(self) -> bool {
        self == Operation::UnloadAllModels
    }

    /// How a refusal of the operation is reported.
    pub open spec fn failure(self) -> Seq<char> {
        match self {
            Operation::CheckHealth => "Failed to check health"@,
            Operation::ListModels => "Failed to list models"@,
            Operation::ListRunningModels => "Failed to list running models"@,
            Operation::Generate => "Failed to generate"@,
            Operation::PullModel => "Failed to pull model"@,
            Operation::DeleteModel => "Failed to delete model"@,
            Operation::ShowModel => "Failed to show model"@,
            Operation::UnloadAllModels => "Failed to unload models"@,
        }
    }

    /// The path of the endpoint that serves the operation.
    pub fn endpoint_path(&self) -> (path: &'static str)
        ensures
            path@ == self.path(),
    {
        match self {
            Operation::CheckHealth => "/api/tags",
            Operation::ListModels => "/api/tags",
            Operation::ListRunningModels => "/api/ps",
            Operation::Generate => "/api/generate",
            Operation::PullModel => "/api/pull",
            Operation::DeleteModel => "/api/delete",
            Operation::ShowModel => "/api/show",
            Operation::UnloadAllModels => "/api/generate",
        }
    }

    /// How the request of the operation is sent.
    pub fn http_method(&self) -> (method: Method)
        ensures
            method == self.method(),
    {
        match self {
            Operation::CheckHealth => Method::Get,
            Operation::ListModels => Method::Get,
            Operation::ListRunningModels => Method::Get,
            Operation::DeleteModel => Method::Delete,
            _ => Method::Post,
        }
    }

    /// The time that the operation may take, in seconds.
    pub fn timeout_secs(&self) -> (seconds: u64)
        ensures
            seconds == self.timeout(),
    {
        match self {
            Operation::PullModel => PULL_TIMEOUT_SECS,
            _ => REQUEST_TIMEOUT_SECS,
        }
    }

    fn failure_label(&self) -> (label: &'static str)
        ensures
            label@ == self.failure(),
    {
        match self {
            Operation::CheckHealth => "Failed to check health",
            Operation::ListModels => "Failed to list models",
            Operation::ListRunningModels => "Failed to list running models",
            Operation::Generate => "Failed to generate",
            Operation::PullModel => "Failed to pull model",
            Operation::DeleteModel => "Failed to delete model",
            Operation::ShowModel => "Failed to show model",
            Operation::UnloadAllModels => "Failed to unload models",
        }
    }
}

/// Whether an HTTP status code reports success: the codes from 200 to 299.
pub open spec fn is_success(status: u16) -> bool {
    200 <= status < 300
}

/// The report of a refusal: what failed, and the status that the server
/// gave.
pub open spec fn refusal(operation: Operation, status_text: Seq<char>) -> Seq<char> {
    operation.failure() + ": "@ + status_text
}

/// Client for communicating with the Ollama API
#[derive(Debug, Clone)]
pub struct OllamaClient {
    base_url: String,
}

impl OllamaClient {
    /// The address of the server.
    pub closed spec fn base(self) -> Seq<char> {
        self.base_url@
    }

    /// Create a new Ollama client
    pub fn new(base_url: &str) -> (client: Self)
        ensures
            client.base() == base_url@,
    {
        OllamaClient { base_url: base_url.to_owned() }
    }

    /// Where the request of an operation is sent.
    pub fn url(&self, operation: Operation) -> (url: String)
        ensures
            url@ == self.base() + operation.path(),
    {
        self.base_url.clone().concat(operation.endpoint_path())
    }

    /// Whether the server is up, given the status of its reply to the health
    /// request; `None` stands for a request that got no reply, which is no
    /// error: the server is then not up.
    pub fn check_health(&self, status: Option<u16>) -> (healthy: bool)
        ensures
            healthy == (status matches Some(code) && is_success(code)),
    {
        match status {
            Some(code) => 200 <= code && code < 300,
            None => false,
        }
    }

    /// What the status of a reply means for an operation: success for the
    /// codes from 200 to 299, and for any code where the operation is best
    /// effort; else the report of the refusal, which holds the status as the
    /// server worded it.
    pub fn check_status(&self, operation: Operation, status: u16, status_text: &str) -> (result:
        Result<(), String>)
        ensures
            result is Ok <==> is_success(status) || operation.tolerates_refusal(),
            result matches Err(report) ==> report@ == refusal(operation, status_text@),
    {
        if (200 <= status && status < 300) || operation == Operation::UnloadAllModels {
            Ok(())
        } else {
            Err(String::from_str(operation.failure_label()).concat(": ").concat(status_text))
        }
    }

    /// The request that pulls `model_name` in one reply.
    pub fn pull_request(&self, model_name: &str) -> (request: PullRequest)
        ensures
            request.name@ == model_name@,
            request.stream == Some(false),
    {
        PullRequest { name: model_name.to_owned(), stream: Some(false) }
    }

    /// The request that deletes `model_name`.
    pub fn delete_request(&self, model_name: &str) -> (request: DeleteRequest)
        ensures
            request.name@ == model_name@,
    {
        DeleteRequest { name: model_name.to_owned() }
    }

    /// The request that shows `model_name`.
    pub fn show_request(&self, model_name: &str) -> (request: ShowRequest)
        ensures
            request.name@ == model_name@,
    {
        ShowRequest { name: model_name.to_owned() }
    }
}

} // verus!
