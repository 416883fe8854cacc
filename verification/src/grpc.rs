//! The agent's gRPC service, as requests and replies on plain values.
use vstd::prelude::*;

verus! {

/// Default agent endpoint when `AGENT_RS_GRPC_URL` is unset.
pub const DEFAULT_AGENT_GRPC_URL: &'static str = "http://localhost:1072";

/// The endpoint to connect to: the value of `AGENT_RS_GRPC_URL`, or the
/// default.
pub fn connect(configured: Option<String>) -> (url: String)
    ensures
        configured matches Some(u) ==> url == u,
        configured is None ==> url@ == DEFAULT_AGENT_GRPC_URL@ && url@ == "http://localhost:1072"@,
{
    match configured {
        Some(u) => u,
        None => DEFAULT_AGENT_GRPC_URL.to_string(),
    }
}

/// Ask for a document to be indexed.
#[derive(Debug, Clone, PartialEq, Eq)]
pub struct EnqueueIndexRequest {
    pub user_id: String,
    pub minio_object_key: String,
}

/// Ask how far the indexing of a document has come.
#[derive(Debug, Clone, PartialEq, Eq)]
pub struct GetDocumentStatusRequest {
    pub user_id: String,
    pub minio_object_key: String,
}

/// How far the indexing of a document has come. Unknown counts are zero and
/// unknown texts are empty.
#[derive(Debug, Clone, PartialEq, Eq)]
pub struct GetDocumentStatusResponse {
    pub state: String,
    pub sha256: String,
    pub n_pages: u32,
    pub n_chunks: u32,
    pub error_message: String,
}

/// Ask for a document's index to be dropped.
#[derive(Debug, Clone, PartialEq, Eq)]
pub struct DeleteDocumentRequest {
    pub user_id: String,
    pub minio_object_key: String,
}

/// The request of `EnqueueIndex`.
pub fn enqueue_index(user_id: &str, minio_object_key: &str) -> (r: EnqueueIndexRequest)
    ensures
        r.user_id@ == user_id@,
        r.minio_object_key@ == minio_object_key@,
{
    EnqueueIndexRequest {
        user_id: user_id.to_string(),
        minio_object_key: minio_object_key.to_string(),
    }
}

/// The request of `GetDocumentStatus`.
pub fn get_document_status(user_id: &str, minio_object_key: &str) -> (r: GetDocumentStatusRequest)
    ensures
        r.user_id@ == user_id@,
        r.minio_object_key@ == minio_object_key@,
{
    GetDocumentStatusRequest {
        user_id: user_id.to_string(),
        minio_object_key: minio_object_key.to_string(),
    }
}

/// The request of `DeleteDocument`.
pub fn delete_document(user_id: &str, minio_object_key: &str) -> (r: DeleteDocumentRequest)
    ensures
        r.user_id@ == user_id@,
        r.minio_object_key@ == minio_object_key@,
{
    DeleteDocumentRequest {
        user_id: user_id.to_string(),
        minio_object_key: minio_object_key.to_string(),
    }
}

/// One turn of the history that a question carries.
#[derive(Debug, Clone, PartialEq, Eq)]
pub struct ChatTurn {
    pub role: String,
    pub content: String,
}

/// A question to the agent.
#[derive(Debug, Clone, PartialEq, Eq)]
pub struct AskRequest {
    pub user_id: String,
    pub query: String,
    pub history: Vec<ChatTurn>,
    pub active_document_keys: Vec<String>,
    pub history_document_keys: Vec<String>,
    pub trace_id: String,
    pub strategy: String,
    pub limit: u32,
}

} // verus!
