use vstd::prelude::*;

verus! {

/// What an organization may do with a model.
#[derive(Debug)]
pub struct OpenAIModelPermission {
    pub id: String,
    pub object: String,
    pub created: i64,
    pub allow_create_engine: bool,
    pub allow_sampling: bool,
    pub allow_logprobs: bool,
    pub allow_search_indices: bool,
    pub allow_view: bool,
    pub allow_fine_tuning: bool,
    pub organization: String,
    pub group: serde_json::Value,
    pub is_blocking: bool,
}

/// A model the API offers.
#[derive(Debug)]
pub struct OpenAIModel {
    pub id: String,
    pub object: String,
    pub created: i64,
    pub owned_by: String,
    pub permission: Vec<OpenAIModelPermission>,
    pub root: String,
    pub parent: serde_json::Value,
}

/// The reply to a request for the list of models.
#[derive(Debug)]
pub struct OpenAIGetModelsResponse {
    pub object: String,
    pub data: Vec<OpenAIModel>,
}

} // verus!
