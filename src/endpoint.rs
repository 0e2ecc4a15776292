//! Endpoints and HTTP failures of the contents/parts provider.
use vstd::prelude::*;
use crate::error::CompositeLlmError;

verus! {

/// The model's base URL:
/// `https://{location}-aiplatform.googleapis.com/v1/projects/{project}/locations/{location}/publishers/google/models/{model}`.
pub open spec fn base_url_of(project: Seq<char>, location: Seq<char>, model: Seq<char>) -> Seq<char> {
    "https://"@ + location + "-aiplatform.googleapis.com/v1/projects/"@ + project
        + "/locations/"@ + location + "/publishers/google/models/"@ + model
}

pub fn vertex_base_url(project_id: &str, location: &str, model_id: &str) -> (r: String)
    ensures
        r@ == base_url_of(project_id@, location@, model_id@),
{
    let mut r = "https://".to_string();
    r.push_str(location);
    r.push_str("-aiplatform.googleapis.com/v1/projects/");
    r.push_str(project_id);
    r.push_str("/locations/");
    r.push_str(location);
    r.push_str("/publishers/google/models/");
    r.push_str(model_id);
    r
}

/// The single-shot endpoint: the base URL and `:generateContent`.
pub fn generate_content_url(project_id: &str, location: &str, model_id: &str) -> (r: String)
    ensures
        r@ == base_url_of(project_id@, location@, model_id@) + ":generateContent"@,
{
    let mut r = vertex_base_url(project_id, location, model_id);
    r.push_str(":generateContent");
    r
}

/// The streaming endpoint: the base URL and `:streamGenerateContent?alt=sse`.
pub fn stream_generate_content_url(project_id: &str, location: &str, model_id: &str) -> (r: String)
    ensures
        r@ == base_url_of(project_id@, location@, model_id@) + ":streamGenerateContent?alt=sse"@,
{
    let mut r = vertex_base_url(project_id, location, model_id);
    r.push_str(":streamGenerateContent?alt=sse");
    r
}

/// Whether an HTTP status code is a success (2xx).
pub fn is_success_status(code: u16) -> (r: bool)
    ensures
        r == (200 <= code <= 299),
{
    200 <= code && code <= 299
}

/// The error for a failed HTTP call: `HTTP {status}: {body}`, where
/// `status` is the status line (code and reason) and `body` the raw body.
pub fn http_status_error(status: &str, body: &str) -> (r: CompositeLlmError)
    ensures
        r is Vertex,
        r->Vertex_0@ == "HTTP "@ + status@ + ": "@ + body@,
{
    let mut m = "HTTP ".to_string();
    m.push_str(status);
    m.push_str(": ");
    m.push_str(body);
    CompositeLlmError::Vertex(m)
}

} // verus!
