//! Data returned by the remote catalog service.
//!
//! The catalog client itself (HTTP transport, JSON envelope) lives outside
//! the library; the library only defines the records a fetch produces and
//! the rule that classifies a response's status code.

use vstd::prelude::*;

verus! {

/// Cover-art locations for one catalog record.
#[derive(Debug)]
pub struct Images {
    pub original: String,
}

/// Descriptive fields of one catalog record.
#[derive(Debug)]
pub struct MangaAttributes {
    pub description: Option<String>,
    pub canonical_title: String,
    pub average_rating: Option<String>,
    pub start_date: String,
    pub end_date: String,
    pub age_rating: Option<String>,
    pub age_rating_guide: Option<String>,
    pub status: String,
    pub poster_image: Images,
    pub volume_count: Option<u8>,
}

/// One catalog record: the remote id, related links (as key/value pairs),
/// and the descriptive attributes.
#[derive(Debug)]
pub struct Manga {
    pub id: String,
    pub links: Vec<(String, String)>,
    pub attributes: MangaAttributes,
}

/// A structured error reported by the catalog service.
#[derive(Debug)]
pub struct ResponseError {
    pub title: String,
    pub detail: String,
    pub code: String,
    pub status: String,
}

/// The outcome of one fetch: either the records the service returned,
/// or a structured error. Produced once per fetch and consumed by
/// exactly one merge step.
#[derive(Debug)]
pub enum ResponseType {
    Success(Vec<Manga>),
    Failure(ResponseError),
}

/// Classifies an HTTP status code as successful, the rule the transport
/// layer applies before deciding which branch of `ResponseType` to build.
pub fn is_success_status(status: u16) -> (r: bool)
    ensures
        r == (200 <= status < 300),
{
    200 <= status && status < 300
}

} // verus!
