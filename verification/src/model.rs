//! Data model for one search call: the inbound query, the upstream response
//! shape, and the outward enriched result record.

use vstd::prelude::*;

verus! {

/// Parameters of one search call. `part` defaults to `"snippet"`,
/// `resource_type` to `"video"` and `max_result` to 50 when the caller does
/// not supply them; `q` is required.
#[derive(Debug)]
pub struct QueryParams {
    pub part: String,
    pub resource_type: String,
    pub q: String,
    pub max_result: u8,
}

/// Default for `QueryParams::part`.
pub fn default_part() -> (r: String)
    ensures
        r@ == "snippet"@,
{
    "snippet".to_owned()
}

/// Default for `QueryParams::resource_type`.
pub fn default_type() -> (r: String)
    ensures
        r@ == "video"@,
{
    "video".to_owned()
}

/// Default for `QueryParams::max_result`.
pub fn default_max_result() -> (r: u8)
    ensures
        r == 50,
{
    50
}

impl QueryParams {
    /// A query for `q` with every other field at its default.
    pub fn new(q: String) -> (p: QueryParams)
        ensures
            p.part@ == "snippet"@,
            p.resource_type@ == "video"@,
            p.q@ == q@,
            p.max_result == 50,
    {
        QueryParams { part: default_part(), resource_type: default_type(), q, max_result: default_max_result() }
    }
}

/// One outward result record. `thumbnails` holds at most one entry: the
/// base64 text of the best thumbnail that could be fetched, if any.
#[derive(Debug, Clone, PartialEq, Eq)]
pub struct VideoSearchResult {
    pub id: String,
    pub title: String,
    pub description: String,
    pub thumbnails: Vec<String>,
    pub channel_title: String,
    pub publish_time: String,
    pub published_at: String,
}

/// The upstream search response: paging metadata and the result items,
/// in the order the upstream sent them.
#[derive(Debug)]
pub struct SearchVideoResponseResult {
    pub kind: String,
    pub etag: String,
    pub next_page_token: String,
    pub region_code: String,
    pub page_info: PageInfo,
    pub items: Vec<Item>,
}

/// Upstream paging metadata.
#[derive(Debug)]
pub struct PageInfo {
    pub total_results: u32,
    pub results_per_page: u8,
}

/// One upstream search result item.
#[derive(Debug)]
pub struct Item {
    pub kind: String,
    pub etag: String,
    pub id: Id,
    pub snippet: Snippet,
}

/// The upstream identifier of one item.
#[derive(Debug)]
pub struct Id {
    pub kind: String,
    pub video_id: String,
}

/// The descriptive part of one upstream item, with its thumbnail candidates.
#[derive(Debug)]
pub struct Snippet {
    pub published_at: String,
    pub channel_id: String,
    pub title: String,
    pub description: String,
    pub thumbnails: Thumbnails,
    pub channel_title: String,
    pub live_broadcast_content: String,
    pub publish_time: String,
}

/// The thumbnail candidates of one item, one per quality tier.
/// Any tier may be absent.
#[derive(Debug)]
pub struct Thumbnails {
    pub default_thumbnail: Option<Thumbnail>,
    pub medium: Option<Thumbnail>,
    pub high: Option<Thumbnail>,
}

/// One thumbnail candidate: where to fetch it and its optional dimensions.
#[derive(Debug)]
pub struct Thumbnail {
    pub url: String,
    pub width: Option<u32>,
    pub height: Option<u32>,
}

} // verus!
