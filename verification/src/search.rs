//! One search call: building the upstream request URL, interpreting the
//! upstream outcome, and enriching every returned item with its best
//! thumbnail while preserving the upstream order.

use vstd::prelude::*;
use vstd::string::StringExecFns;

use crate::errors::{FetchError, SearchError};
use crate::model::{Item, QueryParams, SearchVideoResponseResult, VideoSearchResult};
use crate::thumbs::{best_of, opt_text_view, outcome_view, select_best, tier_outcome, ThumbnailOutcomes};

verus! {

/// The decimal digit character of `n`, for `n < 10`.
pub open spec fn digit_of(n: nat) -> char {
    if n == 0 {
        '0'
    } else if n == 1 {
        '1'
    } else if n == 2 {
        '2'
    } else if n == 3 {
        '3'
    } else if n == 4 {
        '4'
    } else if n == 5 {
        '5'
    } else if n == 6 {
        '6'
    } else if n == 7 {
        '7'
    } else if n == 8 {
        '8'
    } else {
        '9'
    }
}

/// The decimal rendering of `n`, most significant digit first, with no
/// leading zero except for `n == 0` itself.
pub open spec fn dec_of(n: nat) -> Seq<char>
    decreases n,
{
    if n < 10 {
        seq![digit_of(n)]
    } else {
        dec_of(n / 10) + seq![digit_of(n % 10)]
    }
}

/// The one-character string of digit `d`.
fn digit_str(d: u8) -> (r: &'static str)
    requires
        d < 10,
    ensures
        r@ == seq![digit_of(d as nat)],
{
    match d {
        0 => {
            proof {
                reveal_strlit("0");
                assert("0"@ =~= seq![digit_of(0)]);
            }
            "0"
        },
        1 => {
            proof {
                reveal_strlit("1");
                assert("1"@ =~= seq![digit_of(1)]);
            }
            "1"
        },
        2 => {
            proof {
                reveal_strlit("2");
                assert("2"@ =~= seq![digit_of(2)]);
            }
            "2"
        },
        3 => {
            proof {
                reveal_strlit("3");
                assert("3"@ =~= seq![digit_of(3)]);
            }
            "3"
        },
        4 => {
            proof {
                reveal_strlit("4");
                assert("4"@ =~= seq![digit_of(4)]);
            }
            "4"
        },
        5 => {
            proof {
                reveal_strlit("5");
                assert("5"@ =~= seq![digit_of(5)]);
            }
            "5"
        },
        6 => {
            proof {
                reveal_strlit("6");
                assert("6"@ =~= seq![digit_of(6)]);
            }
            "6"
        },
        7 => {
            proof {
                reveal_strlit("7");
                assert("7"@ =~= seq![digit_of(7)]);
            }
            "7"
        },
        8 => {
            proof {
                reveal_strlit("8");
                assert("8"@ =~= seq![digit_of(8)]);
            }
            "8"
        },
        _ => {
            proof {
                reveal_strlit("9");
                assert("9"@ =~= seq![digit_of(9)]);
            }
            "9"
        },
    }
}

/// Renders `n` in decimal.
pub fn u8_to_dec(n: u8) -> (r: String)
    ensures
        r@ == dec_of(n as nat),
{
    let mut s = String::new();
    if n >= 100 {
        let d1: u8 = n / 100;
        s.append(digit_str(d1));
        proof {
            assert((n as nat / 10) / 10 == n as nat / 100) by (nonlinear_arith);
        }
    }
    if n >= 10 {
        let d2: u8 = (n / 10) % 10;
        s.append(digit_str(d2));
    }
    let d3: u8 = n % 10;
    s.append(digit_str(d3));
    proof {
        if n >= 100 {
            assert(n as nat / 100 < 10);
            assert(n as nat / 10 >= 10);
            assert(dec_of(n as nat / 10) == dec_of((n as nat / 10) / 10) + seq![
                digit_of((n as nat / 10) % 10),
            ]);
            assert(s@ =~= dec_of(n as nat));
        } else if n >= 10 {
            assert(n as nat / 10 < 10);
            assert((n as nat / 10) % 10 == n as nat / 10) by (nonlinear_arith)
                requires n as nat / 10 < 10;
            assert(dec_of(n as nat / 10) == seq![digit_of(n as nat / 10)]);
            assert(s@ =~= dec_of(n as nat));
        } else {
            assert(s@ =~= dec_of(n as nat));
        }
    }
    s
}

/// The configuration a search call needs: the upstream host and the API key,
/// both supplied at startup.
#[derive(Debug, Clone)]
pub struct SearchConfig {
    pub api_key: String,
    pub host: String,
}

/// The upstream search URL for `query` against host `host` with key `key`.
pub open spec fn search_url_spec(
    host: Seq<char>,
    key: Seq<char>,
    part: Seq<char>,
    q: Seq<char>,
    resource_type: Seq<char>,
    max_result: nat,
) -> Seq<char> {
    host + "/youtube/v3/search?part="@ + part + "&q="@ + q + "&type="@ + resource_type
        + "&maxResults="@ + dec_of(max_result) + "&key="@ + key
}

impl SearchConfig {
    /// A configuration from the given key and host.
    pub fn new(api_key: String, host: String) -> (c: SearchConfig)
        ensures
            c.api_key@ == api_key@,
            c.host@ == host@,
    {
        SearchConfig { api_key, host }
    }

    /// Builds the upstream search request URL from the query and this
    /// configuration.
    pub fn build_search_url(&self, query: &QueryParams) -> (url: String)
        ensures
            url@ == search_url_spec(
                self.host@,
                self.api_key@,
                query.part@,
                query.q@,
                query.resource_type@,
                query.max_result as nat,
            ),
    {
        let mut url = self.host.clone();
        url.append("/youtube/v3/search?part=");
        url.append(query.part.as_str());
        url.append("&q=");
        url.append(query.q.as_str());
        url.append("&type=");
        url.append(query.resource_type.as_str());
        url.append("&maxResults=");
        let max = u8_to_dec(query.max_result);
        url.append(max.as_str());
        url.append("&key=");
        url.append(self.api_key.as_str());
        proof {
            assert(url@ =~= search_url_spec(
                self.host@,
                self.api_key@,
                query.part@,
                query.q@,
                query.resource_type@,
                query.max_result as nat,
            ));
        }
        url
    }
}

/// How the one upstream search call ended, as the I/O layer reports it:
/// the transport failed or the status was not a success; the body did not
/// match the expected schema; or the body parsed into a response.
#[derive(Debug)]
pub enum UpstreamEvent {
    TransportFailed,
    BodyMalformed,
    Parsed(SearchVideoResponseResult),
}

/// Maps the upstream outcome to the search result: a transport failure is
/// `SearchError::Upstream`, a malformed body is `SearchError::Decode`, and a
/// parsed response yields exactly its items, in upstream order. A failure
/// yields no partial results.
pub fn interpret_upstream(ev: UpstreamEvent) -> (r: Result<Vec<Item>, SearchError>)
    ensures
        ev is TransportFailed ==> r == Err::<Vec<Item>, SearchError>(SearchError::Upstream),
        ev is BodyMalformed ==> r == Err::<Vec<Item>, SearchError>(SearchError::Decode),
        ev matches UpstreamEvent::Parsed(resp) ==> r == Ok::<Vec<Item>, SearchError>(resp.items),
{
    match ev {
        UpstreamEvent::TransportFailed => Err(SearchError::Upstream),
        UpstreamEvent::BodyMalformed => Err(SearchError::Decode),
        UpstreamEvent::Parsed(resp) => Ok(resp.items),
    }
}

/// The raw fetch results for one item's three tiers, as the I/O layer hands
/// them over: `None` for a tier absent upstream, `Some(Err(_))` for a tier
/// whose fetch failed, `Some(Ok(bytes))` for a fetched body.
#[derive(Debug)]
pub struct FetchedThumbnails {
    pub default_thumbnail: Option<Result<Vec<u8>, FetchError>>,
    pub medium: Option<Result<Vec<u8>, FetchError>>,
    pub high: Option<Result<Vec<u8>, FetchError>>,
}

/// The best encoded thumbnail that `f` yields: each tier collapsed to its
/// outcome, then the fixed priority applied.
pub open spec fn item_best_spec(f: FetchedThumbnails) -> Option<Seq<char>> {
    best_of(outcome_view(f.default_thumbnail), outcome_view(f.medium), outcome_view(f.high))
}

/// How an enriched record `r` relates to the upstream item it came from and
/// the best thumbnail `best` selected for it: the descriptive fields are
/// copied, and `thumbnails` holds exactly the selected encoding, or is empty.
pub open spec fn enriched_spec(item: Item, best: Option<Seq<char>>, r: VideoSearchResult) -> bool {
    &&& r.id@ == item.id.video_id@
    &&& r.title@ == item.snippet.title@
    &&& r.description@ == item.snippet.description@
    &&& r.channel_title@ == item.snippet.channel_title@
    &&& r.publish_time@ == item.snippet.publish_time@
    &&& r.published_at@ == item.snippet.published_at@
    &&& match best {
        Some(t) => r.thumbnails@.len() == 1 && r.thumbnails@[0]@ == t,
        None => r.thumbnails@.len() == 0,
    }
}

/// Law: an enriched record never carries more than one thumbnail entry —
/// exactly the selected best encoding, or none at all.
pub proof fn lemma_thumbnails_at_most_one(item: Item, best: Option<Seq<char>>, r: VideoSearchResult)
    requires
        enriched_spec(item, best, r),
    ensures
        r.thumbnails@.len() <= 1,
{
}

/// Builds the outward record for one item from its selected best thumbnail:
/// the descriptive fields carried over, and zero or one thumbnail entries.
pub fn map_item(item: &Item, best: Option<String>) -> (r: VideoSearchResult)
    ensures
        enriched_spec(*item, opt_text_view(best), r),
{
    let thumbnails: Vec<String> = match best {
        Some(t) => {
            let mut v: Vec<String> = Vec::new();
            v.push(t);
            v
        },
        None => Vec::new(),
    };
    VideoSearchResult {
        id: item.id.video_id.clone(),
        title: item.snippet.title.clone(),
        description: item.snippet.description.clone(),
        thumbnails,
        channel_title: item.snippet.channel_title.clone(),
        publish_time: item.snippet.publish_time.clone(),
        published_at: item.snippet.published_at.clone(),
    }
}

/// Enriches one item from its raw tier fetch results: collapses each tier to
/// its outcome, selects the best by priority, and builds the outward record.
/// Per-tier failures are absorbed; this never fails.
pub fn enrich_item(item: &Item, fetched: &FetchedThumbnails) -> (r: VideoSearchResult)
    ensures
        enriched_spec(*item, item_best_spec(*fetched), r),
{
    let outcomes = ThumbnailOutcomes {
        default_thumbnail: tier_outcome(&fetched.default_thumbnail),
        medium: tier_outcome(&fetched.medium),
        high: tier_outcome(&fetched.high),
    };
    let best = select_best(outcomes);
    map_item(item, best)
}

/// Enriches every item with its fetch results, preserving the upstream
/// order: the record at position `i` of the output is built from the item at
/// position `i` of the input.
pub fn enrich_items(items: &Vec<Item>, fetches: &Vec<FetchedThumbnails>) -> (r: Vec<
    VideoSearchResult,
>)
    requires
        items@.len() == fetches@.len(),
    ensures
        r@.len() == items@.len(),
        forall|i: int|
            0 <= i < items@.len() ==> enriched_spec(
                items@[i],
                item_best_spec(fetches@[i]),
                #[trigger] r@[i],
            ),
{
    let mut out: Vec<VideoSearchResult> = Vec::new();
    let mut idx: usize = 0;
    while idx < items.len()
        invariant
            idx <= items@.len(),
            items@.len() == fetches@.len(),
            out@.len() == idx as int,
            forall|i: int|
                0 <= i < idx as int ==> enriched_spec(
                    items@[i],
                    item_best_spec(fetches@[i]),
                    #[trigger] out@[i],
                ),
        decreases items@.len() - idx,
    {
        let r = enrich_item(&items[idx], &fetches[idx]);
        out.push(r);
        idx = idx + 1;
    }
    out
}

} // verus!
