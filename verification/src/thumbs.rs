//! Thumbnail enrichment: base64 encoding of fetched bytes, the per-tier
//! outcome, and the selection of the best thumbnail by fixed quality
//! priority (`default`, then `medium`, then `high`).

use vstd::prelude::*;
use vstd::string::StrSliceExecFns;

use crate::errors::FetchError;

verus! {

/// The base64 text (standard alphabet, padded) of `bytes`. The encoding
/// depends on the bytes alone.
pub uninterp spec fn base64_of(bytes: Seq<u8>) -> Seq<char>;

/// Whether a body of `n` bytes can be base64-encoded here: its encoded
/// length must fit in `usize`.
pub open spec fn encodable(n: nat) -> bool {
    n <= usize::MAX as nat / 4 * 3
}

/// Relies on `base64::engine::general_purpose::STANDARD` through
/// `base64::Engine::encode`: standard alphabet with padding, four output
/// characters for every three input bytes. The length bound keeps the
/// engine's output-size computation from overflowing, on which it panics.
#[verifier::external_body]
fn encode_base64(bytes: &Vec<u8>) -> (r: String)
    requires
        encodable(bytes@.len()),
    ensures
        r@ == base64_of(bytes@),
        r@.len() == 4 * ((bytes@.len() + 2) / 3),
{
    <base64::engine::general_purpose::GeneralPurpose as base64::Engine>::encode(
        &base64::engine::general_purpose::STANDARD,
        bytes,
    )
}

/// What one quality tier contributed after its fetch completed: the encoded
/// image on success, and absence otherwise — a tier that was missing and a
/// tier whose fetch failed both collapse to `Absent`.
#[derive(Debug, PartialEq, Eq)]
pub enum TierOutcome {
    Success(String),
    Absent,
}

impl View for TierOutcome {
    type V = Option<Seq<char>>;

    open spec fn view(&self) -> Option<Seq<char>> {
        match self {
            TierOutcome::Success(s) => Some(s@),
            TierOutcome::Absent => None,
        }
    }
}

/// The tier outcome that a raw fetch result collapses to: the base64 text of
/// the body on success, absence for a missing tier, a failed fetch, or a
/// body too large to encode.
pub open spec fn outcome_view(f: Option<Result<Vec<u8>, FetchError>>) -> Option<Seq<char>> {
    match f {
        Some(Ok(b)) => if encodable(b@.len()) {
            Some(base64_of(b@))
        } else {
            None
        },
        _ => None,
    }
}

/// Collapses one tier's raw fetch result. `None` means the tier was absent
/// upstream; `Some(Err(_))` means its fetch failed. Both become `Absent`;
/// only a fetched, encodable body becomes `Success`.
pub fn tier_outcome(f: &Option<Result<Vec<u8>, FetchError>>) -> (r: TierOutcome)
    ensures
        r@ == outcome_view(*f),
{
    match f {
        Some(Ok(bytes)) => {
            if bytes.len() <= usize::MAX / 4 * 3 {
                TierOutcome::Success(encode_base64(bytes))
            } else {
                TierOutcome::Absent
            }
        },
        _ => TierOutcome::Absent,
    }
}

/// The three tier outcomes of one item, all fetches completed.
#[derive(Debug)]
pub struct ThumbnailOutcomes {
    pub default_thumbnail: TierOutcome,
    pub medium: TierOutcome,
    pub high: TierOutcome,
}

impl View for ThumbnailOutcomes {
    type V = (Option<Seq<char>>, Option<Seq<char>>, Option<Seq<char>>);

    open spec fn view(&self) -> (Option<Seq<char>>, Option<Seq<char>>, Option<Seq<char>>) {
        (self.default_thumbnail@, self.medium@, self.high@)
    }
}

/// The selection rule: the first tier with a result, in the fixed priority
/// order `default`, `medium`, `high`; `None` when no tier has one.
pub open spec fn best_of(d: Option<Seq<char>>, m: Option<Seq<char>>, h: Option<Seq<char>>) -> Option<
    Seq<char>,
> {
    if d is Some {
        d
    } else if m is Some {
        m
    } else {
        h
    }
}

/// The view of an optional encoded image.
pub open spec fn opt_text_view(o: Option<String>) -> Option<Seq<char>> {
    match o {
        Some(s) => Some(s@),
        None => None,
    }
}

/// Picks the best thumbnail among the completed tier outcomes, by the fixed
/// priority `default` over `medium` over `high`. Never an error: when every
/// tier is `Absent` the result is simply `None`.
pub fn select_best(outcomes: ThumbnailOutcomes) -> (r: Option<String>)
    ensures
        opt_text_view(r) == best_of(
            outcomes.default_thumbnail@,
            outcomes.medium@,
            outcomes.high@,
        ),
{
    match outcomes.default_thumbnail {
        TierOutcome::Success(s) => Some(s),
        TierOutcome::Absent => match outcomes.medium {
            TierOutcome::Success(s) => Some(s),
            TierOutcome::Absent => match outcomes.high {
                TierOutcome::Success(s) => Some(s),
                TierOutcome::Absent => None,
            },
        },
    }
}

/// Law: when exactly one tier has a successful outcome, the selection
/// returns that tier's encoding.
pub proof fn lemma_select_single(d: Option<Seq<char>>, m: Option<Seq<char>>, h: Option<Seq<char>>)
    requires
        (d is Some && m is None && h is None) || (d is None && m is Some && h is None) || (d is None
            && m is None && h is Some),
    ensures
        d is Some ==> best_of(d, m, h) == d,
        m is Some ==> best_of(d, m, h) == m,
        h is Some ==> best_of(d, m, h) == h,
{
}

/// Law: selection follows the fixed priority order, whatever the set of
/// successful tiers. The rule reads only the completed outcomes, so the
/// order in which the fetches finished cannot influence the choice: a
/// lower-priority tier never wins while a higher-priority one succeeded.
pub proof fn lemma_select_priority(d: Option<Seq<char>>, m: Option<Seq<char>>, h: Option<Seq<char>>)
    ensures
        d is Some ==> best_of(d, m, h) == d,
        d is None && m is Some ==> best_of(d, m, h) == m,
        d is None && m is None ==> best_of(d, m, h) == h,
{
}

/// Law: when every tier is absent or failed, the selection returns no
/// result — not an error.
pub proof fn lemma_select_all_failed(
    d: Option<Seq<char>>,
    m: Option<Seq<char>>,
    h: Option<Seq<char>>,
)
    requires
        d is None,
        m is None,
        h is None,
    ensures
        best_of(d, m, h) is None,
{
}

/// The prefix of `s` shown in diagnostics: at most `max_chars` characters,
/// clamped to the length of `s`. Never panics on a short `s`.
pub fn thumbnail_preview(s: &str, max_chars: usize) -> (r: &str)
    ensures
        r@ == s@.take(if max_chars as int <= s@.len() {
            max_chars as int
        } else {
            s@.len() as int
        }),
{
    let len = s.unicode_len();
    let n = if max_chars < len {
        max_chars
    } else {
        len
    };
    s.substring_char(0, n)
}

} // verus!
