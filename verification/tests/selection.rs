use video_search::errors::FetchError;
use video_search::thumbs::{select_best, thumbnail_preview, tier_outcome, ThumbnailOutcomes, TierOutcome};

fn b64(bytes: &[u8]) -> String {
    <base64::engine::general_purpose::GeneralPurpose as base64::Engine>::encode(
        &base64::engine::general_purpose::STANDARD,
        bytes,
    )
}

#[test]
fn tier_outcome_encodes_fetched_bytes() {
    let r = tier_outcome(&Some(Ok(b"hello".to_vec())));
    assert_eq!(r, TierOutcome::Success("aGVsbG8=".to_string()));
    assert_eq!(r, TierOutcome::Success(b64(b"hello")));
}

#[test]
fn tier_outcome_absorbs_failure_and_absence() {
    assert_eq!(tier_outcome(&Some(Err(FetchError))), TierOutcome::Absent);
    assert_eq!(tier_outcome(&None), TierOutcome::Absent);
}

#[test]
fn select_best_single_default_present_and_successful() {
    let outs = ThumbnailOutcomes {
        default_thumbnail: TierOutcome::Success("dflt".to_string()),
        medium: TierOutcome::Absent,
        high: TierOutcome::Absent,
    };
    assert_eq!(select_best(outs), Some("dflt".to_string()));
}

#[test]
fn select_best_single_medium_present_and_successful() {
    let outs = ThumbnailOutcomes {
        default_thumbnail: TierOutcome::Absent,
        medium: TierOutcome::Success("med".to_string()),
        high: TierOutcome::Absent,
    };
    assert_eq!(select_best(outs), Some("med".to_string()));
}

#[test]
fn select_best_single_high_present_and_successful() {
    let outs = ThumbnailOutcomes {
        default_thumbnail: TierOutcome::Absent,
        medium: TierOutcome::Absent,
        high: TierOutcome::Success("high".to_string()),
    };
    assert_eq!(select_best(outs), Some("high".to_string()));
}

#[test]
fn select_best_prefers_default_over_all() {
    let outs = ThumbnailOutcomes {
        default_thumbnail: TierOutcome::Success("dflt".to_string()),
        medium: TierOutcome::Success("med".to_string()),
        high: TierOutcome::Success("high".to_string()),
    };
    assert_eq!(select_best(outs), Some("dflt".to_string()));
}

#[test]
fn select_best_prefers_medium_over_high_when_default_absent() {
    let outs = ThumbnailOutcomes {
        default_thumbnail: TierOutcome::Absent,
        medium: TierOutcome::Success("med".to_string()),
        high: TierOutcome::Success("high".to_string()),
    };
    assert_eq!(select_best(outs), Some("med".to_string()));
}

#[test]
fn select_best_all_failed_is_no_result() {
    let outs = ThumbnailOutcomes {
        default_thumbnail: TierOutcome::Absent,
        medium: TierOutcome::Absent,
        high: TierOutcome::Absent,
    };
    assert_eq!(select_best(outs), None);
}

#[test]
fn preview_clamps_to_short_text() {
    assert_eq!(thumbnail_preview("short", 50), "short");
    assert_eq!(thumbnail_preview("", 50), "");
}

#[test]
fn preview_truncates_long_text() {
    assert_eq!(thumbnail_preview("abcdef", 3), "abc");
}
