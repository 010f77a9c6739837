use video_search::model::{default_max_result, default_part, default_type, QueryParams};
use video_search::search::{u8_to_dec, SearchConfig};

#[test]
fn defaults_match_the_documented_values() {
    assert_eq!(default_part(), "snippet");
    assert_eq!(default_type(), "video");
    assert_eq!(default_max_result(), 50);
}

#[test]
fn new_query_takes_the_defaults() {
    let p = QueryParams::new("kittens".to_string());
    assert_eq!(p.part, "snippet");
    assert_eq!(p.resource_type, "video");
    assert_eq!(p.q, "kittens");
    assert_eq!(p.max_result, 50);
}

#[test]
fn decimal_rendering_of_small_numbers() {
    assert_eq!(u8_to_dec(0), "0");
    assert_eq!(u8_to_dec(5), "5");
    assert_eq!(u8_to_dec(9), "9");
}

#[test]
fn decimal_rendering_of_two_digit_numbers() {
    assert_eq!(u8_to_dec(10), "10");
    assert_eq!(u8_to_dec(50), "50");
    assert_eq!(u8_to_dec(99), "99");
}

#[test]
fn decimal_rendering_of_three_digit_numbers() {
    assert_eq!(u8_to_dec(100), "100");
    assert_eq!(u8_to_dec(205), "205");
    assert_eq!(u8_to_dec(255), "255");
}

#[test]
fn search_url_has_every_parameter_in_order() {
    let config = SearchConfig::new("secret-key".to_string(), "https://api.example".to_string());
    let query = QueryParams::new("cats".to_string());
    let url = config.build_search_url(&query);
    assert_eq!(
        url,
        "https://api.example/youtube/v3/search?part=snippet&q=cats&type=video&maxResults=50&key=secret-key"
    );
}
