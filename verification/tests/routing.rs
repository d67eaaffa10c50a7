use poker_relay::router::classify_path;
use poker_relay::router::contains_substr;
use poker_relay::router::outbound_url;
use poker_relay::router::route_message;
use poker_relay::router::target_suffix;
use poker_relay::router::Decision;
use poker_relay::router::RouteError;
use poker_relay::router::Target;

#[test]
fn existence_payload_posts_to_existence_route() {
    let d = route_message(r#"{"path":"/pusher_poker_existence/update","body":{"x":1}}"#);
    assert_eq!(
        d,
        Decision::Post { target: Target::PusherPokerExistence, body: String::from(r#"{"x":1}"#) }
    );
}

#[test]
fn timer_payload_posts_to_timer_route() {
    let d = route_message(r#"{"path":"/poker/timer","body":{"seconds":30}}"#);
    assert_eq!(
        d,
        Decision::Post { target: Target::PokerTimer, body: String::from(r#"{"seconds":30}"#) }
    );
}

#[test]
fn payload_without_path_is_dropped() {
    let d = route_message(r#"{"body":{"x":1}}"#);
    assert_eq!(d, Decision::Reject { reason: RouteError::MissingPath });
}

#[test]
fn payload_with_non_string_path_is_dropped() {
    let d = route_message(r#"{"path":5,"body":{"x":1}}"#);
    assert_eq!(d, Decision::Reject { reason: RouteError::MissingPath });
}

#[test]
fn payload_without_body_is_dropped() {
    let d = route_message(r#"{"path":"/pusher_poker_existence/update"}"#);
    assert_eq!(d, Decision::Reject { reason: RouteError::MissingBody });
}

#[test]
fn malformed_payload_is_dropped() {
    let d = route_message("this is not json");
    assert_eq!(d, Decision::Reject { reason: RouteError::MalformedPayload });
}

#[test]
fn missing_body_is_reported_before_missing_path() {
    let d = route_message(r#"{"other":1}"#);
    assert_eq!(d, Decision::Reject { reason: RouteError::MissingBody });
}

#[test]
fn non_object_payload_has_no_body() {
    let d = route_message("[1,2,3]");
    assert_eq!(d, Decision::Reject { reason: RouteError::MissingBody });
}

#[test]
fn string_body_is_forwarded_as_json_text() {
    let d = route_message(r#"{"path":"/poker/x","body":"hi"}"#);
    assert_eq!(d, Decision::Post { target: Target::PokerTimer, body: String::from(r#""hi""#) });
}

#[test]
fn null_body_counts_as_present() {
    let d = route_message(r#"{"path":"/poker/x","body":null}"#);
    assert_eq!(d, Decision::Post { target: Target::PokerTimer, body: String::from("null") });
}

#[test]
fn nested_body_is_reserialized_canonically() {
    let d = route_message(r#"{"path":"pusher_poker_existence","body": {"a": [1, 2], "b": "c"}}"#);
    assert_eq!(
        d,
        Decision::Post {
            target: Target::PusherPokerExistence,
            body: String::from(r#"{"a":[1,2],"b":"c"}"#)
        }
    );
}

#[test]
fn marker_anywhere_in_path_selects_existence() {
    assert_eq!(classify_path("xxpusher_poker_existenceyy"), Target::PusherPokerExistence);
    assert_eq!(classify_path("pusher_poker_existence"), Target::PusherPokerExistence);
    assert_eq!(classify_path("/api/pusher_poker_existence"), Target::PusherPokerExistence);
}

#[test]
fn path_without_marker_selects_timer() {
    assert_eq!(classify_path(""), Target::PokerTimer);
    assert_eq!(classify_path("/poker/timer"), Target::PokerTimer);
    assert_eq!(classify_path("pusher_poker_existenc"), Target::PokerTimer);
    assert_eq!(classify_path("pusher_poker"), Target::PokerTimer);
}

#[test]
fn substring_search_finds_needles() {
    assert!(contains_substr("hello world", "o w"));
    assert!(contains_substr("hello", "hello"));
    assert!(contains_substr("hello", ""));
    assert!(contains_substr("", ""));
    assert!(contains_substr("aaab", "aab"));
}

#[test]
fn substring_search_rejects_absent_needles() {
    assert!(!contains_substr("", "a"));
    assert!(!contains_substr("hello", "hello!"));
    assert!(!contains_substr("abab", "aba b"));
    assert!(!contains_substr("ab", "ba"));
}

#[test]
fn substring_search_handles_multibyte_text() {
    assert!(contains_substr("größer_pusher_poker_existence_π", "pusher_poker_existence"));
    assert!(!contains_substr("größer", "grösser"));
}

#[test]
fn target_suffixes_are_the_fixed_routes() {
    assert_eq!(target_suffix(Target::PusherPokerExistence), "pusher_poker_existence");
    assert_eq!(target_suffix(Target::PokerTimer), "poker_timer");
}

#[test]
fn outbound_urls_point_at_the_local_service() {
    assert_eq!(
        outbound_url(Target::PusherPokerExistence),
        String::from("http://localhost:3000/api/pusher_poker_existence")
    );
    assert_eq!(
        outbound_url(Target::PokerTimer),
        String::from("http://localhost:3000/api/poker_timer")
    );
}

#[test]
fn drop_reasons_describe_themselves() {
    assert_eq!(RouteError::MalformedPayload.describe(), "payload is not valid JSON");
    assert_eq!(RouteError::MissingBody.describe(), "no body found");
    assert_eq!(RouteError::MissingPath.describe(), "no string path found");
}
