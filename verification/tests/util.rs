//! Signatures, hexadecimal text, rate limiting and text helpers.

use aelita::util::crypto::{from_hex, generate_sha1_hmac, hmac_matches, to_hex, verify_sha1_hmac};
use aelita::util::github_headers::{accept_signed, event_kind, parse, parse_signature, EventKind, WebhookRequest};
use aelita::util::rate_limited_client::RateLimiter;
use aelita::db::Builder;
use aelita::ui::github::{Pr, Repo, Worker};
use aelita::util::{parse_opt_url, retry_after_failure, MAX_DELAY_SEC, MIN_DELAY_SEC};

const FOX: &[u8] = b"The quick brown fox jumps over the lazy dog";
const FOX_HMAC: &str = "de7c9b85b8b78aa6bc8a7a36f70a90701c9db4d9";

#[test]
fn test_empty_signature() {
    assert!(parse_signature(&[]).is_none());
    assert!(parse_signature(&[b' ']).is_none());
}

#[test]
fn signature_header_is_parsed() {
    let header = format!("sha1={}", FOX_HMAC);
    let sig = parse_signature(header.as_bytes()).unwrap();
    assert_eq!(sig.len(), 20);
    assert_eq!(to_hex(&sig), FOX_HMAC);
}

#[test]
fn signature_header_with_bad_hex_is_refused() {
    let header = format!("sha1={}", "zz7c9b85b8b78aa6bc8a7a36f70a90701c9db4d9");
    assert!(parse_signature(header.as_bytes()).is_none());
    let short = format!("sha1={}", &FOX_HMAC[2..]);
    assert!(parse_signature(short.as_bytes()).is_none());
}

#[test]
fn hmac_of_known_vector() {
    let sig = generate_sha1_hmac(b"key", FOX).unwrap();
    assert_eq!(to_hex(&sig), FOX_HMAC);
    assert!(verify_sha1_hmac(b"key", FOX, &sig));
    assert!(!verify_sha1_hmac(b"other", FOX, &sig));
    assert!(!verify_sha1_hmac(b"key", b"another text", &sig));
    assert!(!verify_sha1_hmac(b"key", FOX, &sig[1..]));
}

#[test]
fn hex_round_trip() {
    assert_eq!(from_hex(b"00ff10Ab").unwrap(), vec![0x00, 0xff, 0x10, 0xab]);
    assert_eq!(to_hex(&[0x00, 0xff, 0x10, 0xab]), "00ff10ab");
    assert!(from_hex(b"abc").is_none());
    assert!(from_hex(b"zz").is_none());
    assert_eq!(from_hex(b"").unwrap(), Vec::<u8>::new());
}

#[test]
fn webhook_with_good_signature_passes() {
    let body = b"{\"zen\":\"hi\"}".to_vec();
    let sig = to_hex(&generate_sha1_hmac(b"ME_SECRET_LOL", &body).unwrap());
    let req = WebhookRequest {
        event: b"ping".to_vec(),
        signature: format!("sha1={}", sig).into_bytes(),
        body: body.clone(),
    };
    let (event, got) = parse(req, b"ME_SECRET_LOL").unwrap();
    assert_eq!(event, b"ping".to_vec());
    assert_eq!(got, body);
}

#[test]
fn webhook_with_wrong_signature_is_dropped() {
    let body = b"{\"zen\":\"hi\"}".to_vec();
    let sig = to_hex(&generate_sha1_hmac(b"another secret", &body).unwrap());
    let req = WebhookRequest { event: b"ping".to_vec(), signature: format!("sha1={}", sig).into_bytes(), body };
    assert!(parse(req, b"ME_SECRET_LOL").is_none());
    let req = WebhookRequest { event: b"ping".to_vec(), signature: vec![], body: vec![] };
    assert!(parse(req, b"ME_SECRET_LOL").is_none());
}

#[test]
fn event_kinds() {
    assert_eq!(event_kind(b"issue_comment"), EventKind::IssueComment);
    assert_eq!(event_kind(b"pull_request"), EventKind::PullRequest);
    assert_eq!(event_kind(b"status"), EventKind::Status);
    assert_eq!(event_kind(b"ping"), EventKind::Ping);
    assert_eq!(event_kind(b"push"), EventKind::Other);
    assert_eq!(event_kind(b""), EventKind::Other);
}

#[test]
fn rate_limiter_waits_until_reset() {
    let mut limiter = RateLimiter::new();
    assert_eq!(limiter.wait_before_send(1_000_000), 0);
    limiter.record_response(Some(b"1"), Some(b"2000"), 1_500_000);
    assert_eq!(limiter.rate_limit_until, Some(2_000_000));
    assert_eq!(limiter.wait_before_send(2_500_000), 500_000);
    assert_eq!(limiter.rate_limit_until, None);
}

#[test]
fn rate_limiter_past_reset_waits_the_minimum() {
    let mut limiter = RateLimiter::new();
    limiter.record_response(Some(b"0"), Some(b"1"), 5_000);
    assert_eq!(limiter.rate_limit_until, Some(65_000));
    assert_eq!(limiter.wait_before_send(1_000), 60_000);
}

#[test]
fn rate_limiter_ignores_plenty_left() {
    let mut limiter = RateLimiter::new();
    limiter.record_response(Some(b"2"), Some(b"2000"), 1_000);
    assert_eq!(limiter.rate_limit_until, None);
    limiter.record_response(None, Some(b"2000"), 1_000);
    assert_eq!(limiter.rate_limit_until, None);
    limiter.record_response(Some(b"+1"), None, 1_000);
    assert_eq!(limiter.rate_limit_until, None);
    limiter.record_response(Some(b"1"), Some(b"soon"), 1_000);
    assert_eq!(limiter.rate_limit_until, Some(61_000));
}

#[test]
fn rate_limit_headers_read_as_decimal_numbers() {
    let mut limiter = RateLimiter::new();
    limiter.record_response(Some(b"+1"), Some(b"+2000"), 1_000);
    assert_eq!(limiter.rate_limit_until, Some(2_000_000));
    let mut limiter = RateLimiter::new();
    limiter.record_response(Some(b"1"), Some(b"18446744073709551616"), 1_000);
    assert_eq!(limiter.rate_limit_until, Some(61_000));
    let mut limiter = RateLimiter::new();
    limiter.record_response(Some(b"1"), Some(&[0xff, b'2']), 1_000);
    assert_eq!(limiter.rate_limit_until, Some(61_000));
    let mut limiter = RateLimiter::new();
    limiter.record_response(Some(b"1"), Some(b"+"), 1_000);
    assert_eq!(limiter.rate_limit_until, Some(61_000));
    let mut limiter = RateLimiter::new();
    limiter.record_response(Some(b"001"), Some(b"0002000"), 1_000);
    assert_eq!(limiter.rate_limit_until, Some(2_000_000));
    let mut limiter = RateLimiter::new();
    limiter.record_response(Some(b"1"), Some(b"18446744073709551615"), 1_000);
    assert_eq!(limiter.rate_limit_until, Some(u64::MAX));
    let mut limiter = RateLimiter::new();
    limiter.record_response(Some(b"1"), Some(b"1"), u64::MAX - 10);
    assert_eq!(limiter.rate_limit_until, Some(u64::MAX));
}

#[test]
fn retry_delay_doubles_then_gives_up() {
    assert_eq!(RateLimiter::next_retry_delay(50), Some(100));
    assert_eq!(RateLimiter::next_retry_delay(u64::MAX / 2), None);
    assert_eq!(RateLimiter::next_retry_delay(60_999), Some(121_998));
    assert_eq!(RateLimiter::next_retry_delay(61_000), None);
}

#[test]
fn text_helpers() {
    assert!(matches!(Builder::from_str("postgresql://x"), Ok(Builder::Postgres(ref d, _)) if d == "postgresql://x"));
    assert!(matches!(Builder::from_str("postgres"), Ok(Builder::Sqlite(ref p)) if p == "postgres"));
    let repo = Repo { owner: "o".to_owned(), repo: "r".to_owned() };
    assert_eq!(Worker::comments_url("h", &repo, Pr(0)), "h/repos/o/r/issues/0/comments");
    assert_eq!(Worker::comments_url("h", &repo, Pr(4096)), "h/repos/o/r/issues/4096/comments");
    assert_eq!(parse_opt_url(&Some("http://example.com".to_owned())).unwrap(), "http://example.com/");
    assert!(parse_opt_url(&Some("not a url".to_owned())).is_none());
    assert!(parse_opt_url(&None).is_none());
}

#[test]
fn computed_hmac_is_compared_with_the_signature() {
    let expected = from_hex(FOX_HMAC.as_bytes()).unwrap();
    assert!(hmac_matches(&Some(expected.clone()), &expected));
    let mut other = expected.clone();
    other[0] ^= 1;
    assert!(!hmac_matches(&Some(expected.clone()), &other));
    assert!(!hmac_matches(&Some(expected.clone()), &expected[1..]));
    assert!(!hmac_matches(&None, &expected));
}

#[test]
fn signed_request_is_accepted_for_its_hmac_only() {
    let expected = from_hex(FOX_HMAC.as_bytes()).unwrap();
    let request = |signature: String| WebhookRequest {
        event: b"ping".to_vec(),
        signature: signature.into_bytes(),
        body: FOX.to_vec(),
    };
    let accepted = accept_signed(request(format!("sha1={}", FOX_HMAC)), Some(expected.clone()));
    assert_eq!(accepted, Some((b"ping".to_vec(), FOX.to_vec())));
    assert!(accept_signed(request(format!("sha1={}", FOX_HMAC)), None).is_none());
    assert!(accept_signed(request(format!("sha1={}", &FOX_HMAC[2..])), Some(expected.clone())).is_none());
    let mut other = expected.clone();
    other[19] ^= 0x80;
    assert!(accept_signed(request(format!("sha1={}", FOX_HMAC)), Some(other)).is_none());
}

#[test]
fn store_retries_double_then_give_up() {
    let mut delay = MIN_DELAY_SEC;
    let mut waits = Vec::new();
    while let Some(next) = retry_after_failure(delay) {
        waits.push(delay);
        delay = next;
    }
    assert_eq!(waits, vec![1, 2, 4, 8, 16, 32, 64]);
    assert_eq!(retry_after_failure(MAX_DELAY_SEC), Some(240));
    assert_eq!(retry_after_failure(MAX_DELAY_SEC + 1), None);
}
