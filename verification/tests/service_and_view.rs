use shredlink::limiter::{admit_creation, CreateRateLimiter};
use shredlink::model::LinkRow;
use shredlink::service::{
    compute_expires_at, evaluate_share, generate_token, prepare_link, share_url, unlock_step,
    share_step, ShareDecision, ShareOutcome, UnlockOutcome,
};
use shredlink::model::CreateRequest;
use shredlink::view::{content_view_html, html_escape, render_content_page};

const DEV_KEY: &str = "AAAAAAAAAAAAAAAAAAAAAAAAAAAAAAAAAAAAAAAAAAA=";
const NOW: i64 = 1_700_000_000;

fn request(text: &str) -> CreateRequest {
    CreateRequest {
        text: String::from(text),
        password: None,
        expire_minutes: None,
        expire_hours: None,
        one_time_view: false,
        one_time_password: false,
    }
}

fn live_row(encrypted_text: String) -> LinkRow {
    LinkRow {
        id: 1,
        token: String::from("sixteen-chars-tk"),
        encrypted_text,
        password_hash: None,
        expires_at: None,
        one_time_view: 0,
        one_time_password: 0,
        view_count: 0,
        password_used: 0,
        created_at: NOW,
    }
}

#[test]
fn tokens_are_long_random_and_url_safe() {
    let a = generate_token();
    let b = generate_token();
    assert_eq!(a.chars().count(), 16);
    assert_ne!(a, b);
    for c in a.chars() {
        assert!(c == '_' || c == '-' || c.is_ascii_alphanumeric());
    }
}

#[test]
fn expiry_formula_is_minutes_plus_hours() {
    assert_eq!(compute_expires_at(Some(2), Some(1), 1000), Some(1000 + 62 * 60));
    assert_eq!(compute_expires_at(Some(90), None, 0), Some(90 * 60));
    assert_eq!(compute_expires_at(None, Some(3), 50), Some(50 + 180 * 60));
}

#[test]
fn non_positive_duration_means_no_expiry() {
    assert_eq!(compute_expires_at(Some(0), None, NOW), None);
    assert_eq!(compute_expires_at(None, None, NOW), None);
    assert_eq!(compute_expires_at(Some(0), Some(0), NOW), None);
}

#[test]
fn share_url_joins_base_and_token() {
    assert_eq!(share_url("http://h:1", "tok"), "http://h:1/s/tok");
    assert_eq!(share_url("http://h:1/", "tok"), "http://h:1/s/tok");
    assert_eq!(share_url("http://h:1///", "tok"), "http://h:1/s/tok");
    assert_eq!(share_url("", "tok"), "/s/tok");
}

#[test]
fn prepare_link_round_trips_through_the_store_row() {
    let prepared = prepare_link(&request("payload"), NOW, 100_000, DEV_KEY).unwrap();
    assert_eq!(prepared.token.chars().count(), 16);
    assert!(prepared.password_hash.is_none());
    assert_eq!(prepared.expires_at, None);
    let row = live_row(prepared.encrypted_text);
    match share_step(Some(&row), NOW, DEV_KEY) {
        ShareOutcome::Disclosed(text) => assert_eq!(text, "payload"),
        _ => panic!("prepared payload must disclose"),
    }
}

#[test]
fn share_decision_prefers_dead_over_gated() {
    let mut row = live_row(String::from("blob"));
    row.password_hash = Some(String::from("$argon2id$fake"));
    row.expires_at = Some(NOW - 1);
    assert_eq!(evaluate_share(Some(&row), NOW), ShareDecision::Gone);
    row.expires_at = None;
    assert_eq!(evaluate_share(Some(&row), NOW), ShareDecision::RequiresUnlock);
    row.password_hash = Some(String::new());
    assert_eq!(evaluate_share(Some(&row), NOW), ShareDecision::Disclose);
    assert_eq!(evaluate_share(None, NOW), ShareDecision::NotFound);
}

#[test]
fn corrupted_record_is_a_crypto_failure_not_a_disclosure() {
    let row = live_row(String::from("AAAAAAAAAAAAAAAAAAAAAAAAAAAAAAAAAAAAAAAA"));
    assert!(matches!(share_step(Some(&row), NOW, DEV_KEY), ShareOutcome::CryptoFailure));
}

#[test]
fn unlock_step_requires_a_real_password() {
    let row = live_row(String::from("blob"));
    assert!(matches!(
        unlock_step(Some(&row), "pw", NOW, DEV_KEY),
        UnlockOutcome::NotProtected
    ));
    assert!(matches!(unlock_step(None, "pw", NOW, DEV_KEY), UnlockOutcome::NotFound));
}

#[test]
fn html_escape_rewrites_the_special_characters() {
    assert_eq!(html_escape("a<b&c>\"d"), "a&lt;b&amp;c&gt;&quot;d");
    assert_eq!(html_escape(""), "");
    assert_eq!(html_escape("plain"), "plain");
    assert_eq!(html_escape("&&"), "&amp;&amp;");
    assert_eq!(html_escape("caf\u{e9}"), "caf\u{e9}");
}

#[test]
fn content_page_embeds_display_and_payload() {
    let page = content_view_html("shown &amp; escaped", "\"raw\"");
    assert!(page.contains(">shown &amp; escaped</pre>"));
    assert!(page.contains("id=\"content-payload\">\"raw\"</script>"));
    assert!(page.starts_with("<!DOCTYPE html>"));
    assert!(page.ends_with("</body></html>"));
}

#[test]
fn content_page_defuses_closing_script_tags() {
    let page = content_view_html("x", "\"a</script>b</script>\"");
    assert!(page.contains("id=\"content-payload\">\"a<\\/script>b<\\/script>\"</script>"));
}

#[test]
fn rendered_page_escapes_html_and_json() {
    let page = render_content_page("<b>&\"</b>");
    assert!(page.contains(">&lt;b&gt;&amp;&quot;&lt;/b&gt;</pre>"));
    // serde_json escapes the quote; the rest passes through
    assert!(page.contains("id=\"content-payload\">\"<b>&\\\"</b>\"</script>"));
}

#[test]
fn limiter_allows_up_to_quota_per_minute() {
    let limiter = CreateRateLimiter::new(2);
    let ip = Some("203.0.113.7");
    assert!(admit_creation(&limiter, ip));
    assert!(admit_creation(&limiter, ip));
    assert!(!admit_creation(&limiter, ip));
    // another client has its own budget
    assert!(admit_creation(&limiter, Some("203.0.113.8")));
}

#[test]
fn unresolvable_client_skips_admission() {
    let limiter = CreateRateLimiter::new(1);
    assert!(admit_creation(&limiter, None));
    assert!(admit_creation(&limiter, None));
    assert!(admit_creation(&limiter, None));
}

#[test]
fn zero_quota_is_raised_to_one() {
    let limiter = CreateRateLimiter::new(0);
    assert!(admit_creation(&limiter, Some("198.51.100.1")));
    assert!(!admit_creation(&limiter, Some("198.51.100.1")));
}
