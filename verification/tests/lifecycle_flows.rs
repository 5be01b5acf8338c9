use shredlink::lifecycle::is_link_expired_or_consumed;
use shredlink::model::{Config, CreateRequest, LinkRow};
use shredlink::service::{CreateError, ShareOutcome, UnlockOutcome};
use shredlink::service::prepare_link;
use shredlink::store::{create_link, get_share_page, unlock_link, LinkStore, StoreError};

const DEV_KEY: &str = "AAAAAAAAAAAAAAAAAAAAAAAAAAAAAAAAAAAAAAAAAAA=";
const NOW: i64 = 1_700_000_000;

fn config() -> Config {
    Config {
        host: String::from("127.0.0.1"),
        port: 8080,
        database_url: String::from("sqlite:data/shredlink.db?mode=rwc"),
        encryption_key_base64: String::from(DEV_KEY),
        create_rate_limit_per_minute: 10,
        max_text_size_bytes: 100_000,
        cleanup_interval_secs: 600,
        base_url: String::from("http://127.0.0.1:8080"),
    }
}

fn request(text: &str) -> CreateRequest {
    CreateRequest {
        text: String::from(text),
        password: None,
        expire_minutes: None,
        expire_hours: None,
        one_time_view: false,
        one_time_password: false,
    }
}

fn row(id: i64, expires_at: Option<i64>) -> LinkRow {
    LinkRow {
        id,
        token: format!("token{:011}", id),
        encrypted_text: String::from("irrelevant"),
        password_hash: None,
        expires_at,
        one_time_view: 0,
        one_time_password: 0,
        view_count: 0,
        password_used: 0,
        created_at: NOW,
    }
}

#[test]
fn create_then_view_discloses_the_text() {
    let mut store = LinkStore::new();
    let resp = create_link(&mut store, &request("hello there"), &config(), NOW).unwrap();
    assert_eq!(resp.token.len(), 16);
    assert_eq!(resp.url, format!("http://127.0.0.1:8080/s/{}", resp.token));
    match get_share_page(&mut store, &resp.token, &config(), NOW) {
        ShareOutcome::Disclosed(text) => assert_eq!(text, "hello there"),
        _ => panic!("expected disclosure"),
    }
}

#[test]
fn create_rejects_empty_text() {
    let mut store = LinkStore::new();
    let err = create_link(&mut store, &request(""), &config(), NOW).unwrap_err();
    assert_eq!(err, CreateError::TextRequired);
    assert_eq!(store.len(), 0);
}

#[test]
fn create_rejects_oversized_text() {
    let mut store = LinkStore::new();
    let mut cfg = config();
    cfg.max_text_size_bytes = 4;
    let err = create_link(&mut store, &request("12345"), &cfg, NOW).unwrap_err();
    assert_eq!(err, CreateError::TextTooLarge);
    assert_eq!(store.len(), 0);
}

#[test]
fn unknown_token_is_not_found() {
    let mut store = LinkStore::new();
    assert!(matches!(
        get_share_page(&mut store, "nosuchtoken16chr", &config(), NOW),
        ShareOutcome::NotFound
    ));
    assert!(matches!(
        unlock_link(&mut store, "nosuchtoken16chr", "pw", &config(), NOW),
        UnlockOutcome::NotFound
    ));
}

#[test]
fn one_time_view_link_dies_after_first_view() {
    // create {text:"secret", expire_minutes:0, one_time_view:true}; the first
    // retrieval discloses "secret", the second answers gone.
    let mut store = LinkStore::new();
    let mut req = request("secret");
    req.expire_minutes = Some(0);
    req.one_time_view = true;
    let resp = create_link(&mut store, &req, &config(), NOW).unwrap();
    match get_share_page(&mut store, &resp.token, &config(), NOW) {
        ShareOutcome::Disclosed(text) => assert_eq!(text, "secret"),
        _ => panic!("first retrieval must disclose"),
    }
    assert!(matches!(
        get_share_page(&mut store, &resp.token, &config(), NOW),
        ShareOutcome::Gone
    ));
}

#[test]
fn reusable_link_can_be_viewed_twice() {
    let mut store = LinkStore::new();
    let resp = create_link(&mut store, &request("again"), &config(), NOW).unwrap();
    for _ in 0..2 {
        match get_share_page(&mut store, &resp.token, &config(), NOW) {
            ShareOutcome::Disclosed(text) => assert_eq!(text, "again"),
            _ => panic!("expected disclosure"),
        }
    }
}

#[test]
fn one_time_password_link_unlocks_exactly_once() {
    // create {text:"x", password:"pw", one_time_password:true}: a wrong
    // password leaves the link retrievable, the first correct password
    // returns the text, a second correct attempt answers gone.
    let mut store = LinkStore::new();
    let mut req = request("x");
    req.password = Some(String::from("pw"));
    req.one_time_password = true;
    let resp = create_link(&mut store, &req, &config(), NOW).unwrap();

    assert!(matches!(
        get_share_page(&mut store, &resp.token, &config(), NOW),
        ShareOutcome::RequiresUnlock
    ));
    assert!(matches!(
        unlock_link(&mut store, &resp.token, "bad", &config(), NOW),
        UnlockOutcome::WrongPassword
    ));
    // the wrong attempt eroded nothing: the link still asks to be unlocked
    assert!(matches!(
        get_share_page(&mut store, &resp.token, &config(), NOW),
        ShareOutcome::RequiresUnlock
    ));
    match unlock_link(&mut store, &resp.token, "pw", &config(), NOW) {
        UnlockOutcome::Unlocked { text, consume_password } => {
            assert_eq!(text, "x");
            assert!(consume_password);
        },
        _ => panic!("correct password must unlock"),
    }
    assert!(matches!(
        unlock_link(&mut store, &resp.token, "pw", &config(), NOW),
        UnlockOutcome::Gone
    ));
    assert!(matches!(
        get_share_page(&mut store, &resp.token, &config(), NOW),
        ShareOutcome::Gone
    ));
}

#[test]
fn password_link_without_one_time_stays_unlockable() {
    let mut store = LinkStore::new();
    let mut req = request("multi");
    req.password = Some(String::from("s3cret"));
    let resp = create_link(&mut store, &req, &config(), NOW).unwrap();
    for _ in 0..2 {
        match unlock_link(&mut store, &resp.token, "s3cret", &config(), NOW) {
            UnlockOutcome::Unlocked { text, consume_password } => {
                assert_eq!(text, "multi");
                assert!(!consume_password);
            },
            _ => panic!("password link must stay unlockable"),
        }
    }
}

#[test]
fn empty_password_is_no_protection() {
    let mut store = LinkStore::new();
    let mut req = request("open");
    req.password = Some(String::new());
    let resp = create_link(&mut store, &req, &config(), NOW).unwrap();
    match get_share_page(&mut store, &resp.token, &config(), NOW) {
        ShareOutcome::Disclosed(text) => assert_eq!(text, "open"),
        _ => panic!("empty password must not gate"),
    }
    assert!(matches!(
        unlock_link(&mut store, &resp.token, "anything", &config(), NOW),
        UnlockOutcome::NotProtected
    ));
}

#[test]
fn expired_link_is_gone_even_before_any_sweep() {
    let mut store = LinkStore::new();
    let mut req = request("fleeting");
    req.expire_minutes = Some(1);
    let resp = create_link(&mut store, &req, &config(), NOW).unwrap();
    let after = NOW + 61;
    assert!(matches!(
        get_share_page(&mut store, &resp.token, &config(), after),
        ShareOutcome::Gone
    ));
    assert!(matches!(
        unlock_link(&mut store, &resp.token, "pw", &config(), after),
        UnlockOutcome::Gone
    ));
    // the record still physically exists; only the read-time check guards it
    assert_eq!(store.len(), 1);
}

#[test]
fn zero_duration_never_expires_by_time() {
    let mut store = LinkStore::new();
    let mut req = request("stay");
    req.expire_minutes = Some(0);
    let resp = create_link(&mut store, &req, &config(), NOW).unwrap();
    let much_later = NOW + 100 * 365 * 24 * 3600;
    match get_share_page(&mut store, &resp.token, &config(), much_later) {
        ShareOutcome::Disclosed(text) => assert_eq!(text, "stay"),
        _ => panic!("a link without a duration must not expire by time"),
    }
}

#[test]
fn hours_and_minutes_add_up() {
    let mut store = LinkStore::new();
    let mut req = request("timed");
    req.expire_minutes = Some(30);
    req.expire_hours = Some(2);
    let resp = create_link(&mut store, &req, &config(), NOW).unwrap();
    let just_before = NOW + 150 * 60;
    match get_share_page(&mut store, &resp.token, &config(), just_before) {
        ShareOutcome::Disclosed(_) => {},
        _ => panic!("link must still be live at its expiry instant"),
    }
    // one-time-view is off, so only time can kill it
    let just_after = NOW + 150 * 60 + 1;
    assert!(matches!(
        get_share_page(&mut store, &resp.token, &config(), just_after),
        ShareOutcome::Gone
    ));
}

#[test]
fn sweeper_deletes_exactly_the_dead_records() {
    let mut store = LinkStore::new();
    let cfg = config();
    // three live records
    let live_a = create_link(&mut store, &request("a"), &cfg, NOW).unwrap();
    let live_b = create_link(&mut store, &request("b"), &cfg, NOW).unwrap();
    let live_c = create_link(&mut store, &request("c"), &cfg, NOW).unwrap();
    // dead: expired by time
    let mut expired = request("d");
    expired.expire_minutes = Some(1);
    let _ = create_link(&mut store, &expired, &cfg, NOW - 3600).unwrap();
    // dead: view-consumed one-time link
    let mut once = request("e");
    once.one_time_view = true;
    let once_resp = create_link(&mut store, &once, &cfg, NOW).unwrap();
    assert!(matches!(
        get_share_page(&mut store, &once_resp.token, &cfg, NOW),
        ShareOutcome::Disclosed(_)
    ));
    // dead: password-consumed one-time link
    let mut gated = request("f");
    gated.password = Some(String::from("pw"));
    gated.one_time_password = true;
    let gated_resp = create_link(&mut store, &gated, &cfg, NOW).unwrap();
    assert!(matches!(
        unlock_link(&mut store, &gated_resp.token, "pw", &cfg, NOW),
        UnlockOutcome::Unlocked { .. }
    ));

    assert_eq!(store.len(), 6);
    let deleted = store.delete_dead(NOW);
    assert_eq!(deleted, 3);
    assert_eq!(store.len(), 3);
    for resp in [&live_a, &live_b, &live_c] {
        match get_share_page(&mut store, &resp.token, &cfg, NOW) {
            ShareOutcome::Disclosed(_) => {},
            _ => panic!("a live record must survive the sweep untouched"),
        }
    }
}

#[test]
fn sweep_of_live_records_deletes_nothing() {
    let mut store = LinkStore::new();
    let cfg = config();
    for text in ["u", "v"] {
        let _ = create_link(&mut store, &request(text), &cfg, NOW).unwrap();
    }
    assert_eq!(store.delete_dead(NOW), 0);
    assert_eq!(store.len(), 2);
}

#[test]
fn dead_predicate_matches_each_cause() {
    let fresh = row(1, None);
    assert!(!is_link_expired_or_consumed(&fresh, NOW));

    let expired = row(2, Some(NOW - 1));
    assert!(is_link_expired_or_consumed(&expired, NOW));

    let future = row(3, Some(NOW + 1));
    assert!(!is_link_expired_or_consumed(&future, NOW));

    let mut viewed = row(4, None);
    viewed.one_time_view = 1;
    viewed.view_count = 1;
    assert!(is_link_expired_or_consumed(&viewed, NOW));

    let mut unlocked = row(5, None);
    unlocked.one_time_password = 1;
    unlocked.password_used = 1;
    assert!(is_link_expired_or_consumed(&unlocked, NOW));

    let mut viewed_reusable = row(6, None);
    viewed_reusable.view_count = 7;
    assert!(!is_link_expired_or_consumed(&viewed_reusable, NOW));
}

#[test]
fn find_by_token_returns_the_stored_record() {
    let mut store = LinkStore::new();
    let resp = create_link(&mut store, &request("lookup"), &config(), NOW).unwrap();
    let row = store.find_by_token(&resp.token).unwrap();
    assert_eq!(row.token, resp.token);
    assert_eq!(row.view_count, 0);
    assert!(store.find_by_token("absent-token-abc").is_none());
}

#[test]
fn view_count_grows_with_each_disclosure() {
    let mut store = LinkStore::new();
    let resp = create_link(&mut store, &request("counted"), &config(), NOW).unwrap();
    for expected in 1..=3i64 {
        let _ = get_share_page(&mut store, &resp.token, &config(), NOW);
        assert_eq!(store.find_by_token(&resp.token).unwrap().view_count, expected);
    }
}

#[test]
fn bad_key_surfaces_as_internal_error() {
    let mut store = LinkStore::new();
    let mut cfg = config();
    cfg.encryption_key_base64 = String::from("tooShort=");
    let err = create_link(&mut store, &request("x"), &cfg, NOW).unwrap_err();
    assert_eq!(err, CreateError::Internal);
    assert_eq!(store.len(), 0);
}

#[test]
fn duplicate_token_is_refused_by_the_store() {
    let mut store = LinkStore::new();
    let cfg = config();
    let a = prepare_link(&request("one"), NOW, cfg.max_text_size_bytes, DEV_KEY).unwrap();
    let mut b = prepare_link(&request("two"), NOW, cfg.max_text_size_bytes, DEV_KEY).unwrap();
    b.token = a.token.clone();
    store.insert(a, NOW).unwrap();
    assert_eq!(store.insert(b, NOW).unwrap_err(), StoreError::DuplicateToken);
    assert_eq!(store.len(), 1);
}
