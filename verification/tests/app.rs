use protoncode::app::{
    load_seen_cache, AppState, RegisterError, SeenCache, SeenCacheError, SeenCacheFile,
    RECENT_CACHE_LIMIT,
};
use protoncode::config::{AppConfig, ConfigError};
use protoncode::models::{MailSessionState, OtpCandidateEmail, OtpMatch, OtpNotification};
use protoncode::paths::{AppPath, FileStep, PathBase};
use protoncode::timestamp::{Timestamp, MAX_LOCAL_NANOS};

fn at(text: &str) -> AppPath {
    AppPath::at(PathBase::Text(text.to_owned()))
}

fn test_config() -> AppConfig {
    let mut config = AppConfig::default();
    config.user_data_dir = at("protoncode-test");
    config
}

fn fresh() -> AppState {
    AppState::from_config(test_config(), SeenCacheFile::Missing)
}

fn mail(id: &str, body: &str) -> OtpCandidateEmail {
    OtpCandidateEmail {
        message_id: id.to_owned(),
        sender: Some("Example".to_owned()),
        subject: Some("Code".to_owned()),
        received_at: Timestamp::unix_epoch(),
        body_text: body.to_owned(),
    }
}

fn numbered(count: usize) -> Vec<String> {
    (0..count).map(|i| format!("m{i}")).collect()
}

#[test]
fn ignores_duplicate_message_ids() {
    let mut state = AppState::from_config(test_config(), SeenCacheFile::Missing);
    let email = OtpCandidateEmail {
        message_id: "same-message".to_owned(),
        sender: Some("Example".to_owned()),
        subject: Some("Code".to_owned()),
        received_at: Timestamp::unix_epoch(),
        body_text: "Your verification code is 555111.".to_owned(),
    };

    assert!(state.register_candidate(&email).expect("registered").is_some());
    assert!(state.register_candidate(&email).expect("registered").is_none());
}

#[test]
fn state_starts_without_session_and_notification() {
    let state = fresh();
    assert_eq!(state.session_state, MailSessionState::Unauthenticated);
    assert_eq!(state.session_state(), MailSessionState::Unauthenticated);
    assert!(state.current_notification.is_none());
    assert_eq!(state.latest_notification_code(), None);
    assert_eq!(state.config(), &test_config());
    assert_eq!(state.debug_logs(), Vec::<String>::new());
}

#[test]
fn loading_passes_configuration_errors_on() {
    let state = AppState::load(Ok(test_config()), SeenCacheFile::Missing).ok().expect("loaded");
    assert_eq!(state.config(), &test_config());
    let failed = AppState::load(Err(ConfigError::PathUnavailable), SeenCacheFile::Missing);
    assert_eq!(failed.err(), Some(ConfigError::PathUnavailable));
}

#[test]
fn registered_mail_is_shown_and_remembered() {
    let mut state = fresh();
    let now = Timestamp::unix_epoch();
    let email = mail("m1", "Your code is 987654");
    let shown = state.register_candidate_at(&email, now).expect("a notification");
    assert_eq!(shown.raw_code, "987654");
    assert_eq!(shown.masked_code, "******");
    assert_eq!(shown.source_label, "Example");
    assert_eq!(shown.expires_at.millis_since(&shown.received_at), 8000);
    assert_eq!(state.current_notification.as_ref(), Some(&shown));
    assert_eq!(state.last_notification(), Some(&shown));
    assert_eq!(state.latest_notification_code(), Some("987654"));
    assert!(state.has_seen("m1"));
    assert!(!state.has_seen("m2"));
    state.clear_notification();
    assert_eq!(state.last_notification(), None);
    assert!(state.has_seen("m1"));
}

#[test]
fn mail_without_code_is_not_remembered() {
    let mut state = fresh();
    assert_eq!(state.register_candidate_at(&mail("m1", "hello"), Timestamp::unix_epoch()), None);
    assert!(!state.has_seen("m1"));
}

#[test]
fn mail_that_cannot_be_judged_is_refused() {
    let mut state = fresh();
    let mut email = mail("m1", &format!("1234{}\u{e9}", " ".repeat(71)));
    assert_eq!(state.register_candidate(&email), Err(RegisterError::SplitCharacter));
    assert!(!state.has_seen("m1"));
    email.body_text = "code 1234".to_owned();
    let last = Timestamp::new(MAX_LOCAL_NANOS, 0).expect("in range");
    assert_eq!(
        state.try_register_candidate_at(&email, last),
        Err(RegisterError::ExpiryOutOfRange)
    );
    assert!(!state.has_seen("m1"));
    assert!(state.current_notification.is_none());
}

#[test]
fn found_code_is_recorded() {
    let mut state = fresh();
    let found = OtpMatch { code: "4321".to_owned(), source_label: "Bank".to_owned() };
    let shown = state.record_match("m9", found, Timestamp::unix_epoch());
    assert_eq!(
        shown,
        OtpNotification::new("Bank".to_owned(), "4321".to_owned(), Timestamp::unix_epoch(), 8)
    );
    assert!(state.has_seen("m9"));
    assert_eq!(state.latest_notification_code(), Some("4321"));
}

#[test]
fn most_recent_messages_are_remembered() {
    let mut cache = SeenCache::new();
    for id in numbered(RECENT_CACHE_LIMIT + 2) {
        cache.track(id);
    }
    assert_eq!(cache.list().len(), RECENT_CACHE_LIMIT);
    assert!(!cache.contains("m0"));
    assert!(!cache.contains("m1"));
    assert!(cache.contains("m2"));
    assert!(cache.contains("m129"));
    cache.track("m5".to_owned());
    assert_eq!(cache.list().len(), RECENT_CACHE_LIMIT);
    assert_eq!(cache.list()[0], "m2");
}

#[test]
fn forgotten_mail_is_shown_again() {
    let mut state = fresh();
    let now = Timestamp::unix_epoch();
    let ids = numbered(RECENT_CACHE_LIMIT + 1);
    for id in &ids {
        assert!(state.register_candidate_at(&mail(id, "code 1234"), now).is_some());
    }
    for id in &ids[1..] {
        assert_eq!(state.clone().register_candidate_at(&mail(id, "code 1234"), now), None);
    }
    assert!(state.register_candidate_at(&mail(&ids[0], "code 1234"), now).is_some());
}

#[test]
fn mail_is_refused_where_its_notification_would_never_end() {
    let mut config = test_config();
    for seconds in [i64::MAX as u64, i64::MAX as u64 + 1, u64::MAX] {
        config.notification_duration_seconds = seconds;
        let mut state = AppState::from_config(config.clone(), SeenCacheFile::Missing);
        assert_eq!(
            state.try_register_candidate_at(&mail("m1", "code 1234"), Timestamp::unix_epoch()),
            Err(RegisterError::ExpiryOutOfRange)
        );
        assert!(!state.has_seen("m1"));
    }
}

#[test]
fn repeated_entries_of_a_list_can_be_forgotten_early() {
    let mut list = vec!["a".to_owned(), "a".to_owned()];
    list.extend(numbered(RECENT_CACHE_LIMIT - 1));
    let mut cache = SeenCache::of(list);
    cache.track("b".to_owned());
    assert!(!cache.contains("a"));
    assert!(cache.contains("b"));
}

#[test]
fn copies_remember_the_same_messages() {
    let mut state = fresh();
    state.register_candidate_at(&mail("m1", "code 1234"), Timestamp::unix_epoch());
    state.push_debug_log("line".to_owned());
    let copy = state.clone();
    assert!(copy.has_seen("m1"));
    assert!(!copy.has_seen("m2"));
    assert_eq!(copy.debug_logs(), vec!["line".to_owned()]);
    assert_eq!(copy.last_notification(), state.last_notification());
    assert_eq!(copy.config(), state.config());
}

#[test]
fn seen_messages_survive_a_restart() {
    let mut state = fresh();
    let now = Timestamp::unix_epoch();
    state.register_candidate_at(&mail("first", "code 1234"), now);
    state.register_candidate_at(&mail("second \"quoted\"", "code 5678"), now);
    let write = state.persist_seen_cache().expect("written");
    assert_eq!(
        write.create_dir,
        FileStep::CreateParentDir(at("protoncode-test").child("seen-cache.json"))
    );
    assert_eq!(
        write.write,
        FileStep::WriteSeenCache(at("protoncode-test").child("seen-cache.json"))
    );
    assert_eq!(
        String::from_utf8(write.payload.clone()).expect("text"),
        "[\n  \"first\",\n  \"second \\\"quoted\\\"\"\n]"
    );
    let mut restored = AppState::from_config(test_config(), SeenCacheFile::Read(write.payload));
    assert!(restored.has_seen("first"));
    assert!(restored.has_seen("second \"quoted\""));
    assert_eq!(restored.register_candidate_at(&mail("first", "code 1234"), now), None);
}

#[test]
fn broken_lists_of_seen_messages_are_told_apart() {
    assert_eq!(
        load_seen_cache(SeenCacheFile::Unreadable).err(),
        Some(SeenCacheError::Unreadable)
    );
    assert_eq!(
        load_seen_cache(SeenCacheFile::Read(b"{}".to_vec())).err(),
        Some(SeenCacheError::Malformed)
    );
    assert!(load_seen_cache(SeenCacheFile::Missing).ok().expect("empty").list().is_empty());
    let list = load_seen_cache(SeenCacheFile::Read(b"[\"x\", \"y\"]".to_vec()));
    assert_eq!(list.ok().expect("a list").list(), vec!["x".to_owned(), "y".to_owned()]);
    let state = AppState::from_config(test_config(), SeenCacheFile::Read(b"oops".to_vec()));
    assert!(!state.has_seen("oops"));
}

#[test]
fn state_can_be_changed() {
    let mut state = fresh();
    state.set_session_state(MailSessionState::Paused);
    assert_eq!(state.session_state(), MailSessionState::Paused);
    state.push_debug_log("one".to_owned());
    state.push_debug_log("two".to_owned());
    assert_eq!(state.debug_logs(), vec!["one".to_owned(), "two".to_owned()]);
    let mut config = test_config();
    config.copy_button_enabled = false;
    state.set_config(config.clone());
    assert_eq!(state.config(), &config);
    let path = at("d").child("config.json");
    assert_eq!(state.save_config(Some(path.clone())), config.save(Some(path)));
    assert_eq!(state.save_config(None), Err(ConfigError::PathUnavailable));
}
