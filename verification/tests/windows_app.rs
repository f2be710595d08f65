use protoncode::app::{AppState, RegisterError, SeenCacheFile};
use protoncode::config::AppConfig;
use protoncode::desktop_app::{Reply, TrayIds, WindowKind};
use protoncode::events::{OverlayAction, SettingsAction};
use protoncode::models::{MailSessionState, OtpNotification};
use protoncode::payloads::OverlayPayload;
use protoncode::timestamp::Timestamp;
use protoncode::windows_app::{
    advance, deliver_page, drain_tray_events, fingerprint_snapshot, fingerprint_text,
    handle_user_event, hides_mail_on_start, infer_session_state, page_session_from, PageEffect,
    PageEvent, PageSnapshot, PageStep, PageTask, StatusSnapshot,
};
use protoncode::windows_pages;

fn page(url: &str, text: &str) -> PageSnapshot {
    PageSnapshot { url: url.to_owned(), title: "Inbox".to_owned(), text: text.to_owned() }
}

fn start() -> AppState {
    AppState::from_config(AppConfig::default_in(None), SeenCacheFile::Missing)
}

fn refresh_of(state: &AppState, required: bool) -> PageEffect {
    PageEffect::Refresh { snapshot: StatusSnapshot::from_state(state), required }
}

fn ended(effects: Vec<PageEffect>) -> PageStep {
    PageStep { effects, next: None }
}

fn click(kind: &str) -> SettingsAction {
    SettingsAction {
        kind: kind.to_owned(),
        poll_interval_seconds: Some(10),
        notification_duration_seconds: None,
        copy_button_enabled: None,
        launch_on_startup: Some(true),
    }
}

#[test]
fn words_that_ask_to_sign_in_come_first() {
    for (url, text, expected) in [
        ("https://mail.proton.me/", "", MailSessionState::Authenticated),
        ("https://mail.proton.me/", "please sign in", MailSessionState::Unauthenticated),
        ("https://mail.proton.me/", "log in here", MailSessionState::Unauthenticated),
        ("https://account.proton.me/", "", MailSessionState::Unauthenticated),
        ("https://proton.me/", "", MailSessionState::Restoring),
    ] {
        assert_eq!(page_session_from(url, text), expected, "{} {}", url, text);
    }
    assert_eq!(
        infer_session_state(&page("https://mail.proton.me/", "SIGN IN")),
        MailSessionState::Unauthenticated
    );
}

#[test]
fn pages_are_told_apart_by_their_fingerprint() {
    assert_eq!(fingerprint_text(0), "snapshot-0000000000000000");
    assert_eq!(fingerprint_text(0xdead_beef), "snapshot-00000000deadbeef");
    let id = fingerprint_snapshot(&page("u", "t"));
    assert_eq!(id.len(), 25);
    assert_eq!(id, fingerprint_snapshot(&page("u", "t")));
    assert_ne!(id, fingerprint_snapshot(&page("u", "x")));
    assert_ne!(id, fingerprint_snapshot(&page("t", "u")));
}

#[test]
fn page_with_a_code_is_shown_once() {
    let mut state = start();
    let now = Timestamp::unix_epoch();
    let found = || page("https://mail.proton.me/", "Your code is 4711");
    let step = handle_user_event(&mut state, PageEvent::Snapshot(found()));
    assert_eq!(state.session_state(), MailSessionState::Authenticated);
    assert_eq!(
        step,
        PageStep {
            effects: vec![
                refresh_of(&state, true),
                PageEffect::SaveMarker("authenticated".to_owned()),
            ],
            next: Some(PageTask::Deliver(found())),
        }
    );
    let step = advance(&mut state, PageTask::Deliver(found()), Reply::Done, now).expect("handled");
    let shown = OtpNotification::new("Inbox".to_owned(), "4711".to_owned(), now, 8);
    assert_eq!(state.last_notification(), Some(&shown));
    assert_eq!(
        step,
        ended(vec![
            PageEffect::SaveSeenCache(state.persist_seen_cache().expect("written")),
            PageEffect::PositionOverlay,
            PageEffect::RenderOverlay(OverlayPayload::from_notification(&shown, true)),
            PageEffect::Show(WindowKind::Overlay),
            PageEffect::Focus(WindowKind::Overlay),
            refresh_of(&state, true),
        ])
    );
    let again = advance(&mut state, PageTask::Deliver(found()), Reply::Done, now).expect("handled");
    assert_eq!(again, ended(vec![refresh_of(&state, true)]));
}

#[test]
fn given_pages_are_delivered() {
    let mut state = start();
    let now = Timestamp::unix_epoch();
    let deliver = |state: &mut AppState, text: &str| {
        deliver_page(state, page("u", text), "id-1".to_owned(), now)
    };
    state.set_session_state(MailSessionState::Paused);
    assert_eq!(deliver(&mut state, "code 1234"), Ok(ended(vec![])));
    assert!(!state.has_seen("id-1"));
    state.set_session_state(MailSessionState::Authenticated);
    assert_eq!(
        deliver(&mut state, &format!("1234{}\u{e9}", " ".repeat(71))),
        Err(RegisterError::SplitCharacter)
    );
    deliver(&mut state, "code 1234").expect("handled");
    assert!(state.has_seen("id-1"));
}

#[test]
fn signed_out_window_is_shown() {
    let mut state = start();
    let signed_out = || page("https://account.proton.me/", "");
    let step = handle_user_event(&mut state, PageEvent::Snapshot(signed_out()));
    assert_eq!(step.effects, vec![refresh_of(&state, true), PageEffect::AskMailVisible]);
    let task = PageTask::RevealMail(signed_out());
    let hidden = Reply::MailVisible(false);
    let step = advance(&mut state, task, hidden, Timestamp::unix_epoch()).expect("handled");
    assert_eq!(
        step.effects,
        vec![PageEffect::Show(WindowKind::Mail), PageEffect::Focus(WindowKind::Mail)]
    );
    assert_eq!(step.next, Some(PageTask::Deliver(signed_out())));
    let visible = Reply::MailVisible(true);
    let task = PageTask::RevealMail(signed_out());
    let step = advance(&mut state, task, visible, Timestamp::unix_epoch()).expect("handled");
    assert_eq!(step.effects, vec![]);
}

#[test]
fn clicks_are_followed() {
    let mut state = start();
    let overlay = |action: &str| {
        PageEvent::OverlayAction(OverlayAction { action: action.to_owned() })
    };
    state.show(OtpNotification::new("A".to_owned(), "1234".to_owned(), Timestamp::unix_epoch(), 8));
    assert_eq!(
        handle_user_event(&mut state, overlay("copy")),
        ended(vec![PageEffect::CopyCode("1234".to_owned())])
    );
    let hidden = ended(vec![PageEffect::Hide(WindowKind::Overlay)]);
    assert_eq!(handle_user_event(&mut state, overlay("dismiss")), hidden);
    assert_eq!(state.last_notification(), None);
    assert_eq!(handle_user_event(&mut state, overlay("copy")), ended(vec![]));
    assert_eq!(handle_user_event(&mut state, PageEvent::DismissOverlay), hidden);
    let step = handle_user_event(&mut state, PageEvent::SettingsAction(click("save_config")));
    assert_eq!(step.effects, vec![PageEffect::SyncLaunchOnStartup(true)]);
    assert_eq!(step.next, Some(PageTask::ApplyLaunch(true)));
    let now = Timestamp::unix_epoch();
    let step = advance(&mut state, PageTask::ApplyLaunch(true), Reply::Done, now).expect("handled");
    assert_eq!(state.config().poll_interval_seconds, 10);
    assert!(state.config().launch_on_startup);
    assert_eq!(
        step,
        ended(vec![PageEffect::SaveConfig(state.config().clone()), refresh_of(&state, true)])
    );
    assert_eq!(
        handle_user_event(&mut state, PageEvent::SettingsAction(click("login_window"))),
        ended(vec![PageEffect::Show(WindowKind::Mail), PageEffect::Focus(WindowKind::Mail)])
    );
    assert_eq!(
        handle_user_event(&mut state, PageEvent::SettingsAction(click("hide_status"))),
        ended(vec![PageEffect::Hide(WindowKind::Settings)])
    );
    assert_eq!(
        handle_user_event(&mut state, PageEvent::SettingsAction(click("test_notification"))),
        ended(vec![])
    );
    let step = handle_user_event(&mut state, PageEvent::SetSession(MailSessionState::Error));
    assert_eq!(step, ended(vec![refresh_of(&state, true)]));
    assert_eq!(StatusSnapshot::from_state(&state).session_state, "Error");
}

#[test]
fn waiting_tray_choices_are_followed_in_order() {
    let ids = TrayIds {
        open_status: "s".to_owned(),
        open_login: "l".to_owned(),
        pause_resume: "p".to_owned(),
        clear_session: "c".to_owned(),
        quit: "q".to_owned(),
    };
    let waiting = |text: &str| text.chars().map(|c| c.to_string()).collect::<Vec<String>>();
    let mut state = start();
    let effects = drain_tray_events(&mut state, &waiting("pplcxq"), &ids);
    assert_eq!(state.session_state(), MailSessionState::Authenticated);
    let mut paused = start();
    paused.set_session_state(MailSessionState::Paused);
    assert_eq!(
        effects,
        vec![
            refresh_of(&paused, false),
            refresh_of(&state, false),
            PageEffect::Show(WindowKind::Mail),
            PageEffect::Focus(WindowKind::Mail),
            PageEffect::ClearMarker,
            PageEffect::Send(PageEvent::SetSession(MailSessionState::Unauthenticated)),
            PageEffect::Show(WindowKind::Mail),
            PageEffect::Exit,
        ]
    );
    let effects = drain_tray_events(&mut state, &waiting("s"), &ids);
    assert_eq!(
        effects,
        vec![
            PageEffect::Show(WindowKind::Settings),
            PageEffect::Focus(WindowKind::Settings),
            refresh_of(&state, false),
        ]
    );
    assert_eq!(drain_tray_events(&mut state, &waiting(""), &ids), vec![]);
}

#[test]
fn status_window_shows_the_state() {
    let mut state = start();
    for (session_state, label) in [
        (MailSessionState::Unauthenticated, "Unauthenticated"),
        (MailSessionState::Restoring, "Restoring session"),
        (MailSessionState::Authenticated, "Authenticated"),
        (MailSessionState::Expired, "Expired"),
        (MailSessionState::Error, "Error"),
        (MailSessionState::Paused, "Paused"),
    ] {
        state.set_session_state(session_state);
        assert_eq!(StatusSnapshot::from_state(&state).session_state, label);
    }
    let shown = StatusSnapshot::from_state(&state);
    assert_eq!(shown.autostart_status, "Disabled");
    assert_eq!(shown.last_masked_code, None);
    assert!(refresh_of(&state, true).is_required());
    assert!(!refresh_of(&state, false).is_required());
    assert!(PageEffect::CopyCode(String::new()).is_required());
    assert!(!PageEffect::ClearMarker.is_required());
}

#[test]
fn mail_window_starts_hidden_in_the_tray() {
    let mut config = AppConfig::default_in(None);
    assert!(hides_mail_on_start(false, &config));
    config.start_minimized_to_tray = false;
    assert!(!hides_mail_on_start(false, &config));
    assert!(hides_mail_on_start(true, &config));
}

#[test]
fn smaller_pages_are_complete() {
    let script = windows_pages::proton_monitor_script(7);
    assert!(script.contains("const schedule = Math.max(7, 5) * 1000;"));
    assert!(script.starts_with("\n(() => {\n"));
    assert!(script.ends_with("})();\n"));
    assert!(windows_pages::overlay_html().contains("window.__PROTON2FA_OVERLAY = {"));
    assert!(windows_pages::settings_html().contains("window.__PROTON2FA_STATUS = {"));
}

#[test]
fn paused_pages_show_nothing() {
    let mut state = start();
    state.set_session_state(MailSessionState::Paused);
    let found = || page("https://mail.proton.me/", "Your code is 4711");
    let step = handle_user_event(&mut state, PageEvent::Snapshot(found()));
    assert_eq!(state.session_state(), MailSessionState::Paused);
    assert_eq!(step.next, Some(PageTask::Deliver(found())));
    let now = Timestamp::unix_epoch();
    let step = advance(&mut state, PageTask::Deliver(found()), Reply::Done, now).expect("handled");
    assert_eq!(step, ended(vec![]));
    assert_eq!(state.last_notification(), None);
}

#[test]
fn second_page_with_a_code_is_shown_too() {
    let mut state = start();
    let now = Timestamp::unix_epoch();
    for code in ["4711", "4712"] {
        let found = page("https://mail.proton.me/", &format!("Your code is {code}"));
        advance(&mut state, PageTask::Deliver(found), Reply::Done, now).expect("handled");
        assert_eq!(state.latest_notification_code(), Some(code));
    }
}
