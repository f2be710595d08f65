use protoncode::app::{AppState, RegisterError, SeenCacheFile};
use protoncode::autostart::Platform;
use protoncode::config::AppConfig;
use protoncode::desktop_app::{
    advance, close_requested, handle_proton_snapshot, handle_tray_event, handle_user_event,
    infer_session_state, note_overlay_window, reconcile_launch_on_startup, restore_session,
    session_from, show_proton_on_start, show_settings_on_start, startup, tray_command, user_event_failed, Effect, Next,
    Reply, Step, Task, TrayCommand, TrayIds, WindowKind,
};
use protoncode::events::{
    mail_page_event, overlay_event, settings_event, OverlayAction, ProtonIpc, ProtonSnapshot,
    SettingsAction, UserEvent,
};
use protoncode::models::{MailSessionState, OtpCandidateEmail, OtpNotification};
use protoncode::paths::{AppPath, PathBase};
use protoncode::payloads::{
    render_script, session_state_label, show_script, OverlayPayload, SettingsSnapshot,
};
use protoncode::timestamp::{Timestamp, MAX_LOCAL_NANOS};

fn snapshot(url: &str, page_text: &str) -> ProtonSnapshot {
    ProtonSnapshot {
        url: url.to_owned(),
        page_text: page_text.to_owned(),
        mailbox_label: Some("all mail".to_owned()),
        all_mail_ready: true,
        debug_log: None,
        candidates: Vec::new(),
    }
}

#[test]
fn mail_page_is_not_marked_signed_out_when_message_mentions_sign_in() {
    let snapshot = snapshot(
        "https://mail.proton.me/u/0/all-mail",
        "Your verification code is 123456. Use it to sign in.",
    );

    assert_eq!(
        infer_session_state(&snapshot),
        MailSessionState::Authenticated
    );
}

#[test]
fn account_login_page_is_marked_unauthenticated() {
    let snapshot = snapshot("https://account.proton.me/login", "Sign in to Proton");

    assert_eq!(
        infer_session_state(&snapshot),
        MailSessionState::Unauthenticated
    );
}

const MAIL_URL: &str = "https://mail.proton.me/u/0/all-mail";

fn now() -> Timestamp {
    Timestamp::unix_epoch()
}

fn fresh() -> AppState {
    let mut config = AppConfig::default_in(None);
    config.user_data_dir = AppPath::at(PathBase::Text("data".to_owned()));
    AppState::from_config(config, SeenCacheFile::Missing)
}

fn refresh(state: &AppState, required: bool) -> Effect {
    Effect::RefreshSettings { snapshot: SettingsSnapshot::from_state(state), required }
}

fn mail(id: &str, body: &str) -> OtpCandidateEmail {
    OtpCandidateEmail {
        message_id: id.to_owned(),
        sender: Some("Acme".to_owned()),
        subject: None,
        received_at: now(),
        body_text: body.to_owned(),
    }
}

fn settings(kind: &str) -> SettingsAction {
    SettingsAction {
        kind: kind.to_owned(),
        poll_interval_seconds: None,
        notification_duration_seconds: None,
        copy_button_enabled: None,
        launch_on_startup: None,
    }
}

fn begin(state: &mut AppState, event: UserEvent) -> Step {
    handle_user_event(state, event, now()).expect("handled")
}

fn resume(state: &mut AppState, step: Step, reply: Reply) -> Step {
    match step.next {
        Next::Resume(task) => {
            advance(state, task, reply, Platform::Other, now()).expect("handled")
        }
        next => panic!("nothing to resume: {:?}", next),
    }
}

fn finished(effects: Vec<Effect>) -> Step {
    Step { effects, next: Next::Finish }
}

#[test]
fn session_follows_address_and_text() {
    for (url, text, expected) in [
        (MAIL_URL, "sign in to proton", MailSessionState::Authenticated),
        ("https://account.proton.me/", "", MailSessionState::Unauthenticated),
        ("https://proton.me/login", "", MailSessionState::Unauthenticated),
        ("https://proton.me/", "please log in to proton", MailSessionState::Unauthenticated),
        ("https://proton.me/", "please sign in to proton", MailSessionState::Unauthenticated),
        ("https://proton.me/", "sign in", MailSessionState::Restoring),
        ("", "", MailSessionState::Restoring),
    ] {
        assert_eq!(session_from(url, text), expected, "{} {}", url, text);
    }
    assert_eq!(
        infer_session_state(&snapshot("https://proton.me/", "LOG IN TO PROTON")),
        MailSessionState::Unauthenticated
    );
}

#[test]
fn signed_in_page_is_marked_and_searched() {
    let mut state = fresh();
    let page = snapshot(MAIL_URL, "");
    let step = handle_proton_snapshot(&mut state, page);
    assert_eq!(state.session_state(), MailSessionState::Authenticated);
    assert_eq!(
        step.effects,
        vec![refresh(&state, true), Effect::SaveMarker("authenticated".to_owned())]
    );
    assert_eq!(
        step.next,
        Next::Resume(Task::Deliver {
            snapshot: snapshot(MAIL_URL, ""),
            session_state: MailSessionState::Authenticated,
        })
    );
    let last = resume(&mut state, step, Reply::Done);
    assert_eq!(last, finished(vec![refresh(&state, true)]));
}

#[test]
fn signed_out_page_is_shown_unless_visible() {
    let mut state = fresh();
    let page = || UserEvent::ProtonSnapshot(snapshot("https://account.proton.me/login", ""));
    let step = begin(&mut state, page());
    assert_eq!(step.effects, vec![refresh(&state, true), Effect::AskMailVisible]);
    let hidden = resume(&mut state, step, Reply::MailVisible(false));
    assert_eq!(
        hidden.effects,
        vec![Effect::Show(WindowKind::Mail), Effect::Focus(WindowKind::Mail)]
    );
    let step = begin(&mut state, page());
    let visible = resume(&mut state, step, Reply::MailVisible(true));
    assert_eq!(visible.effects, vec![]);
    assert!(matches!(visible.next, Next::Resume(Task::Deliver { .. })));
}

#[test]
fn code_on_the_page_is_shown_in_the_overlay() {
    let mut state = fresh();
    let mut page = snapshot(MAIL_URL, "");
    page.debug_log = Some("scan".to_owned());
    page.candidates = vec![
        mail("plain", "hello"),
        mail("new", "your code is 246810"),
        mail("other", "your code is 1111"),
    ];
    let step = begin(&mut state, UserEvent::ProtonSnapshot(page));
    let step = resume(&mut state, step, Reply::Done);
    let shown = OtpNotification::new("Acme".to_owned(), "246810".to_owned(), now(), 8);
    assert_eq!(state.last_notification(), Some(&shown));
    assert!(state.has_seen("new"));
    assert!(!state.has_seen("other"));
    assert_eq!(
        state.debug_logs(),
        vec!["scan".to_owned(), "OTP matched in all mail: ******".to_owned()]
    );
    assert_eq!(
        step.effects,
        vec![
            Effect::SaveSeenCache(state.persist_seen_cache().expect("written")),
            refresh(&state, true),
            Effect::EnsureOverlay,
        ]
    );
    let step = resume(&mut state, step, Reply::OverlayReady { built: true });
    assert_eq!(state.debug_logs()[2], "Overlay webview initialized lazily");
    let payload = OverlayPayload {
        source_label: "Acme".to_owned(),
        masked_code: "******".to_owned(),
        raw_code: "246810".to_owned(),
        received_at_label: "00:00".to_owned(),
        duration_ms: 8000,
        copy_enabled: true,
    };
    assert_eq!(payload, OverlayPayload::from_notification(&shown, true));
    assert_eq!(step.effects, vec![Effect::PositionOverlay, Effect::RenderOverlay(payload)]);
    let step = resume(&mut state, step, Reply::Done);
    assert_eq!(state.debug_logs()[3], "Overlay rendered for Acme");
    assert_eq!(
        step,
        finished(vec![
            Effect::Show(WindowKind::Overlay),
            Effect::Focus(WindowKind::Overlay),
            refresh(&state, false),
        ])
    );
}

#[test]
fn each_look_shows_the_next_new_code() {
    let mut state = fresh();
    for expected in [Some("1111"), Some("2222"), None] {
        state.clear_notification();
        let mut page = snapshot(MAIL_URL, "");
        page.mailbox_label = None;
        page.candidates = vec![mail("a", "code 1111"), mail("b", "code 2222")];
        let step = begin(&mut state, UserEvent::ProtonSnapshot(page));
        resume(&mut state, step, Reply::Done);
        assert_eq!(state.latest_notification_code(), expected);
    }
    assert_eq!(state.debug_logs()[0], "OTP matched in All Mail: ****");
}

#[test]
fn overlay_that_fails_is_logged() {
    let mut state = fresh();
    let task = Task::Reveal("Acme".to_owned());
    let failed = Reply::RenderFailed("gone".to_owned());
    let step = advance(&mut state, task, failed, Platform::Other, now()).expect("handled");
    assert_eq!(state.debug_logs(), vec!["Overlay render failed: gone".to_owned()]);
    assert_eq!(step.effects, vec![refresh(&state, false)]);
    assert_eq!(step.next, Next::Fail("failed to render overlay notification: gone".to_owned()));
}

#[test]
fn overlay_page_is_noted_per_platform() {
    let task = |shown: &OtpNotification| Task::Render { shown: shown.clone(), copy_enabled: false };
    let shown = OtpNotification::new("A".to_owned(), "1234".to_owned(), now(), 8);
    let mut state = fresh();
    let built = Reply::OverlayReady { built: true };
    advance(&mut state, task(&shown), built, Platform::Windows, now()).expect("handled");
    assert_eq!(
        state.debug_logs(),
        vec!["Overlay webview initialized lazily with no_redirection_bitmap=true and background 00000000".to_owned()]
    );
    let there = Reply::OverlayReady { built: false };
    advance(&mut state, task(&shown), there, Platform::Windows, now()).expect("handled");
    assert_eq!(state.debug_logs().len(), 1);
    let mut other = fresh();
    note_overlay_window(&mut other, Platform::Windows);
    note_overlay_window(&mut other, Platform::Other);
    assert_eq!(
        other.debug_logs(),
        vec![
            "Overlay window created; webview deferred until first notification. no_redirection_bitmap=true, background 00000000".to_owned(),
            "Overlay window created; webview deferred until first notification".to_owned(),
        ]
    );
}

#[test]
fn nothing_is_searched_while_paused_or_elsewhere() {
    let deliver = |state: &mut AppState, ready: bool| {
        let mut page = snapshot(MAIL_URL, "");
        page.all_mail_ready = ready;
        page.candidates = vec![mail("a", "code 1111")];
        let task = Task::Deliver { snapshot: page, session_state: MailSessionState::Authenticated };
        advance(state, task, Reply::Done, Platform::Other, now()).expect("handled")
    };
    let mut state = fresh();
    state.set_session_state(MailSessionState::Paused);
    let step = deliver(&mut state, true);
    assert_eq!(step, finished(vec![refresh(&state, true)]));
    assert!(!state.has_seen("a"));
    state.set_session_state(MailSessionState::Authenticated);
    deliver(&mut state, false);
    assert!(!state.has_seen("a"));
    deliver(&mut state, true);
    assert!(state.has_seen("a"));
}

#[test]
fn mail_that_cannot_be_handled_is_refused() {
    let mut page = snapshot(MAIL_URL, "");
    page.candidates = vec![mail("a", &format!("1234{}\u{e9}", " ".repeat(71)))];
    let task = Task::Deliver { snapshot: page, session_state: MailSessionState::Authenticated };
    let mut state = fresh();
    assert_eq!(
        advance(&mut state, task, Reply::Done, Platform::Other, now()),
        Err(RegisterError::SplitCharacter)
    );
    let last = Timestamp::new(MAX_LOCAL_NANOS, 0).expect("in range");
    let test = UserEvent::SettingsAction(settings("test_notification"));
    assert_eq!(
        handle_user_event(&mut state, test, last),
        Err(RegisterError::ExpiryOutOfRange)
    );
    assert!(state.last_notification().is_none());
}

#[test]
fn dismissing_hides_logs_and_clears() {
    let mut state = fresh();
    let shown = OtpNotification::new("A".to_owned(), "1234".to_owned(), now(), 8);
    state.show(shown.clone());
    let mut told = state.clone();
    told.push_debug_log("Overlay dismissed".to_owned());
    let action = UserEvent::OverlayAction(OverlayAction { action: "dismiss".to_owned() });
    let step = begin(&mut state, action);
    assert_eq!(
        step,
        finished(vec![Effect::Hide(WindowKind::Overlay), refresh(&told, false)])
    );
    assert_eq!(state.last_notification(), None);
    state.show(shown);
    begin(&mut state, UserEvent::DismissOverlay);
    assert_eq!(state.last_notification(), None);
    assert_eq!(
        state.debug_logs(),
        vec!["Overlay dismissed".to_owned(), "Overlay auto-dismissed".to_owned()]
    );
}

#[test]
fn copying_needs_a_notification() {
    let copy = || UserEvent::OverlayAction(OverlayAction { action: "copy".to_owned() });
    let mut state = fresh();
    assert_eq!(begin(&mut state, copy()), finished(vec![]));
    state.show(OtpNotification::new("A".to_owned(), "1234".to_owned(), now(), 8));
    let step = begin(&mut state, copy());
    assert_eq!(step.effects, vec![Effect::CopyCode("1234".to_owned())]);
    assert_eq!(step.next, Next::Resume(Task::NoteCopied));
    let step = resume(&mut state, step, Reply::Done);
    assert_eq!(state.debug_logs(), vec!["Overlay code copied".to_owned()]);
    assert_eq!(step, finished(vec![refresh(&state, false)]));
    let unknown = UserEvent::OverlayAction(OverlayAction { action: "wave".to_owned() });
    assert_eq!(begin(&mut state, unknown), finished(vec![]));
}

#[test]
fn saving_clamps_and_applies_settings() {
    let mut state = fresh();
    let mut action = settings("save_config");
    action.poll_interval_seconds = Some(99);
    action.notification_duration_seconds = Some(1);
    action.copy_button_enabled = Some(false);
    action.launch_on_startup = Some(true);
    let step = begin(&mut state, UserEvent::SettingsAction(action));
    assert_eq!(state.config().poll_interval_seconds, 30);
    assert_eq!(state.config().notification_duration_seconds, 5);
    assert!(!state.config().copy_button_enabled);
    assert!(!state.config().launch_on_startup);
    assert_eq!(step.effects, vec![Effect::SyncLaunchOnStartup(true)]);
    let step = resume(&mut state, step, Reply::Done);
    assert!(state.config().launch_on_startup);
    assert_eq!(
        step,
        finished(vec![Effect::SaveConfig(state.config().clone()), refresh(&state, true)])
    );
    let mut limits = settings("save_config");
    limits.poll_interval_seconds = Some(4);
    limits.notification_duration_seconds = Some(16);
    let step = begin(&mut state, UserEvent::SettingsAction(limits));
    assert_eq!(step.effects, vec![Effect::SyncLaunchOnStartup(true)]);
    assert_eq!(state.config().poll_interval_seconds, 5);
    assert_eq!(state.config().notification_duration_seconds, 15);
    let before = state.config().clone();
    begin(&mut state, UserEvent::SettingsAction(settings("save_config")));
    assert_eq!(state.config(), &before);
}

#[test]
fn settings_window_asks_for_other_things() {
    let mut state = fresh();
    let click = |state: &mut AppState, kind: &str| {
        begin(state, UserEvent::SettingsAction(settings(kind)))
    };
    assert_eq!(
        click(&mut state, "login_window"),
        finished(vec![
            Effect::EnsureMailPage(state.config().clone()),
            Effect::Show(WindowKind::Mail),
            Effect::Focus(WindowKind::Mail),
        ])
    );
    assert_eq!(
        click(&mut state, "hide_status"),
        finished(vec![Effect::Hide(WindowKind::Settings)])
    );
    assert_eq!(click(&mut state, "something"), finished(vec![]));
    let step = click(&mut state, "test_notification");
    let shown = OtpNotification::new("Test Notification".to_owned(), "258630".to_owned(), now(), 8);
    assert_eq!(state.last_notification(), Some(&shown));
    assert_eq!(step.effects, vec![refresh(&state, true), Effect::EnsureOverlay]);
    assert_eq!(step.next, Next::Resume(Task::Render { shown, copy_enabled: true }));
}

#[test]
fn other_events_are_followed() {
    let mut state = fresh();
    let step = begin(&mut state, UserEvent::SetSession(MailSessionState::Expired));
    assert_eq!(state.session_state(), MailSessionState::Expired);
    assert_eq!(step, finished(vec![refresh(&state, true)]));
    assert_eq!(
        begin(&mut state, UserEvent::EnsureProtonWebview { show_window: false }),
        finished(vec![Effect::EnsureMailPage(state.config().clone())])
    );
    assert_eq!(
        begin(&mut state, UserEvent::EnsureProtonWebview { show_window: true }).effects.len(),
        3
    );
    assert_eq!(begin(&mut state, UserEvent::TrayMenu("x".to_owned())), finished(vec![]));
}

fn tray_ids() -> TrayIds {
    TrayIds {
        open_status: "1".to_owned(),
        open_login: "2".to_owned(),
        pause_resume: "3".to_owned(),
        clear_session: "4".to_owned(),
        quit: "5".to_owned(),
    }
}

#[test]
fn tray_entries_are_told_apart() {
    let ids = tray_ids();
    assert_eq!(tray_command("1", &ids), Some(TrayCommand::OpenStatus));
    assert_eq!(tray_command("2", &ids), Some(TrayCommand::OpenLogin));
    assert_eq!(tray_command("3", &ids), Some(TrayCommand::PauseResume));
    assert_eq!(tray_command("4", &ids), Some(TrayCommand::ClearSession));
    assert_eq!(tray_command("5", &ids), Some(TrayCommand::Quit));
    assert_eq!(tray_command("6", &ids), None);
}

#[test]
fn tray_choices_are_followed() {
    let ids = tray_ids();
    let mut state = fresh();
    assert_eq!(
        handle_tray_event(&mut state, "1", &ids),
        finished(vec![
            Effect::Show(WindowKind::Settings),
            Effect::Focus(WindowKind::Settings),
            refresh(&state, false),
        ])
    );
    assert_eq!(
        handle_tray_event(&mut state, "2", &ids),
        finished(vec![
            Effect::EnsureMailPage(state.config().clone()),
            Effect::Show(WindowKind::Mail),
            Effect::Focus(WindowKind::Mail),
        ])
    );
    assert_eq!(
        handle_tray_event(&mut state, "4", &ids),
        finished(vec![
            Effect::ClearMarker,
            Effect::Send(UserEvent::SetSession(MailSessionState::Unauthenticated)),
            Effect::EnsureMailPage(state.config().clone()),
            Effect::Show(WindowKind::Mail),
        ])
    );
    assert_eq!(handle_tray_event(&mut state, "5", &ids), finished(vec![Effect::Exit]));
    assert_eq!(handle_tray_event(&mut state, "6", &ids), finished(vec![]));
}

#[test]
fn monitoring_is_paused_and_resumed() {
    let ids = tray_ids();
    let mut state = fresh();
    handle_tray_event(&mut state, "3", &ids);
    assert_eq!(state.session_state(), MailSessionState::Paused);
    let step = handle_tray_event(&mut state, "3", &ids);
    assert_eq!(state.session_state(), MailSessionState::Authenticated);
    assert_eq!(step, finished(vec![refresh(&state, false)]));
}

#[test]
fn autostart_begins_hidden() {
    let mut config = AppConfig::default_in(None);
    assert!(!show_proton_on_start(false, &config));
    config.start_minimized_to_tray = false;
    assert!(show_proton_on_start(false, &config));
    assert!(!show_proton_on_start(true, &config));
    assert!(!show_settings_on_start(true));
    assert!(show_settings_on_start(false));
}

#[test]
fn pause_lasts_until_the_user_ends_it() {
    let ids = tray_ids();
    let mut state = fresh();
    handle_tray_event(&mut state, "3", &ids);
    let page = |url: &str| {
        let mut page = snapshot(url, "");
        page.candidates = vec![mail("a", "code 1111")];
        UserEvent::ProtonSnapshot(page)
    };
    let step = begin(&mut state, page(MAIL_URL));
    assert_eq!(state.session_state(), MailSessionState::Paused);
    assert_eq!(
        step.effects,
        vec![refresh(&state, true), Effect::SaveMarker("authenticated".to_owned())]
    );
    let step = resume(&mut state, step, Reply::Done);
    assert_eq!(step, finished(vec![refresh(&state, true)]));
    assert_eq!(state.session_state(), MailSessionState::Paused);
    assert!(!state.has_seen("a"));
    assert!(state.last_notification().is_none());
    let step = begin(&mut state, page("https://account.proton.me/login"));
    let step = resume(&mut state, step, Reply::MailVisible(false));
    let step = resume(&mut state, step, Reply::Done);
    assert_eq!(step, finished(vec![refresh(&state, true)]));
    assert!(!state.has_seen("a"));
    handle_tray_event(&mut state, "3", &ids);
    let step = begin(&mut state, page(MAIL_URL));
    assert_eq!(state.session_state(), MailSessionState::Authenticated);
    resume(&mut state, step, Reply::Done);
    assert_eq!(state.latest_notification_code(), Some("1111"));
}

#[test]
fn start_shows_the_state_and_opens_the_mail_page_later() {
    let state = fresh();
    assert_eq!(
        startup(&state, true),
        finished(vec![
            refresh(&state, false),
            Effect::Defer {
                after_ms: 650,
                event: UserEvent::EnsureProtonWebview { show_window: true },
            },
        ])
    );
}

#[test]
fn kept_marker_restores_the_session() {
    let mut state = fresh();
    assert_eq!(restore_session(&mut state, &None), finished(vec![]));
    assert_eq!(state.session_state(), MailSessionState::Unauthenticated);
    let step = restore_session(&mut state, &Some("authenticated".to_owned()));
    assert_eq!(state.session_state(), MailSessionState::Restoring);
    assert_eq!(step, finished(vec![refresh(&state, true)]));
}

#[test]
fn configuration_follows_the_registry() {
    let mut state = fresh();
    assert_eq!(reconcile_launch_on_startup(&mut state, false), finished(vec![]));
    let step = reconcile_launch_on_startup(&mut state, true);
    assert!(state.config().launch_on_startup);
    assert_eq!(step, finished(vec![Effect::SaveConfig(state.config().clone())]));
}

#[test]
fn closed_windows_are_hidden_and_failures_logged() {
    assert_eq!(
        close_requested(WindowKind::Settings),
        finished(vec![Effect::Hide(WindowKind::Settings)])
    );
    let mut state = fresh();
    let step = user_event_failed(&mut state, "no clipboard");
    assert_eq!(state.debug_logs(), vec!["User event failed: no clipboard".to_owned()]);
    assert_eq!(step, finished(vec![refresh(&state, false)]));
}

#[test]
fn required_effects_are_known() {
    let state = fresh();
    assert!(refresh(&state, true).is_required());
    assert!(!refresh(&state, false).is_required());
    assert!(Effect::CopyCode(String::new()).is_required());
    assert!(Effect::SyncLaunchOnStartup(true).is_required());
    assert!(Effect::SaveConfig(state.config().clone()).is_required());
    assert!(Effect::SaveMarker(String::new()).is_required());
    assert!(Effect::EnsureMailPage(state.config().clone()).is_required());
    assert!(Effect::EnsureOverlay.is_required());
    assert!(Effect::PositionOverlay.is_required());
    assert!(!Effect::ClearMarker.is_required());
    assert!(!Effect::AskMailVisible.is_required());
    assert!(!Effect::Show(WindowKind::Mail).is_required());
    assert!(!Effect::Exit.is_required());
    let write = state.persist_seen_cache().expect("written");
    assert!(!Effect::SaveSeenCache(write).is_required());
}

#[test]
fn messages_that_make_no_sense_have_a_meaning() {
    assert_eq!(
        overlay_event(None),
        UserEvent::OverlayAction(OverlayAction { action: "dismiss".to_owned() })
    );
    assert_eq!(
        overlay_event(Some(OverlayAction { action: "copy".to_owned() })),
        UserEvent::OverlayAction(OverlayAction { action: "copy".to_owned() })
    );
    assert_eq!(settings_event(None), None);
    assert_eq!(
        settings_event(Some(settings("x"))),
        Some(UserEvent::SettingsAction(settings("x")))
    );
    assert_eq!(mail_page_event(None), UserEvent::SetSession(MailSessionState::Error));
    assert_eq!(mail_page_event(Some(ProtonIpc::DismissOverlay)), UserEvent::DismissOverlay);
    assert_eq!(
        mail_page_event(Some(ProtonIpc::Snapshot(snapshot("u", "t")))),
        UserEvent::ProtonSnapshot(snapshot("u", "t"))
    );
}

#[test]
fn settings_window_shows_the_state() {
    let mut state = fresh();
    state.push_debug_log("line".to_owned());
    state.show(OtpNotification::new("A".to_owned(), "123456".to_owned(), now(), 8));
    let shown = SettingsSnapshot::from_state(&state);
    assert_eq!(shown.session_state, "Sign-in required");
    assert_eq!(shown.autostart_status, "Disabled");
    assert_eq!(shown.poll_interval_seconds, 8);
    assert_eq!(shown.notification_duration_seconds, 8);
    assert!(shown.copy_button_enabled);
    assert!(!shown.launch_on_startup);
    assert_eq!(shown.last_masked_code.as_deref(), Some("******"));
    assert_eq!(shown.debug_logs, vec!["line".to_owned()]);
    reconcile_launch_on_startup(&mut state, true);
    assert_eq!(SettingsSnapshot::from_state(&state).autostart_status, "Enabled");
}

#[test]
fn session_states_have_words() {
    for (state, label) in [
        (MailSessionState::Unauthenticated, "Sign-in required"),
        (MailSessionState::Restoring, "Restoring session"),
        (MailSessionState::Authenticated, "Monitoring active"),
        (MailSessionState::Expired, "Session expired"),
        (MailSessionState::Error, "Attention needed"),
        (MailSessionState::Paused, "Monitoring paused"),
    ] {
        assert_eq!(session_state_label(state), label);
    }
}

#[test]
fn payloads_never_last_less_than_nothing() {
    let mut shown = OtpNotification::new("A".to_owned(), "1234".to_owned(), now(), 8);
    shown.expires_at = now().plus_seconds(-1);
    let payload = OverlayPayload::from_notification(&shown, false);
    assert_eq!(payload.duration_ms, 0);
    assert!(!payload.copy_enabled);
}

#[test]
fn scripts_call_the_pages() {
    assert_eq!(render_script("{}"), "window.__PROTON2FA_STATUS.render({});");
    assert_eq!(show_script("{}"), "window.__PROTON2FA_OVERLAY.show({});");
}
