//! What holds of the rules of the desktop application: for each event, what it
//! leaves of the state, what is done and what follows.

#[allow(unused_imports)]
use crate::app::{ids_json, RegisterError, StateView};
#[allow(unused_imports)]
use crate::autostart::Platform;
#[allow(unused_imports)]
use crate::config::ConfigView;
#[allow(unused_imports)]
use crate::desktop_app::{
    command_of, continuation, delivery, edited, launch_reconciled, logged, mail_is_shown, reaction,
    session_restored, started, tray_chosen, EffectView, NextView, Outcome, Reaction, ReplyView,
    TaskView, TrayIds, WindowKind,
};
#[allow(unused_imports)]
use crate::events::{EventView, SettingsActionView, SnapshotView};
#[allow(unused_imports)]
use crate::models::{EmailView, MailSessionState, NotificationView};
#[allow(unused_imports)]
use crate::otp::{detection, source_label, FindingView};
#[allow(unused_imports)]
use crate::paths::FileStepView;
#[allow(unused_imports)]
use crate::state_laws::{
    can_end, new_message_is_remembered, notification_says_what_it_was_made_with,
};
#[allow(unused_imports)]
use crate::state_laws::{presents, remembers, shows_state, tells_of};
#[allow(unused_imports)]
use crate::text::{contains_text, lowercase};
#[allow(unused_imports)]
use crate::timestamp::Timestamp;
use vstd::prelude::*;

verus! {

/// `effect` shows `state` in the settings window; the handling ends where that
/// fails if it is `required`.
pub open spec fn shows_settings(effect: EffectView, state: StateView, required: bool) -> bool {
    effect matches EffectView::RefreshSettings(view, r) && r == required && shows_state(
        view,
        state,
    )
}

/// `effect` writes the messages seen of `state`, in their order, to the file that
/// keeps them, after making its directory.
pub open spec fn writes_seen(effect: EffectView, state: StateView) -> bool {
    effect matches EffectView::SaveSeenCache(write) && write.payload == ids_json(state.seen.order)
        && write.write == FileStepView::WriteSeenCache(state.seen_cache_path) && write.create_dir
        == FileStepView::CreateParentDir(state.seen_cache_path)
}

/// The state that is left differs at most in its log.
pub open spec fn differs_in_log(before: StateView, after: StateView) -> bool {
    &&& after.config == before.config
    &&& after.session_state == before.session_state
    &&& after.current_notification == before.current_notification
    &&& after.seen == before.seen
    &&& after.seen_cache_path == before.seen_cache_path
}

/// The log of a look at the page, before any mail is looked at.
pub open spec fn log_of_look(state: StateView, snapshot: SnapshotView) -> Seq<Seq<char>> {
    match snapshot.debug_log {
        Some(line) => state.debug_logs.push(line),
        None => state.debug_logs,
    }
}

/// A mail that gives no notification: one already seen, or without a code.
pub open spec fn is_old_or_plain(state: StateView, email: EmailView) -> bool {
    state.seen.ids.contains(email.message_id) || detection(email) is Nothing
}

/// What mails come to that give no notification.
proof fn lemma_delivery(
    state: StateView,
    candidates: Seq<EmailView>,
    now: Timestamp,
    from: int,
    k: int,
)
    requires
        0 <= from <= k <= candidates.len(),
        forall|i: int| from <= i < k ==> is_old_or_plain(state, #[trigger] candidates[i]),
    ensures
        delivery(state, candidates, now, from) == delivery(state, candidates, now, k),
    decreases k - from,
{
    if from < k {
        assert(is_old_or_plain(state, candidates[from]));
        lemma_delivery(state, candidates, now, from + 1, k);
    }
}

/// The first mail on the page that is new and holds a code is delivered: it is
/// remembered and its code becomes the current notification, whatever was shown
/// before; the list of messages is written, the log tells of the hidden code and
/// of the mailbox, and the overlay is made and given the notification next.
/// Nothing stops this but a pause, or a signed-in page that does not show all
/// mails.
pub proof fn first_new_code_is_delivered(
    state: StateView,
    snapshot: SnapshotView,
    session_state: MailSessionState,
    reply: ReplyView,
    platform: Platform,
    now: Timestamp,
    k: int,
    code: Seq<char>,
)
    requires
        state.session_state !is Paused,
        session_state is Authenticated ==> snapshot.all_mail_ready,
        0 <= k < snapshot.candidates.len(),
        forall|i: int| 0 <= i < k ==> is_old_or_plain(state, #[trigger] snapshot.candidates[i]),
        !state.seen.ids.contains(snapshot.candidates[k].message_id),
        !state.seen.order.contains(snapshot.candidates[k].message_id),
        detection(snapshot.candidates[k]) == FindingView::Code(code),
        can_end(now, state.config.notification_duration_seconds),
    ensures
        ({
            let email = snapshot.candidates[k];
            let mailbox = match snapshot.mailbox_label {
                Some(label) => label,
                None => "All Mail"@,
            };
            &&& continuation(
                state,
                TaskView::Deliver(snapshot, session_state),
                reply,
                platform,
                now,
            ) matches Reaction::Step(outcome)
            &&& outcome.state.current_notification matches Some(shown)
            &&& tells_of(
                shown,
                source_label(email),
                code,
                now,
                state.config.notification_duration_seconds,
            )
            &&& remembers(state.seen, email.message_id, outcome.state.seen)
            &&& outcome.state.config == state.config
            &&& outcome.state.session_state == state.session_state
            &&& outcome.state.seen_cache_path == state.seen_cache_path
            &&& outcome.state.debug_logs == log_of_look(state, snapshot).push(
                "OTP matched in "@ + mailbox + ": "@ + shown.masked_code,
            )
            &&& outcome.step.effects.len() == 3
            &&& writes_seen(outcome.step.effects[0], outcome.state)
            &&& shows_settings(outcome.step.effects[1], outcome.state, true)
            &&& outcome.step.effects[2] == EffectView::EnsureOverlay
            &&& outcome.step.next == NextView::Resume(
                TaskView::Render(shown, state.config.copy_button_enabled),
            )
        }),
{
    let noted = match snapshot.debug_log {
        Some(line) => state.with_log(line),
        None => state,
    };
    let email = snapshot.candidates[k];
    assert forall|i: int| 0 <= i < k implies is_old_or_plain(
        noted,
        #[trigger] snapshot.candidates[i],
    ) by {
        assert(is_old_or_plain(state, snapshot.candidates[i]));
    }
    lemma_delivery(noted, snapshot.candidates, now, 0, k);
    notification_says_what_it_was_made_with(
        source_label(email),
        code,
        now,
        state.config.notification_duration_seconds,
    );
    new_message_is_remembered(state.seen, email.message_id);
}

/// Mails are left alone during a pause, on a signed-in page that does not show
/// all mails, and where every mail is an old one or holds no code: then only what
/// the page has to say is logged, and the settings window shows the state.
pub proof fn other_looks_deliver_nothing(
    state: StateView,
    snapshot: SnapshotView,
    session_state: MailSessionState,
    reply: ReplyView,
    platform: Platform,
    now: Timestamp,
)
    requires
        state.session_state is Paused || (session_state is Authenticated
            && !snapshot.all_mail_ready) || (forall|i: int|
            0 <= i < snapshot.candidates.len() ==> is_old_or_plain(
                state,
                #[trigger] snapshot.candidates[i],
            )),
    ensures
        continuation(
            state,
            TaskView::Deliver(snapshot, session_state),
            reply,
            platform,
            now,
        ) matches Reaction::Step(outcome) && differs_in_log(state, outcome.state)
            && outcome.state.debug_logs == log_of_look(state, snapshot)
            && outcome.step.effects.len() == 1 && shows_settings(
            outcome.step.effects[0],
            outcome.state,
            true,
        ) && outcome.step.next == NextView::Finish,
{
    let noted = match snapshot.debug_log {
        Some(line) => state.with_log(line),
        None => state,
    };
    if forall|i: int|
        0 <= i < snapshot.candidates.len() ==> is_old_or_plain(
            state,
            #[trigger] snapshot.candidates[i],
        ) {
        assert forall|i: int| 0 <= i < snapshot.candidates.len() implies is_old_or_plain(
            noted,
            #[trigger] snapshot.candidates[i],
        ) by {
            assert(is_old_or_plain(state, snapshot.candidates[i]));
        }
        lemma_delivery(noted, snapshot.candidates, now, 0, snapshot.candidates.len() as int);
    }
}

/// A new mail that cannot be judged, or whose notification could not end, stops
/// the delivery with the error that says so, before any mail behind it.
pub proof fn mail_that_cannot_be_judged_stops_the_delivery(
    state: StateView,
    snapshot: SnapshotView,
    session_state: MailSessionState,
    reply: ReplyView,
    platform: Platform,
    now: Timestamp,
    k: int,
)
    requires
        state.session_state !is Paused,
        session_state is Authenticated ==> snapshot.all_mail_ready,
        0 <= k < snapshot.candidates.len(),
        forall|i: int| 0 <= i < k ==> is_old_or_plain(state, #[trigger] snapshot.candidates[i]),
        !state.seen.ids.contains(snapshot.candidates[k].message_id),
    ensures
        ({
            let after = continuation(
                state,
                TaskView::Deliver(snapshot, session_state),
                reply,
                platform,
                now,
            );
            match detection(snapshot.candidates[k]) {
                FindingView::SplitCharacter => after matches Reaction::Refused(left, error) && error
                    == RegisterError::SplitCharacter && differs_in_log(state, left),
                FindingView::Code(_) => !can_end(now, state.config.notification_duration_seconds)
                    ==> (after matches Reaction::Refused(left, error) && error
                    == RegisterError::ExpiryOutOfRange && differs_in_log(state, left)),
                FindingView::Nothing => true,
            }
        }),
{
    let noted = match snapshot.debug_log {
        Some(line) => state.with_log(line),
        None => state,
    };
    assert forall|i: int| 0 <= i < k implies is_old_or_plain(
        noted,
        #[trigger] snapshot.candidates[i],
    ) by {
        assert(is_old_or_plain(state, snapshot.candidates[i]));
    }
    lemma_delivery(noted, snapshot.candidates, now, 0, k);
}

/// The overlay is never shown for a notification that it was not given: whatever
/// was answered, and whether or not its page has just been made, the step puts it
/// in place and hands it the code, the hidden code, the source and whether the
/// code can be copied. Only then it is revealed.
pub proof fn overlay_is_given_the_notification(
    state: StateView,
    shown: NotificationView,
    copy_enabled: bool,
    reply: ReplyView,
    platform: Platform,
    now: Timestamp,
)
    ensures
        continuation(
            state,
            TaskView::Render(shown, copy_enabled),
            reply,
            platform,
            now,
        ) matches Reaction::Step(outcome) && differs_in_log(state, outcome.state)
            && outcome.step.effects.len() == 2 && outcome.step.effects[0]
            == EffectView::PositionOverlay && (outcome.step.effects[1] matches
            EffectView::RenderOverlay(payload) && presents(payload, shown, copy_enabled))
            && outcome.step.next == NextView::Resume(TaskView::Reveal(shown.source_label))
            && outcome.state.debug_logs == if reply == ReplyView::OverlayReady(true) {
            state.debug_logs.push(
                match platform {
                    Platform::Windows =>
                        "Overlay webview initialized lazily with no_redirection_bitmap=true and background 00000000"@,
                    Platform::Other => "Overlay webview initialized lazily"@,
                },
            )
        } else {
            state.debug_logs
        },
{
}

/// The overlay is shown and focused if its page took the notification; if not, it
/// stays hidden and the handling fails with the reason. The log tells which.
pub proof fn overlay_is_revealed_once_it_is_filled(
    state: StateView,
    source: Seq<char>,
    reply: ReplyView,
    platform: Platform,
    now: Timestamp,
)
    ensures
        continuation(state, TaskView::Reveal(source), reply, platform, now) matches Reaction::Step(
            outcome,
        ) && differs_in_log(state, outcome.state) && match reply {
            ReplyView::RenderFailed(reason) => {
                &&& outcome.state.debug_logs == state.debug_logs.push(
                    "Overlay render failed: "@ + reason,
                )
                &&& outcome.step.effects.len() == 1
                &&& shows_settings(outcome.step.effects[0], outcome.state, false)
                &&& outcome.step.next == NextView::Fail(
                    "failed to render overlay notification: "@ + reason,
                )
            },
            _ => {
                &&& outcome.state.debug_logs == state.debug_logs.push(
                    "Overlay rendered for "@ + source,
                )
                &&& outcome.step.effects.len() == 3
                &&& outcome.step.effects[0] == EffectView::Show(WindowKind::Overlay)
                &&& outcome.step.effects[1] == EffectView::Focus(WindowKind::Overlay)
                &&& shows_settings(outcome.step.effects[2], outcome.state, false)
                &&& outcome.step.next == NextView::Finish
            },
        },
{
}

/// What a page at `url` with the given text shows of the session.
pub open spec fn page_shows(snapshot: SnapshotView, session_state: MailSessionState) -> bool {
    let text = lowercase(snapshot.page_text);
    if contains_text(snapshot.url, "mail.proton.me"@) {
        session_state is Authenticated
    } else if contains_text(snapshot.url, "account.proton.me"@) || contains_text(
        snapshot.url,
        "/login"@,
    ) || contains_text(text, "sign in to proton"@) || contains_text(text, "log in to proton"@) {
        session_state is Unauthenticated
    } else {
        session_state is Restoring
    }
}

/// After a look at the page the session is in the state that the page shows,
/// whichever state it was in before, unless it is paused: signed in on a page of
/// the mail service, signed out on another that asks to sign in, and being
/// restored on any other. Nothing else of the state changes, and the settings
/// window shows it first.
pub proof fn session_follows_the_page(state: StateView, snapshot: SnapshotView, now: Timestamp)
    ensures
        reaction(state, EventView::ProtonSnapshot(snapshot), now) matches Reaction::Step(outcome) && {
            &&& state.session_state is Paused ==> outcome.state.session_state is Paused
            &&& state.session_state !is Paused ==> page_shows(
                snapshot,
                outcome.state.session_state,
            )
            &&& outcome.state.config == state.config
            &&& outcome.state.current_notification == state.current_notification
            &&& outcome.state.seen == state.seen
            &&& outcome.state.seen_cache_path == state.seen_cache_path
            &&& outcome.state.debug_logs == state.debug_logs
            &&& outcome.step.effects.len() >= 1
            &&& shows_settings(outcome.step.effects[0], outcome.state, true)
        },
{
}

/// A signed-in page has the marker of the session kept and its mails looked at; a
/// signed-out page has the mail window asked for before; any other page has its
/// mails looked at. This holds during a pause, too.
pub proof fn page_decides_what_follows(state: StateView, snapshot: SnapshotView, now: Timestamp)
    ensures
        reaction(state, EventView::ProtonSnapshot(snapshot), now) matches Reaction::Step(outcome) && {
            let effects = outcome.step.effects;
            &&& page_shows(snapshot, MailSessionState::Authenticated) ==> {
                &&& effects.len() == 2
                &&& effects[1] == EffectView::SaveMarker("authenticated"@)
                &&& outcome.step.next == NextView::Resume(
                    TaskView::Deliver(snapshot, MailSessionState::Authenticated),
                )
            }
            &&& page_shows(snapshot, MailSessionState::Unauthenticated) ==> {
                &&& effects.len() == 2
                &&& effects[1] == EffectView::AskMailVisible
                &&& outcome.step.next == NextView::Resume(
                    TaskView::RevealMail(snapshot, MailSessionState::Unauthenticated),
                )
            }
            &&& page_shows(snapshot, MailSessionState::Restoring) ==> {
                &&& effects.len() == 1
                &&& outcome.step.next == NextView::Resume(
                    TaskView::Deliver(snapshot, MailSessionState::Restoring),
                )
            }
        },
{
}

/// A hidden mail window is shown and focused, a visible one is left alone; the
/// mails are looked at next either way.
pub proof fn hidden_mail_window_is_shown(
    state: StateView,
    snapshot: SnapshotView,
    session_state: MailSessionState,
    reply: ReplyView,
    platform: Platform,
    now: Timestamp,
)
    ensures
        continuation(
            state,
            TaskView::RevealMail(snapshot, session_state),
            reply,
            platform,
            now,
        ) matches Reaction::Step(outcome) && outcome.state == state && outcome.step.effects == (if reply
            == ReplyView::MailVisible(true) {
            Seq::empty()
        } else {
            seq![EffectView::Show(WindowKind::Mail), EffectView::Focus(WindowKind::Mail)]
        }) && outcome.step.next == NextView::Resume(TaskView::Deliver(snapshot, session_state)),
{
}

/// `kept` is `asked`, if that lies from `low` to `high`, else the nearer limit.
pub open spec fn is_brought_between(asked: u64, low: u64, high: u64, kept: u64) -> bool {
    &&& low <= asked <= high ==> kept == asked
    &&& asked < low ==> kept == low
    &&& asked > high ==> kept == high
}

/// Every value that was given is kept as it is within its limits, 5 to 30 seconds
/// between looks and 5 to 15 seconds for a notification, and brought to the nearer
/// limit outside of them; what was not given stays.
pub proof fn given_values_are_kept(config: ConfigView, action: SettingsActionView)
    ensures
        ({
            let after = edited(config, action);
            &&& match action.poll_interval_seconds {
                Some(asked) => is_brought_between(asked, 5, 30, after.poll_interval_seconds),
                None => after.poll_interval_seconds == config.poll_interval_seconds,
            }
            &&& match action.notification_duration_seconds {
                Some(asked) => is_brought_between(
                    asked,
                    5,
                    15,
                    after.notification_duration_seconds,
                ),
                None => after.notification_duration_seconds == config.notification_duration_seconds,
            }
            &&& match action.copy_button_enabled {
                Some(asked) => after.copy_button_enabled == asked,
                None => after.copy_button_enabled == config.copy_button_enabled,
            }
            &&& after.launch_on_startup == config.launch_on_startup
            &&& after.start_minimized_to_tray == config.start_minimized_to_tray
            &&& after.proton_mail_url == config.proton_mail_url
            &&& after.user_data_dir == config.user_data_dir
        }),
{
}

/// Saving in the settings window edits the configuration alone, then changes
/// starting at sign-in as asked for or, if that was not given, to what it was;
/// once that is done the configuration says so, is saved as a whole and shown.
pub proof fn saving_applies_and_keeps_the_settings(
    state: StateView,
    action: SettingsActionView,
    reply: ReplyView,
    platform: Platform,
    now: Timestamp,
)
    requires
        action.kind == "save_config"@,
    ensures
        ({
            let launch = match action.launch_on_startup {
                Some(asked) => asked,
                None => state.config.launch_on_startup,
            };
            &&& reaction(state, EventView::SettingsAction(action), now) matches Reaction::Step(first)
            &&& first.state.config == edited(state.config, action)
            &&& first.state.session_state == state.session_state
            &&& first.state.current_notification == state.current_notification
            &&& first.state.seen == state.seen
            &&& first.state.seen_cache_path == state.seen_cache_path
            &&& first.state.debug_logs == state.debug_logs
            &&& first.step.effects == seq![EffectView::SyncLaunchOnStartup(launch)]
            &&& first.step.next matches NextView::Resume(task)
            &&& continuation(first.state, task, reply, platform, now) matches Reaction::Step(second)
            &&& second.state.config.launch_on_startup == launch
            &&& second.state.config == (ConfigView {
                launch_on_startup: launch,
                ..first.state.config
            })
            &&& second.state == (StateView { config: second.state.config, ..first.state })
            &&& second.step.effects.len() == 2
            &&& second.step.effects[0] == EffectView::SaveConfig(second.state.config)
            &&& shows_settings(second.step.effects[1], second.state, true)
            &&& second.step.next == NextView::Finish
        }),
{
}

/// The other clicks in the settings window: a test shows a made-up code as a real
/// one is shown, and remembers no message; the mail page is opened and its window
/// shown; the window is hidden; and any other click does nothing.
pub proof fn other_clicks_in_the_settings_window(
    state: StateView,
    action: SettingsActionView,
    now: Timestamp,
)
    requires
        action.kind != "save_config"@,
    ensures
        action.kind == "test_notification"@ && can_end(
            now,
            state.config.notification_duration_seconds,
        ) ==> (reaction(state, EventView::SettingsAction(action), now) matches Reaction::Step(outcome)
            && outcome.state.current_notification matches Some(shown) && tells_of(
            shown,
            "Test Notification"@,
            "258630"@,
            now,
            state.config.notification_duration_seconds,
        ) && outcome.state == (StateView { current_notification: Some(shown), ..state })
            && outcome.step.effects.len() == 2 && shows_settings(
            outcome.step.effects[0],
            outcome.state,
            true,
        ) && outcome.step.effects[1] == EffectView::EnsureOverlay && outcome.step.next
            == NextView::Resume(TaskView::Render(shown, state.config.copy_button_enabled))),
        action.kind == "test_notification"@ && !can_end(
            now,
            state.config.notification_duration_seconds,
        ) ==> reaction(state, EventView::SettingsAction(action), now) == Reaction::Refused(
            state,
            RegisterError::ExpiryOutOfRange,
        ),
        action.kind == "login_window"@ ==> (reaction(
            state,
            EventView::SettingsAction(action),
            now,
        ) matches Reaction::Step(outcome) && outcome.state == state && outcome.step.effects == seq![
            EffectView::EnsureMailPage(state.config),
            EffectView::Show(WindowKind::Mail),
            EffectView::Focus(WindowKind::Mail),
        ] && outcome.step.next == NextView::Finish),
        action.kind == "hide_status"@ ==> (reaction(
            state,
            EventView::SettingsAction(action),
            now,
        ) matches Reaction::Step(outcome) && outcome.state == state && outcome.step.effects == seq![
            EffectView::Hide(WindowKind::Settings),
        ] && outcome.step.next == NextView::Finish),
        action.kind != "test_notification"@ && action.kind != "login_window"@ && action.kind
            != "hide_status"@ ==> (reaction(state, EventView::SettingsAction(action), now) matches
            Reaction::Step(outcome) && outcome.state == state && outcome.step.effects.len() == 0
            && outcome.step.next == NextView::Finish),
{
    reveal_strlit("test_notification");
    reveal_strlit("login_window");
    reveal_strlit("hide_status");
    assert("test_notification"@.len() != "login_window"@.len());
    assert("test_notification"@.len() != "hide_status"@.len());
    assert("login_window"@.len() != "hide_status"@.len());
    notification_says_what_it_was_made_with(
        "Test Notification"@,
        "258630"@,
        now,
        state.config.notification_duration_seconds,
    );
    if action.kind == "login_window"@ {
        let outcome = reaction(state, EventView::SettingsAction(action), now)->Step_0;
        assert(outcome.step.effects =~= seq![
            EffectView::EnsureMailPage(state.config),
            EffectView::Show(WindowKind::Mail),
            EffectView::Focus(WindowKind::Mail),
        ]);
    }
}

/// `outcome` closes the overlay: its window is hidden, nothing is left to show or
/// copy, the log tells so, and everything else stays.
pub open spec fn closes_overlay(state: StateView, outcome: Outcome, line: Seq<char>) -> bool {
    &&& outcome.state == (StateView {
        current_notification: None,
        debug_logs: state.debug_logs.push(line),
        ..state
    })
    &&& outcome.step.effects.len() == 2
    &&& outcome.step.effects[0] == EffectView::Hide(WindowKind::Overlay)
    &&& shows_settings(
        outcome.step.effects[1],
        StateView { debug_logs: state.debug_logs.push(line), ..state },
        false,
    )
    &&& outcome.step.next == NextView::Finish
}

/// The overlay is closed on a click and when its time is over. A click on the
/// button to copy puts the code of the current notification on the clipboard,
/// which the log tells once it is done; without a notification it does nothing,
/// and nor does any other click.
pub proof fn overlay_is_closed_and_copied_from(
    state: StateView,
    action: Seq<char>,
    reply: ReplyView,
    platform: Platform,
    now: Timestamp,
)
    ensures
        reaction(state, EventView::DismissOverlay, now) matches Reaction::Step(outcome)
            && closes_overlay(state, outcome, "Overlay auto-dismissed"@),
        action == "dismiss"@ ==> (reaction(state, EventView::OverlayAction(action), now) matches
            Reaction::Step(outcome) && closes_overlay(state, outcome, "Overlay dismissed"@)),
        action == "copy"@ && state.current_notification is Some ==> (reaction(
            state,
            EventView::OverlayAction(action),
            now,
        ) matches Reaction::Step(outcome) && outcome.state == state && outcome.step.effects == seq![
            EffectView::CopyCode(state.current_notification.unwrap().raw_code),
        ] && outcome.step.next == NextView::Resume(TaskView::NoteCopied)),
        action != "dismiss"@ && (action != "copy"@ || state.current_notification is None) ==> (
        reaction(state, EventView::OverlayAction(action), now) matches Reaction::Step(outcome)
            && outcome.state == state && outcome.step.effects.len() == 0 && outcome.step.next
            == NextView::Finish),
        continuation(state, TaskView::NoteCopied, reply, platform, now) matches Reaction::Step(
            outcome,
        ) && differs_in_log(state, outcome.state) && outcome.state.debug_logs
            == state.debug_logs.push("Overlay code copied"@) && outcome.step.effects.len() == 1
            && shows_settings(outcome.step.effects[0], outcome.state, false) && outcome.step.next
            == NextView::Finish,
{
    reveal_strlit("dismiss");
    reveal_strlit("copy");
    assert("dismiss"@.len() != "copy"@.len());
}

/// Setting the session sets it to exactly what was asked for and shows it; the
/// mail page is opened under the configuration, and its window shown if asked
/// for; and an entry of the tray menu is not handled as an event.
pub proof fn plain_events_do_what_they_say(
    state: StateView,
    session_state: MailSessionState,
    show_window: bool,
    id: Seq<char>,
    now: Timestamp,
)
    ensures
        reaction(state, EventView::SetSession(session_state), now) matches Reaction::Step(outcome)
            && outcome.state == (StateView { session_state, ..state })
            && outcome.step.effects.len() == 1 && shows_settings(
            outcome.step.effects[0],
            outcome.state,
            true,
        ) && outcome.step.next == NextView::Finish,
        reaction(state, EventView::EnsureProtonWebview(show_window), now) matches Reaction::Step(
            outcome,
        ) && outcome.state == state && outcome.step.effects == (if show_window {
            seq![
                EffectView::EnsureMailPage(state.config),
                EffectView::Show(WindowKind::Mail),
                EffectView::Focus(WindowKind::Mail),
            ]
        } else {
            seq![EffectView::EnsureMailPage(state.config)]
        }) && outcome.step.next == NextView::Finish,
        reaction(state, EventView::TrayMenu(id), now) matches Reaction::Step(outcome)
            && outcome.state == state && outcome.step.effects.len() == 0 && outcome.step.next
            == NextView::Finish,
{
    let opened = reaction(state, EventView::EnsureProtonWebview(show_window), now)->Step_0;
    assert(opened.step.effects =~= if show_window {
        seq![
            EffectView::EnsureMailPage(state.config),
            EffectView::Show(WindowKind::Mail),
            EffectView::Focus(WindowKind::Mail),
        ]
    } else {
        seq![EffectView::EnsureMailPage(state.config)]
    });
}

/// Each entry of the tray menu does what it is called, where all have identifiers
/// of their own.
pub proof fn tray_entries_do_what_they_say(state: StateView, menu_id: Seq<char>, ids: TrayIds)
    requires
        seq![
            ids.open_status@,
            ids.open_login@,
            ids.pause_resume@,
            ids.clear_session@,
            ids.quit@,
        ].no_duplicates(),
    ensures
        ({
            let outcome = tray_chosen(state, command_of(menu_id, ids));
            let effects = outcome.step.effects;
            &&& outcome.step.next == NextView::Finish
            &&& menu_id == ids.open_status@ ==> {
                &&& outcome.state == state
                &&& effects.len() == 3
                &&& effects[0] == EffectView::Show(WindowKind::Settings)
                &&& effects[1] == EffectView::Focus(WindowKind::Settings)
                &&& shows_settings(effects[2], state, false)
            }
            &&& menu_id == ids.open_login@ ==> {
                &&& outcome.state == state
                &&& effects == seq![
                    EffectView::EnsureMailPage(state.config),
                    EffectView::Show(WindowKind::Mail),
                    EffectView::Focus(WindowKind::Mail),
                ]
            }
            &&& menu_id == ids.pause_resume@ ==> {
                &&& state.session_state is Paused ==> outcome.state.session_state is Authenticated
                &&& state.session_state !is Paused ==> outcome.state.session_state is Paused
                &&& outcome.state == (StateView {
                    session_state: outcome.state.session_state,
                    ..state
                })
                &&& effects.len() == 1
                &&& shows_settings(effects[0], outcome.state, false)
            }
            &&& menu_id == ids.clear_session@ ==> {
                &&& outcome.state == state
                &&& effects == seq![
                    EffectView::ClearMarker,
                    EffectView::Send(EventView::SetSession(MailSessionState::Unauthenticated)),
                    EffectView::EnsureMailPage(state.config),
                    EffectView::Show(WindowKind::Mail),
                ]
            }
            &&& menu_id == ids.quit@ ==> outcome.state == state && effects == seq![EffectView::Exit]
            &&& menu_id != ids.open_status@ && menu_id != ids.open_login@ && menu_id
                != ids.pause_resume@ && menu_id != ids.clear_session@ && menu_id != ids.quit@
                ==> outcome.state == state && effects.len() == 0
        }),
{
    let all = seq![
        ids.open_status@,
        ids.open_login@,
        ids.pause_resume@,
        ids.clear_session@,
        ids.quit@,
    ];
    assert(all[0] != all[1] && all[0] != all[2] && all[0] != all[3] && all[0] != all[4]);
    assert(all[1] != all[2] && all[1] != all[3] && all[1] != all[4]);
    assert(all[2] != all[3] && all[2] != all[4] && all[3] != all[4]);
    let outcome = tray_chosen(state, command_of(menu_id, ids));
    if menu_id == ids.open_login@ {
        assert(outcome.step.effects =~= seq![
            EffectView::EnsureMailPage(state.config),
            EffectView::Show(WindowKind::Mail),
            EffectView::Focus(WindowKind::Mail),
        ]);
    }
}

/// At the start a kept marker means that the session is being restored, and
/// without one it stays as it is; the configuration is made to say whether the
/// application starts at sign-in, and saved exactly if it said otherwise; and the
/// mail page is opened 650 milliseconds later, in a window shown or not as asked.
pub proof fn start_restores_and_reconciles(
    state: StateView,
    has_marker: bool,
    autostart_enabled: bool,
    show_window: bool,
)
    ensures
        ({
            let restored = session_restored(state, has_marker);
            &&& has_marker ==> {
                &&& restored.state == (StateView {
                    session_state: MailSessionState::Restoring,
                    ..state
                })
                &&& restored.step.effects.len() == 1
                &&& shows_settings(restored.step.effects[0], restored.state, true)
            }
            &&& !has_marker ==> restored.state == state && restored.step.effects.len() == 0
            &&& restored.step.next == NextView::Finish
        }),
        ({
            let reconciled = launch_reconciled(state, autostart_enabled);
            &&& reconciled.state.config.launch_on_startup == autostart_enabled
            &&& reconciled.state == (StateView {
                config: ConfigView { launch_on_startup: autostart_enabled, ..state.config },
                ..state
            })
            &&& state.config.launch_on_startup != autostart_enabled ==> reconciled.step.effects
                == seq![EffectView::SaveConfig(reconciled.state.config)]
            &&& state.config.launch_on_startup == autostart_enabled
                ==> reconciled.step.effects.len() == 0
            &&& reconciled.step.next == NextView::Finish
        }),
        ({
            let step = started(state, show_window);
            &&& step.effects.len() == 2
            &&& shows_settings(step.effects[0], state, false)
            &&& step.effects[1] == EffectView::Defer(
                650,
                EventView::EnsureProtonWebview(show_window),
            )
            &&& step.next == NextView::Finish
        }),
{
}

/// The handling of an event goes on where a window could not be shown, hidden or
/// focused, the messages could not be written or the marker not be removed; where
/// anything is lost that the user asked for or has to see, it ends.
pub proof fn failures_that_matter_end_the_handling(
    effect: EffectView,
    view: crate::payloads::SettingsView,
    required: bool,
)
    ensures
        EffectView::RefreshSettings(view, required).required() == required,
        effect is CopyCode || effect is SyncLaunchOnStartup || effect is SaveConfig || effect
            is SaveMarker || effect is EnsureMailPage || effect is EnsureOverlay || effect
            is PositionOverlay || effect is RenderOverlay ==> effect.required(),
        effect is Show || effect is Hide || effect is Focus || effect is SaveSeenCache || effect
            is ClearMarker || effect is AskMailVisible || effect is Send || effect is Defer || effect
            is Exit ==> !effect.required(),
{
}

/// A start at sign-in shows no mail window, nor does a start in the tray; every
/// other start shows it.
pub proof fn mail_window_is_hidden_at_sign_in(launched: bool, config: ConfigView)
    ensures
        launched ==> !mail_is_shown(launched, config),
        config.start_minimized_to_tray ==> !mail_is_shown(launched, config),
        !launched && !config.start_minimized_to_tray ==> mail_is_shown(launched, config),
{
}

/// A line for the log is added behind the others and shown, and changes nothing
/// else.
pub proof fn lines_are_added_to_the_log(state: StateView, line: Seq<char>)
    ensures
        ({
            let outcome = logged(state, line);
            &&& differs_in_log(state, outcome.state)
            &&& outcome.state.debug_logs == state.debug_logs.push(line)
            &&& outcome.step.effects.len() == 1
            &&& shows_settings(outcome.step.effects[0], outcome.state, false)
            &&& outcome.step.next == NextView::Finish
        }),
{
}

} // verus!
