//! What holds of the rules of the smaller application for Windows: for each
//! event, what it leaves of the state, what is done and what follows.

#[allow(unused_imports)]
use crate::app::{ids_json, RegisterError, StateView};
#[allow(unused_imports)]
use crate::config::ConfigView;
#[allow(unused_imports)]
use crate::desktop_app::{command_of, edited, ReplyView, TrayIds, WindowKind};
#[allow(unused_imports)]
use crate::events::SettingsActionView;
#[allow(unused_imports)]
use crate::models::{EmailView, MailSessionState};
#[allow(unused_imports)]
use crate::otp::{detection, FindingView};
#[allow(unused_imports)]
use crate::paths::FileStepView;
#[allow(unused_imports)]
use crate::state_laws::{
    can_end, new_message_is_remembered, notification_says_what_it_was_made_with,
};
#[allow(unused_imports)]
use crate::state_laws::{presents, remembers, tells_of};
#[allow(unused_imports)]
use crate::text::{contains_text, hex_digits, lowercase};
#[allow(unused_imports)]
use crate::timestamp::Timestamp;
#[allow(unused_imports)]
use crate::windows_app::{
    fingerprint_of, page_continuation, page_id, page_mail, page_reaction, page_tray_chosen,
    status_of, text_writes, tray_drained, PageEffectView, PageEventView, PageReaction,
    PageTaskView, PageView, StatusView,
};
#[allow(unused_imports)]
use std::collections::hash_map::DefaultHasher;
use vstd::prelude::*;
#[allow(unused_imports)]
use vstd::std_specs::hash::DefaultHasherAdditionalSpecFns;

verus! {

/// `view` shows `state`.
pub open spec fn shows_status(view: StatusView, state: StateView) -> bool {
    &&& view.session_state == match state.session_state {
        MailSessionState::Unauthenticated => "Unauthenticated"@,
        MailSessionState::Restoring => "Restoring session"@,
        MailSessionState::Authenticated => "Authenticated"@,
        MailSessionState::Expired => "Expired"@,
        MailSessionState::Error => "Error"@,
        MailSessionState::Paused => "Paused"@,
    }
    &&& view.autostart_status == if state.config.launch_on_startup {
        "Enabled"@
    } else {
        "Disabled"@
    }
    &&& view.poll_interval_seconds == state.config.poll_interval_seconds
    &&& view.notification_duration_seconds == state.config.notification_duration_seconds
    &&& view.copy_button_enabled == state.config.copy_button_enabled
    &&& view.launch_on_startup == state.config.launch_on_startup
    &&& view.last_masked_code is Some <==> state.current_notification is Some
    &&& state.current_notification matches Some(shown) ==> view.last_masked_code == Some(
        shown.masked_code,
    )
}

/// The status window shows the session, the settings and the hidden code as they
/// are.
pub proof fn status_window_shows_the_state(state: StateView)
    ensures
        shows_status(status_of(state), state),
{
}

/// `effect` shows `state` in the status window; the handling ends where that
/// fails if it is `required`.
pub open spec fn refreshes(effect: PageEffectView, state: StateView, required: bool) -> bool {
    effect matches PageEffectView::Refresh(view, r) && r == required && shows_status(view, state)
}

/// A page whose code is new is delivered: the page is remembered under its
/// fingerprint and its code becomes the current notification, under the title of
/// the page and whatever was shown before; the messages seen are written, and the
/// overlay is put in place, given the notification and shown.
pub proof fn new_code_on_the_page_is_delivered(
    state: StateView,
    page: PageView,
    reply: ReplyView,
    now: Timestamp,
    code: Seq<char>,
)
    requires
        state.session_state !is Paused,
        !state.seen.ids.contains(page_id(page)),
        !state.seen.order.contains(page_id(page)),
        detection(
            EmailView {
                message_id: page_id(page),
                sender: None,
                subject: Some(page.title),
                received_at: now,
                body_text: page.text,
            },
        ) == FindingView::Code(code),
        can_end(now, state.config.notification_duration_seconds),
    ensures
        page_continuation(state, PageTaskView::Deliver(page), reply, now) matches PageReaction::Step(
            outcome,
        ) && outcome.state.current_notification matches Some(shown) && {
            let effects = outcome.step.effects;
            &&& tells_of(shown, page.title, code, now, state.config.notification_duration_seconds)
            &&& remembers(state.seen, page_id(page), outcome.state.seen)
            &&& outcome.state == (StateView {
                current_notification: Some(shown),
                seen: outcome.state.seen,
                ..state
            })
            &&& effects.len() == 6
            &&& effects[0] matches PageEffectView::SaveSeenCache(write)
            &&& write.payload == ids_json(outcome.state.seen.order)
            &&& write.write == FileStepView::WriteSeenCache(state.seen_cache_path)
            &&& write.create_dir == FileStepView::CreateParentDir(state.seen_cache_path)
            &&& effects[1] == PageEffectView::PositionOverlay
            &&& effects[2] matches PageEffectView::RenderOverlay(payload)
            &&& presents(payload, shown, state.config.copy_button_enabled)
            &&& effects[3] == PageEffectView::Show(WindowKind::Overlay)
            &&& effects[4] == PageEffectView::Focus(WindowKind::Overlay)
            &&& refreshes(effects[5], outcome.state, true)
            &&& outcome.step.next is None
        },
{
    let email = page_mail(page, page_id(page), now);
    notification_says_what_it_was_made_with(
        page.title,
        code,
        now,
        state.config.notification_duration_seconds,
    );
    new_message_is_remembered(state.seen, page_id(page));
    assert(crate::otp::source_label(email) == page.title);
}

/// A page is left alone during a pause. One that was seen before or holds no code
/// changes nothing and has the state shown; one that cannot be judged, or whose
/// notification could not end, is refused with the error that says so.
pub proof fn other_pages_change_nothing(
    state: StateView,
    page: PageView,
    reply: ReplyView,
    now: Timestamp,
)
    ensures
        ({
            let found = detection(
                EmailView {
                    message_id: page_id(page),
                    sender: None,
                    subject: Some(page.title),
                    received_at: now,
                    body_text: page.text,
                },
            );
            let after = page_continuation(state, PageTaskView::Deliver(page), reply, now);
            let seen = state.seen.ids.contains(page_id(page));
            &&& state.session_state is Paused ==> (after matches PageReaction::Step(outcome)
                && outcome.state == state && outcome.step.effects.len() == 0 && outcome.step.next
                is None)
            &&& state.session_state !is Paused && (seen || found is Nothing) ==> (after matches
                PageReaction::Step(outcome) && outcome.state == state
                && outcome.step.effects.len() == 1 && refreshes(
                outcome.step.effects[0],
                state,
                true,
            ) && outcome.step.next is None)
            &&& state.session_state !is Paused && !seen && found is SplitCharacter ==> after
                == PageReaction::Refused(state, RegisterError::SplitCharacter)
            &&& state.session_state !is Paused && !seen && found is Code && !can_end(
                now,
                state.config.notification_duration_seconds,
            ) ==> after == PageReaction::Refused(state, RegisterError::ExpiryOutOfRange)
        }),
{
    let email = page_mail(page, page_id(page), now);
    assert(email == EmailView {
        message_id: page_id(page),
        sender: None,
        subject: Some(page.title),
        received_at: now,
        body_text: page.text,
    });
}

/// What a page shows of the session: words that ask to sign in come before its
/// address.
pub open spec fn page_tells(page: PageView, session_state: MailSessionState) -> bool {
    let text = lowercase(page.text);
    if contains_text(page.url, "account.proton.me"@) || contains_text(text, "sign in"@)
        || contains_text(text, "log in"@) {
        session_state is Unauthenticated
    } else if contains_text(page.url, "mail.proton.me"@) {
        session_state is Authenticated
    } else {
        session_state is Restoring
    }
}

/// After a look at the page the session is in the state that the page shows,
/// whichever state it was in before, unless it is paused; nothing else of the
/// state changes. A signed-in page has the marker of the session kept, a
/// signed-out one has the mail window asked for, and the code is looked for next.
pub proof fn session_follows_the_page(state: StateView, page: PageView)
    ensures
        ({
            let outcome = page_reaction(state, PageEventView::Snapshot(page));
            let effects = outcome.step.effects;
            &&& state.session_state is Paused ==> outcome.state.session_state is Paused
            &&& state.session_state !is Paused ==> page_tells(page, outcome.state.session_state)
            &&& outcome.state == (StateView {
                session_state: outcome.state.session_state,
                ..state
            })
            &&& effects.len() >= 1
            &&& refreshes(effects[0], outcome.state, true)
            &&& page_tells(page, MailSessionState::Authenticated) ==> {
                &&& effects.len() == 2
                &&& effects[1] == PageEffectView::SaveMarker("authenticated"@)
                &&& outcome.step.next == Some(PageTaskView::Deliver(page))
            }
            &&& page_tells(page, MailSessionState::Unauthenticated) ==> {
                &&& effects.len() == 2
                &&& effects[1] == PageEffectView::AskMailVisible
                &&& outcome.step.next == Some(PageTaskView::RevealMail(page))
            }
            &&& page_tells(page, MailSessionState::Restoring) ==> {
                &&& effects.len() == 1
                &&& outcome.step.next == Some(PageTaskView::Deliver(page))
            }
        }),
{
}

/// A hidden mail window is shown and focused, a visible one is left alone; the
/// code is looked for next either way. Once starting at sign-in has been changed
/// the configuration says so, is saved and shown.
pub proof fn tasks_do_what_they_say(
    state: StateView,
    page: PageView,
    launch: bool,
    reply: ReplyView,
    now: Timestamp,
)
    ensures
        page_continuation(state, PageTaskView::RevealMail(page), reply, now) matches
            PageReaction::Step(outcome) && outcome.state == state && outcome.step.effects == (if reply
            == ReplyView::MailVisible(true) {
            Seq::empty()
        } else {
            seq![PageEffectView::Show(WindowKind::Mail), PageEffectView::Focus(WindowKind::Mail)]
        }) && outcome.step.next == Some(PageTaskView::Deliver(page)),
        page_continuation(state, PageTaskView::ApplyLaunch(launch), reply, now) matches
            PageReaction::Step(outcome) && outcome.state == (StateView {
            config: ConfigView { launch_on_startup: launch, ..state.config },
            ..state
        }) && outcome.step.effects.len() == 2 && outcome.step.effects[0]
            == PageEffectView::SaveConfig(outcome.state.config) && refreshes(
            outcome.step.effects[1],
            outcome.state,
            true,
        ) && outcome.step.next is None,
{
}

/// Clicks and other events: the overlay is closed and its notification gone; its
/// code is copied if there is one; settings are edited and starting at sign-in
/// changed as asked for; windows are shown and hidden; the session is set; and any
/// other click does nothing.
pub proof fn events_do_what_they_say(
    state: StateView,
    click: Seq<char>,
    action: SettingsActionView,
    session_state: MailSessionState,
)
    ensures
        ({
            let dismissed = page_reaction(state, PageEventView::DismissOverlay);
            &&& dismissed.state == (StateView { current_notification: None, ..state })
            &&& dismissed.step.effects == seq![PageEffectView::Hide(WindowKind::Overlay)]
            &&& dismissed.step.next is None
            &&& click == "dismiss"@ ==> page_reaction(state, PageEventView::OverlayAction(click))
                == dismissed
        }),
        ({
            let clicked = page_reaction(state, PageEventView::OverlayAction(click));
            &&& click == "copy"@ && state.current_notification is Some ==> clicked.state == state
                && clicked.step.effects == seq![
                PageEffectView::CopyCode(state.current_notification.unwrap().raw_code),
            ] && clicked.step.next is None
            &&& click != "dismiss"@ && (click != "copy"@ || state.current_notification is None)
                ==> clicked.state == state && clicked.step.effects.len() == 0 && clicked.step.next
                is None
        }),
        ({
            let launch = match action.launch_on_startup {
                Some(asked) => asked,
                None => state.config.launch_on_startup,
            };
            let clicked = page_reaction(state, PageEventView::SettingsAction(action));
            &&& action.kind == "save_config"@ ==> {
                &&& clicked.state == (StateView { config: edited(state.config, action), ..state })
                &&& clicked.step.effects == seq![PageEffectView::SyncLaunchOnStartup(launch)]
                &&& clicked.step.next == Some(PageTaskView::ApplyLaunch(launch))
            }
            &&& action.kind != "save_config"@ ==> clicked.state == state && clicked.step.next is None
            &&& action.kind == "login_window"@ ==> clicked.step.effects == seq![
                PageEffectView::Show(WindowKind::Mail),
                PageEffectView::Focus(WindowKind::Mail),
            ]
            &&& action.kind == "hide_status"@ ==> clicked.step.effects == seq![
                PageEffectView::Hide(WindowKind::Settings),
            ]
            &&& action.kind != "save_config"@ && action.kind != "login_window"@ && action.kind
                != "hide_status"@ ==> clicked.step.effects.len() == 0
        }),
        ({
            let set = page_reaction(state, PageEventView::SetSession(session_state));
            &&& set.state == (StateView { session_state, ..state })
            &&& set.step.effects.len() == 1
            &&& refreshes(set.step.effects[0], set.state, true)
            &&& set.step.next is None
        }),
{
    reveal_strlit("dismiss");
    reveal_strlit("copy");
    reveal_strlit("save_config");
    reveal_strlit("login_window");
    reveal_strlit("hide_status");
    assert("dismiss"@.len() != "copy"@.len());
    assert("save_config"@.len() != "login_window"@.len());
    assert("login_window"@.len() != "hide_status"@.len());
    assert("save_config"@[0] != "hide_status"@[0]);
}

/// Each entry of the tray menu does what it is called, where all have identifiers
/// of their own, also where others are waiting before it: what they came to stays,
/// and their effects come first.
pub proof fn tray_entries_do_what_they_say(
    start: StateView,
    waiting: Seq<Seq<char>>,
    menu_id: Seq<char>,
    ids: TrayIds,
)
    requires
        seq![
            ids.open_status@,
            ids.open_login@,
            ids.pause_resume@,
            ids.clear_session@,
            ids.quit@,
        ].no_duplicates(),
    ensures
        tray_drained(start, Seq::empty(), ids) == (start, Seq::<PageEffectView>::empty()),
        ({
            let (state, before) = tray_drained(start, waiting, ids);
            let (after, all) = tray_drained(start, waiting.push(menu_id), ids);
            let effects = all.skip(before.len() as int);
            &&& before.is_prefix_of(all)
            &&& after == (StateView { session_state: after.session_state, ..state })
            &&& menu_id != ids.pause_resume@ ==> after == state
            &&& menu_id == ids.open_status@ ==> {
                &&& effects.len() == 3
                &&& effects[0] == PageEffectView::Show(WindowKind::Settings)
                &&& effects[1] == PageEffectView::Focus(WindowKind::Settings)
                &&& refreshes(effects[2], state, false)
            }
            &&& menu_id == ids.open_login@ ==> effects == seq![
                PageEffectView::Show(WindowKind::Mail),
                PageEffectView::Focus(WindowKind::Mail),
            ]
            &&& menu_id == ids.pause_resume@ ==> {
                &&& state.session_state is Paused ==> after.session_state is Authenticated
                &&& state.session_state !is Paused ==> after.session_state is Paused
                &&& effects.len() == 1
                &&& refreshes(effects[0], after, false)
            }
            &&& menu_id == ids.clear_session@ ==> effects == seq![
                PageEffectView::ClearMarker,
                PageEffectView::Send(PageEventView::SetSession(MailSessionState::Unauthenticated)),
                PageEffectView::Show(WindowKind::Mail),
            ]
            &&& menu_id == ids.quit@ ==> effects == seq![PageEffectView::Exit]
            &&& menu_id != ids.open_status@ && menu_id != ids.open_login@ && menu_id
                != ids.pause_resume@ && menu_id != ids.clear_session@ && menu_id != ids.quit@
                ==> effects.len() == 0
        }),
{
    let all = seq![
        ids.open_status@,
        ids.open_login@,
        ids.pause_resume@,
        ids.clear_session@,
        ids.quit@,
    ];
    assert(all[0] != all[1] && all[0] != all[2] && all[0] != all[3] && all[0] != all[4]);
    assert(all[1] != all[2] && all[1] != all[3] && all[1] != all[4]);
    assert(all[2] != all[3] && all[2] != all[4] && all[3] != all[4]);
    let (state, before) = tray_drained(start, waiting, ids);
    assert(waiting.push(menu_id).drop_last() =~= waiting);
    assert(waiting.push(menu_id).last() == menu_id);
    let (after, more) = page_tray_chosen(state, command_of(menu_id, ids));
    assert((before + more).skip(before.len() as int) =~= more);
    assert(before.is_prefix_of(before + more));
}

/// A page is known by a hash of its address, its title and its text, and by
/// nothing else: sixteen hexadecimal digits behind a fixed word, the last of which
/// are those of the hash.
pub proof fn pages_are_known_by_their_contents(page: PageView, hash: u64)
    ensures
        page_id(page) == fingerprint_of(
            DefaultHasher::spec_finish(
                text_writes(page.url) + text_writes(page.title) + text_writes(page.text),
            ),
        ),
        fingerprint_of(hash).take(9) == "snapshot-"@,
        fingerprint_of(hash).len() == 25,
        fingerprint_of(hash).skip(9) == hex_digits(hash as nat, 16),
{
    reveal_strlit("snapshot-");
    crate::text_laws::hexadecimal_is_positional(hash as nat, 15);
    assert(fingerprint_of(hash).take(9) =~= "snapshot-"@);
    assert(fingerprint_of(hash).skip(9) =~= hex_digits(hash as nat, 16));
}

/// The handling of an event goes on where a window could not be shown, hidden or
/// focused, the messages could not be written or the marker not be removed; where
/// anything is lost that the user asked for or has to see, it ends.
pub proof fn failures_that_matter_end_the_handling(
    effect: PageEffectView,
    view: StatusView,
    required: bool,
)
    ensures
        PageEffectView::Refresh(view, required).required() == required,
        effect is CopyCode || effect is SyncLaunchOnStartup || effect is SaveConfig || effect
            is SaveMarker || effect is PositionOverlay || effect is RenderOverlay
            ==> effect.required(),
        effect is Show || effect is Hide || effect is Focus || effect is SaveSeenCache || effect
            is ClearMarker || effect is AskMailVisible || effect is Send || effect is Exit
            ==> !effect.required(),
{
}

} // verus!
