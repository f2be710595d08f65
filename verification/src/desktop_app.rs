//! The rules of the desktop application.
//!
//! Windows, pages, files and the other things outside are changed by other
//! code. It hands each event to the functions here, which change the state and
//! answer with a step: effects to carry out in their order, and what follows.
//! An effect that is required and fails ends the handling of the event.

use crate::app::{AppState, RegisterError, SeenCacheWrite};
#[allow(unused_imports)]
use crate::app::{cache_write, CacheWriteView, Registration, StateView};
use crate::autostart::Platform;
use crate::config::AppConfig;
#[allow(unused_imports)]
use crate::config::ConfigView;
use crate::events::{
    OverlayAction, ProtonSnapshot, SettingsAction, UserEvent, COPY_ACTION, DISMISS_ACTION,
};
#[allow(unused_imports)]
use crate::events::{EventView, SettingsActionView, SnapshotView};
use crate::models::{can_expire, MailSessionState, OtpCandidateEmail, OtpNotification};
#[allow(unused_imports)]
use crate::models::{expiry_exists, notification, optional_text, EmailView, NotificationView};
#[allow(unused_imports)]
use crate::otp::detection;
use crate::payloads::{OverlayPayload, SettingsSnapshot};
#[allow(unused_imports)]
use crate::payloads::{overlay_payload, settings_of, OverlayPayloadView, SettingsView};
use crate::secrets::AUTHENTICATED_MARKER;
use crate::text::{contains, same_text, to_lowercase};
#[allow(unused_imports)]
use crate::text::{contains_text, lowercase};
use crate::timestamp::Timestamp;
use vstd::prelude::*;

verus! {

/// How long after the start the mail page is opened, in milliseconds.
pub const STARTUP_PROTON_DEFER_MS: u64 = 650;

/// A window of the application.
#[derive(Debug, Clone, Copy, PartialEq, Eq, Structural)]
pub enum WindowKind {
    /// The notification.
    Overlay,
    /// The settings and the state of the session.
    Settings,
    /// The mail page.
    Mail,
}

/// Something to do outside.
#[derive(Debug, PartialEq, Eq)]
pub enum Effect {
    /// Show a window.
    Show(WindowKind),
    /// Hide a window.
    Hide(WindowKind),
    /// Give a window the focus.
    Focus(WindowKind),
    /// Show the state in the settings window.
    RefreshSettings {
        /// What to show.
        snapshot: SettingsSnapshot,
        /// Whether the handling ends if this fails.
        required: bool,
    },
    /// Put a code on the clipboard.
    CopyCode(String),
    /// Make the application start at sign-in, or not.
    SyncLaunchOnStartup(bool),
    /// Save the configuration.
    SaveConfig(AppConfig),
    /// Keep the marker of the session.
    SaveMarker(String),
    /// Remove the marker of the session.
    ClearMarker,
    /// Write the list of messages seen.
    SaveSeenCache(SeenCacheWrite),
    /// Open the mail page under this configuration, unless it is there.
    EnsureMailPage(AppConfig),
    /// Make the page of the overlay, unless it is there, and tell whether it
    /// was made.
    EnsureOverlay,
    /// Move the overlay to its place on the screen.
    PositionOverlay,
    /// Show a notification in the page of the overlay, and tell whether the
    /// page took it.
    RenderOverlay(OverlayPayload),
    /// Tell whether the window of the mail page is visible.
    AskMailVisible,
    /// Handle an event after this one.
    Send(UserEvent),
    /// Handle an event when some milliseconds have passed.
    Defer {
        /// How many milliseconds.
        after_ms: u64,
        /// The event.
        event: UserEvent,
    },
    /// End the application.
    Exit,
}

/// Something to do outside.
pub ghost enum EffectView {
    Show(WindowKind),
    Hide(WindowKind),
    Focus(WindowKind),
    RefreshSettings(SettingsView, bool),
    CopyCode(Seq<char>),
    SyncLaunchOnStartup(bool),
    SaveConfig(ConfigView),
    SaveMarker(Seq<char>),
    ClearMarker,
    SaveSeenCache(CacheWriteView),
    EnsureMailPage(ConfigView),
    EnsureOverlay,
    PositionOverlay,
    RenderOverlay(OverlayPayloadView),
    AskMailVisible,
    Send(EventView),
    Defer(u64, EventView),
    Exit,
}

impl View for Effect {
    type V = EffectView;

    open spec fn view(&self) -> EffectView {
        match self {
            Effect::Show(window) => EffectView::Show(*window),
            Effect::Hide(window) => EffectView::Hide(*window),
            Effect::Focus(window) => EffectView::Focus(*window),
            Effect::RefreshSettings { snapshot, required } => EffectView::RefreshSettings(
                snapshot@,
                *required,
            ),
            Effect::CopyCode(code) => EffectView::CopyCode(code@),
            Effect::SyncLaunchOnStartup(enabled) => EffectView::SyncLaunchOnStartup(*enabled),
            Effect::SaveConfig(config) => EffectView::SaveConfig(config@),
            Effect::SaveMarker(marker) => EffectView::SaveMarker(marker@),
            Effect::ClearMarker => EffectView::ClearMarker,
            Effect::SaveSeenCache(write) => EffectView::SaveSeenCache(write@),
            Effect::EnsureMailPage(config) => EffectView::EnsureMailPage(config@),
            Effect::EnsureOverlay => EffectView::EnsureOverlay,
            Effect::PositionOverlay => EffectView::PositionOverlay,
            Effect::RenderOverlay(payload) => EffectView::RenderOverlay(payload@),
            Effect::AskMailVisible => EffectView::AskMailVisible,
            Effect::Send(event) => EffectView::Send(event@),
            Effect::Defer { after_ms, event } => EffectView::Defer(*after_ms, event@),
            Effect::Exit => EffectView::Exit,
        }
    }
}

impl EffectView {
    /// The handling of an event ends where this fails.
    pub open spec fn required(self) -> bool {
        match self {
            EffectView::RefreshSettings(_, required) => required,
            EffectView::CopyCode(_) => true,
            EffectView::SyncLaunchOnStartup(_) => true,
            EffectView::SaveConfig(_) => true,
            EffectView::SaveMarker(_) => true,
            EffectView::EnsureMailPage(_) => true,
            EffectView::EnsureOverlay => true,
            EffectView::PositionOverlay => true,
            EffectView::RenderOverlay(_) => true,
            _ => false,
        }
    }
}

impl Effect {
    /// Whether the handling of an event ends where this fails.
    pub fn is_required(&self) -> (required: bool)
        ensures
            required == self@.required(),
    {
        match self {
            Effect::RefreshSettings { snapshot: _, required } => *required,
            Effect::CopyCode(_) => true,
            Effect::SyncLaunchOnStartup(_) => true,
            Effect::SaveConfig(_) => true,
            Effect::SaveMarker(_) => true,
            Effect::EnsureMailPage(_) => true,
            Effect::EnsureOverlay => true,
            Effect::PositionOverlay => true,
            Effect::RenderOverlay(_) => true,
            _ => false,
        }
    }
}

/// What the last effect of a step answered.
#[derive(Debug, PartialEq, Eq)]
pub enum Reply {
    /// It is done; there is nothing to tell.
    Done,
    /// The page of the overlay is there, and was made or was there before.
    OverlayReady {
        /// Whether it was made.
        built: bool,
    },
    /// The page of the overlay did not take the notification, for the reason
    /// given.
    RenderFailed(String),
    /// The window of the mail page is visible, or not.
    MailVisible(bool),
}

/// What the last effect of a step answered.
pub ghost enum ReplyView {
    Done,
    OverlayReady(bool),
    RenderFailed(Seq<char>),
    MailVisible(bool),
}

impl View for Reply {
    type V = ReplyView;

    open spec fn view(&self) -> ReplyView {
        match self {
            Reply::Done => ReplyView::Done,
            Reply::OverlayReady { built } => ReplyView::OverlayReady(*built),
            Reply::RenderFailed(reason) => ReplyView::RenderFailed(reason@),
            Reply::MailVisible(visible) => ReplyView::MailVisible(*visible),
        }
    }
}

/// How the handling of an event goes on.
#[derive(Debug, PartialEq, Eq)]
pub enum Task {
    /// Note that a code was copied.
    NoteCopied,
    /// Start at sign-in has been changed to this.
    ApplyLaunch(bool),
    /// Show the mail page where it is hidden, then look at the mails.
    RevealMail {
        /// What the page shows.
        snapshot: ProtonSnapshot,
        /// What that means for the session.
        session_state: MailSessionState,
    },
    /// Look at the mails.
    Deliver {
        /// What the page shows.
        snapshot: ProtonSnapshot,
        /// What that means for the session.
        session_state: MailSessionState,
    },
    /// Show the notification in the overlay.
    Render {
        /// The notification.
        shown: OtpNotification,
        /// Whether its code can be copied.
        copy_enabled: bool,
    },
    /// The overlay has been given a notification from this source.
    Reveal(String),
}

/// How the handling of an event goes on.
pub ghost enum TaskView {
    NoteCopied,
    ApplyLaunch(bool),
    RevealMail(SnapshotView, MailSessionState),
    Deliver(SnapshotView, MailSessionState),
    Render(NotificationView, bool),
    Reveal(Seq<char>),
}

impl View for Task {
    type V = TaskView;

    open spec fn view(&self) -> TaskView {
        match self {
            Task::NoteCopied => TaskView::NoteCopied,
            Task::ApplyLaunch(enabled) => TaskView::ApplyLaunch(*enabled),
            Task::RevealMail { snapshot, session_state } => TaskView::RevealMail(
                snapshot@,
                *session_state,
            ),
            Task::Deliver { snapshot, session_state } => TaskView::Deliver(
                snapshot@,
                *session_state,
            ),
            Task::Render { shown, copy_enabled } => TaskView::Render(shown@, *copy_enabled),
            Task::Reveal(source_label) => TaskView::Reveal(source_label@),
        }
    }
}

/// What follows the effects of a step.
#[derive(Debug, PartialEq, Eq)]
pub enum Next {
    /// Nothing: the event has been handled.
    Finish,
    /// The event could not be handled, for the reason given.
    Fail(String),
    /// The handling goes on, with the answer of the last effect.
    Resume(Task),
}

/// What follows the effects of a step.
pub ghost enum NextView {
    Finish,
    Fail(Seq<char>),
    Resume(TaskView),
}

impl View for Next {
    type V = NextView;

    open spec fn view(&self) -> NextView {
        match self {
            Next::Finish => NextView::Finish,
            Next::Fail(reason) => NextView::Fail(reason@),
            Next::Resume(task) => NextView::Resume(task@),
        }
    }
}

/// A part of the handling of an event.
#[derive(Debug, PartialEq, Eq)]
pub struct Step {
    /// What to do outside, in this order.
    pub effects: Vec<Effect>,
    /// What follows.
    pub next: Next,
}

/// A part of the handling of an event.
pub ghost struct StepView {
    pub effects: Seq<EffectView>,
    pub next: NextView,
}

/// The effects in a vector.
pub open spec fn effect_views(effects: Seq<Effect>) -> Seq<EffectView> {
    effects.map_values(|effect: Effect| effect@)
}

impl View for Step {
    type V = StepView;

    open spec fn view(&self) -> StepView {
        StepView { effects: effect_views(self.effects@), next: self.next@ }
    }
}

/// The last part of the handling of an event.
pub open spec fn finished(effects: Seq<EffectView>) -> StepView {
    StepView { effects, next: NextView::Finish }
}

/// A part of the handling of an event that `task` follows.
pub open spec fn followed(effects: Seq<EffectView>, task: TaskView) -> StepView {
    StepView { effects, next: NextView::Resume(task) }
}

/// The state that is left, and the step to take.
pub ghost struct Outcome {
    pub state: StateView,
    pub step: StepView,
}

/// What an event comes to.
pub ghost enum Reaction {
    /// A new state and a step.
    Step(Outcome),
    /// A mail cannot be handled; the state is left as given.
    Refused(StateView, RegisterError),
}

/// Shows `state` in the settings window.
pub open spec fn refresh(state: StateView, required: bool) -> EffectView {
    EffectView::RefreshSettings(settings_of(state), required)
}

/// Shows a window and gives it the focus.
pub open spec fn show_and_focus(window: WindowKind) -> Seq<EffectView> {
    seq![EffectView::Show(window), EffectView::Focus(window)]
}

/// A line is logged and the settings window shows it.
pub open spec fn logged(state: StateView, message: Seq<char>) -> Outcome {
    let after = state.with_log(message);
    Outcome { state: after, step: finished(seq![refresh(after, false)]) }
}

/// The effect that shows `state` in the settings window.
fn refresh_settings(state: &AppState, required: bool) -> (effect: Effect)
    ensures
        effect@ == refresh(state@, required),
{
    Effect::RefreshSettings { snapshot: SettingsSnapshot::from_state(state), required }
}

/// Logs a line; the effect shows it in the settings window.
fn push_debug_log_and_refresh(state: &mut AppState, message: String) -> (effect: Effect)
    ensures
        final(state)@ == old(state)@.with_log(message@),
        effect@ == refresh(final(state)@, false),
{
    state.push_debug_log(message);
    refresh_settings(state, false)
}

/// The last step of a handling.
fn finish(effects: Vec<Effect>) -> (step: Step)
    ensures
        step@ == finished(effect_views(effects@)),
{
    Step { effects, next: Next::Finish }
}

/// A step that `task` follows.
fn resume(effects: Vec<Effect>, task: Task) -> (step: Step)
    ensures
        step@ == followed(effect_views(effects@), task@),
{
    Step { effects, next: Next::Resume(task) }
}

/// The state of the session that a page at `url` with `lowered` text, all in
/// lower case, shows.
pub open spec fn session_of(url: Seq<char>, lowered: Seq<char>) -> MailSessionState {
    if contains_text(url, "mail.proton.me"@) {
        MailSessionState::Authenticated
    } else if contains_text(url, "account.proton.me"@) || contains_text(url, "/login"@)
        || contains_text(lowered, "sign in to proton"@) || contains_text(
        lowered,
        "log in to proton"@,
    ) {
        MailSessionState::Unauthenticated
    } else {
        MailSessionState::Restoring
    }
}

/// The state of the session that a page at `url` with `lowered` text, all in
/// lower case, shows.
pub fn session_from(url: &str, lowered: &str) -> (session_state: MailSessionState)
    ensures
        session_state == session_of(url@, lowered@),
{
    if contains(url, "mail.proton.me") {
        MailSessionState::Authenticated
    } else if contains(url, "account.proton.me") || contains(url, "/login") || contains(
        lowered,
        "sign in to proton",
    ) || contains(lowered, "log in to proton") {
        MailSessionState::Unauthenticated
    } else {
        MailSessionState::Restoring
    }
}

/// The state of the session that a page shows.
pub open spec fn inferred(snapshot: SnapshotView) -> MailSessionState {
    session_of(snapshot.url, lowercase(snapshot.page_text))
}

/// The state of the session that a page shows.
pub fn infer_session_state(snapshot: &ProtonSnapshot) -> (session_state: MailSessionState)
    ensures
        session_state == inferred(snapshot@),
{
    let text: String = to_lowercase(snapshot.page_text.as_str());
    session_from(snapshot.url.as_str(), text.as_str())
}

/// The session is in another state, which the settings window shows.
pub open spec fn session_updated(state: StateView, session_state: MailSessionState) -> Outcome {
    let after = state.with_session(session_state);
    Outcome { state: after, step: finished(seq![refresh(after, true)]) }
}

/// Puts the session into another state and shows it in the settings window.
pub fn update_session(state: &mut AppState, session_state: MailSessionState) -> (step: Step)
    ensures
        (Outcome { state: final(state)@, step: step@ }) == session_updated(
            old(state)@,
            session_state,
        ),
{
    state.set_session_state(session_state);
    let mut effects: Vec<Effect> = Vec::new();
    effects.push(refresh_settings(state, true));
    assert(effect_views(effects@) =~= seq![refresh(state@, true)]);
    finish(effects)
}

/// The state of the session after a look at a page that shows `seen`: a pause
/// lasts until the user ends it, whatever the page shows.
pub open spec fn session_after_look(
    current: MailSessionState,
    seen: MailSessionState,
) -> MailSessionState {
    if current is Paused {
        MailSessionState::Paused
    } else {
        seen
    }
}

/// The state of the session after a look at a page that shows `seen`.
pub fn follow_page(current: MailSessionState, seen: MailSessionState) -> (next: MailSessionState)
    ensures
        next == session_after_look(current, seen),
{
    if current == MailSessionState::Paused {
        MailSessionState::Paused
    } else {
        seen
    }
}

/// What a look at the mail page comes to: the session follows the page, unless
/// monitoring is paused; while the user is signed in that is kept for the next
/// start, and where they have to sign in the window with the page is shown. Then
/// come the mails.
pub open spec fn snapshot_taken(state: StateView, snapshot: SnapshotView) -> Outcome {
    let session_state = inferred(snapshot);
    let after = state.with_session(session_after_look(state.session_state, session_state));
    let step = match session_state {
        MailSessionState::Authenticated => followed(
            seq![refresh(after, true), EffectView::SaveMarker(AUTHENTICATED_MARKER@)],
            TaskView::Deliver(snapshot, session_state),
        ),
        MailSessionState::Unauthenticated | MailSessionState::Expired => followed(
            seq![refresh(after, true), EffectView::AskMailVisible],
            TaskView::RevealMail(snapshot, session_state),
        ),
        _ => followed(seq![refresh(after, true)], TaskView::Deliver(snapshot, session_state)),
    };
    Outcome { state: after, step }
}

/// Follows what the mail page shows.
pub fn handle_proton_snapshot(state: &mut AppState, snapshot: ProtonSnapshot) -> (step: Step)
    ensures
        (Outcome { state: final(state)@, step: step@ }) == snapshot_taken(
            old(state)@,
            snapshot@,
        ),
        old(state)@.session_state is Paused ==> final(state)@.session_state is Paused,
{
    let session_state: MailSessionState = infer_session_state(&snapshot);
    state.set_session_state(follow_page(state.session_state(), session_state));
    let mut effects: Vec<Effect> = Vec::new();
    effects.push(refresh_settings(state, true));
    match session_state {
        MailSessionState::Authenticated => {
            effects.push(Effect::SaveMarker(AUTHENTICATED_MARKER.to_owned()));
            assert(effect_views(effects@) =~= seq![
                refresh(state@, true),
                EffectView::SaveMarker(AUTHENTICATED_MARKER@),
            ]);
            resume(effects, Task::Deliver { snapshot, session_state })
        },
        MailSessionState::Unauthenticated | MailSessionState::Expired => {
            effects.push(Effect::AskMailVisible);
            assert(effect_views(effects@) =~= seq![
                refresh(state@, true),
                EffectView::AskMailVisible,
            ]);
            resume(effects, Task::RevealMail { snapshot, session_state })
        },
        _ => {
            assert(effect_views(effects@) =~= seq![refresh(state@, true)]);
            resume(effects, Task::Deliver { snapshot, session_state })
        },
    }
}

/// The window with the mail page is shown unless it is `visible`; then come
/// the mails.
pub open spec fn mail_revealed(
    state: StateView,
    snapshot: SnapshotView,
    session_state: MailSessionState,
    visible: bool,
) -> Outcome {
    Outcome {
        state,
        step: followed(
            if visible {
                Seq::empty()
            } else {
                show_and_focus(WindowKind::Mail)
            },
            TaskView::Deliver(snapshot, session_state),
        ),
    }
}

/// What the mails come to, from the one at `from` on.
pub ghost enum Delivery {
    /// None gives a notification.
    Nothing,
    /// The mail at this position gives a notification.
    Shown(int),
    /// A mail that comes first cannot be handled.
    Refused(RegisterError),
}

/// What the mails from position `from` on come to: the first that gives a
/// notification or cannot be handled decides.
pub open spec fn delivery(
    state: StateView,
    candidates: Seq<EmailView>,
    now: Timestamp,
    from: int,
) -> Delivery
    decreases candidates.len() - from,
{
    if from < 0 || from >= candidates.len() {
        Delivery::Nothing
    } else {
        let email = candidates[from];
        match state.registration(email, detection(email), now) {
            Registration::SplitCharacter => Delivery::Refused(RegisterError::SplitCharacter),
            Registration::ExpiryOutOfRange => Delivery::Refused(RegisterError::ExpiryOutOfRange),
            Registration::Done => if state.shown_for(email, detection(email), now) is Some {
                Delivery::Shown(from)
            } else {
                delivery(state, candidates, now, from + 1)
            },
        }
    }
}

/// Registers mails until one gives a notification.
pub fn deliver(state: &mut AppState, candidates: &Vec<OtpCandidateEmail>, now: Timestamp) -> (shown:
    Result<Option<OtpNotification>, RegisterError>)
    ensures
        match delivery(old(state)@, crate::events::emails(candidates@), now, 0) {
            Delivery::Nothing => {
                &&& shown == Ok::<Option<OtpNotification>, RegisterError>(None)
                &&& final(state)@ == old(state)@
            },
            Delivery::Shown(k) => {
                let email = candidates@[k]@;
                &&& 0 <= k < candidates@.len()
                &&& shown matches Ok(Some(n))
                &&& Some(n@) == old(state)@.shown_for(email, detection(email), now)
                &&& final(state)@ == old(state)@.after_mail(email, detection(email), now)
            },
            Delivery::Refused(error) => {
                &&& shown == Err::<Option<OtpNotification>, RegisterError>(error)
                &&& final(state)@ == old(state)@
            },
        },
{
    let ghost list = crate::events::emails(candidates@);
    let mut at: usize = 0;
    while at < candidates.len()
        invariant
            at <= candidates@.len(),
            list == crate::events::emails(candidates@),
            state@ == old(state)@,
            delivery(old(state)@, list, now, 0) == delivery(old(state)@, list, now, at as int),
        decreases candidates@.len() - at,
    {
        assert(list[at as int] == candidates@[at as int]@);
        match state.try_register_candidate_at(&candidates[at], now) {
            Ok(Some(shown)) => {
                return Ok(Some(shown));
            },
            Ok(None) => {},
            Err(error) => {
                return Err(error);
            },
        }
        at = at + 1;
    }
    Ok(None)
}

/// The mailbox that the log names where the page tells none.
pub const DEFAULT_MAILBOX: &'static str = "All Mail";

/// The line that the log gets for a code found.
pub open spec fn match_message(mailbox: Option<Seq<char>>, masked_code: Seq<char>) -> Seq<char> {
    let name = match mailbox {
        Some(label) => label,
        None => DEFAULT_MAILBOX@,
    };
    "OTP matched in "@ + name + ": "@ + masked_code
}

/// What the mails on the page come to. Nothing is looked for while monitoring
/// is paused, or while the user is signed in but the mailbox with all mails is
/// not open. The first new mail with a code is remembered and shown.
pub open spec fn mails_delivered(
    state: StateView,
    snapshot: SnapshotView,
    session_state: MailSessionState,
    now: Timestamp,
) -> Reaction {
    let noted = match snapshot.debug_log {
        Some(line) => state.with_log(line),
        None => state,
    };
    let unchanged = Reaction::Step(
        Outcome { state: noted, step: finished(seq![refresh(noted, true)]) },
    );
    if noted.session_state is Paused || (session_state is Authenticated
        && !snapshot.all_mail_ready) {
        unchanged
    } else {
        match delivery(noted, snapshot.candidates, now, 0) {
            Delivery::Nothing => unchanged,
            Delivery::Refused(error) => Reaction::Refused(noted, error),
            Delivery::Shown(k) => {
                let email = snapshot.candidates[k];
                let shown = noted.shown_for(email, detection(email), now).unwrap();
                let kept = noted.after_mail(email, detection(email), now);
                let after = kept.with_log(match_message(snapshot.mailbox_label, shown.masked_code));
                Reaction::Step(
                    Outcome {
                        state: after,
                        step: followed(
                            seq![
                                EffectView::SaveSeenCache(
                                    cache_write(kept.seen, kept.seen_cache_path),
                                ),
                                refresh(after, true),
                                EffectView::EnsureOverlay,
                            ],
                            TaskView::Render(shown, noted.config.copy_button_enabled),
                        ),
                    },
                )
            },
        }
    }
}

/// `step` and `after` are what the reaction says.
pub open spec fn reacts(
    reaction: Reaction,
    after: StateView,
    step: Result<Step, RegisterError>,
) -> bool {
    match reaction {
        Reaction::Step(outcome) => {
            &&& step matches Ok(s)
            &&& s@ == outcome.step
            &&& after == outcome.state
        },
        Reaction::Refused(state, error) => {
            &&& step == Err::<Step, RegisterError>(error)
            &&& after == state
        },
    }
}

/// The line that the log gets for a code found.
fn match_line(mailbox: &Option<String>, masked_code: &str) -> (line: String)
    ensures
        line@ == match_message(optional_text(*mailbox), masked_code@),
{
    let mut line: String = "OTP matched in ".to_owned();
    match mailbox {
        Some(label) => {
            line.append(label.as_str());
        },
        None => {
            line.append(DEFAULT_MAILBOX);
        },
    }
    line.append(": ");
    line.append(masked_code);
    line
}

/// Looks at the mails on the page.
pub fn deliver_mails(
    state: &mut AppState,
    snapshot: ProtonSnapshot,
    session_state: MailSessionState,
    now: Timestamp,
) -> (step: Result<Step, RegisterError>)
    ensures
        reacts(
            mails_delivered(old(state)@, snapshot@, session_state, now),
            final(state)@,
            step,
        ),
{
    if let Some(line) = &snapshot.debug_log {
        state.push_debug_log(line.clone());
    }
    let ghost noted = state@;
    let mut effects: Vec<Effect> = Vec::new();
    if state.session_state() == MailSessionState::Paused || (session_state
        == MailSessionState::Authenticated && !snapshot.all_mail_ready) {
        effects.push(refresh_settings(state, true));
        assert(effect_views(effects@) =~= seq![refresh(noted, true)]);
        return Ok(finish(effects));
    }
    let copy_enabled: bool = state.config().copy_button_enabled;
    match deliver(state, &snapshot.candidates, now) {
        Err(error) => Err(error),
        Ok(None) => {
            effects.push(refresh_settings(state, true));
            assert(effect_views(effects@) =~= seq![refresh(noted, true)]);
            Ok(finish(effects))
        },
        Ok(Some(shown)) => {
            let ghost kept = state@;
            if let Ok(write) = state.persist_seen_cache() {
                effects.push(Effect::SaveSeenCache(write));
            }
            state.push_debug_log(match_line(&snapshot.mailbox_label, shown.masked_code.as_str()));
            effects.push(refresh_settings(state, true));
            effects.push(Effect::EnsureOverlay);
            assert(effect_views(effects@) =~= seq![
                EffectView::SaveSeenCache(cache_write(kept.seen, kept.seen_cache_path)),
                refresh(state@, true),
                EffectView::EnsureOverlay,
            ]);
            Ok(resume(effects, Task::Render { shown, copy_enabled }))
        },
    }
}

/// The line that the log gets when the page of the overlay has been made.
pub open spec fn overlay_built_message(platform: Platform) -> Seq<char> {
    match platform {
        Platform::Windows =>
            "Overlay webview initialized lazily with no_redirection_bitmap=true and background 00000000"@,
        Platform::Other => "Overlay webview initialized lazily"@,
    }
}

/// The overlay is put in its place and given the notification; `built` says
/// that its page has just been made.
pub open spec fn overlay_filled(
    state: StateView,
    shown: NotificationView,
    copy_enabled: bool,
    built: bool,
    platform: Platform,
) -> Outcome {
    Outcome {
        state: if built {
            state.with_log(overlay_built_message(platform))
        } else {
            state
        },
        step: followed(
            seq![
                EffectView::PositionOverlay,
                EffectView::RenderOverlay(overlay_payload(shown, copy_enabled)),
            ],
            TaskView::Reveal(shown.source_label),
        ),
    }
}

/// Gives the overlay, which is there, the notification.
pub fn fill_overlay(
    state: &mut AppState,
    shown: OtpNotification,
    copy_enabled: bool,
    built: bool,
    platform: Platform,
) -> (step: Step)
    ensures
        (Outcome { state: final(state)@, step: step@ }) == overlay_filled(
            old(state)@,
            shown@,
            copy_enabled,
            built,
            platform,
        ),
{
    if built {
        let message: &str = match platform {
            Platform::Windows =>
                "Overlay webview initialized lazily with no_redirection_bitmap=true and background 00000000",
            Platform::Other => "Overlay webview initialized lazily",
        };
        state.push_debug_log(message.to_owned());
    }
    let payload: OverlayPayload = OverlayPayload::from_notification(&shown, copy_enabled);
    let mut effects: Vec<Effect> = Vec::new();
    effects.push(Effect::PositionOverlay);
    effects.push(Effect::RenderOverlay(payload));
    assert(effect_views(effects@) =~= seq![
        EffectView::PositionOverlay,
        EffectView::RenderOverlay(overlay_payload(shown@, copy_enabled)),
    ]);
    resume(effects, Task::Reveal(shown.source_label))
}

/// The overlay is shown if its page took the notification; `failure` is why it
/// did not.
pub open spec fn overlay_revealed(
    state: StateView,
    source_label: Seq<char>,
    failure: Option<Seq<char>>,
) -> Outcome {
    match failure {
        None => {
            let after = state.with_log("Overlay rendered for "@ + source_label);
            Outcome {
                state: after,
                step: finished(show_and_focus(WindowKind::Overlay).push(refresh(after, false))),
            }
        },
        Some(reason) => {
            let after = state.with_log("Overlay render failed: "@ + reason);
            Outcome {
                state: after,
                step: StepView {
                    effects: seq![refresh(after, false)],
                    next: NextView::Fail(
                        "failed to render overlay notification: "@ + reason,
                    ),
                },
            }
        },
    }
}

/// Shows the overlay if its page took the notification.
pub fn reveal_overlay(state: &mut AppState, source_label: String, failure: Option<String>) -> (step:
    Step)
    ensures
        (Outcome { state: final(state)@, step: step@ }) == overlay_revealed(
            old(state)@,
            source_label@,
            optional_text(failure),
        ),
{
    let mut effects: Vec<Effect> = Vec::new();
    match failure {
        None => {
            effects.push(Effect::Show(WindowKind::Overlay));
            effects.push(Effect::Focus(WindowKind::Overlay));
            let mut message: String = "Overlay rendered for ".to_owned();
            message.append(source_label.as_str());
            effects.push(push_debug_log_and_refresh(state, message));
            assert(effect_views(effects@) =~= show_and_focus(WindowKind::Overlay).push(
                refresh(state@, false),
            ));
            finish(effects)
        },
        Some(reason) => {
            let mut message: String = "Overlay render failed: ".to_owned();
            message.append(reason.as_str());
            effects.push(push_debug_log_and_refresh(state, message));
            assert(effect_views(effects@) =~= seq![refresh(state@, false)]);
            let mut failed: String = "failed to render overlay notification: ".to_owned();
            failed.append(reason.as_str());
            Step { effects, next: Next::Fail(failed) }
        },
    }
}

/// The overlay is closed, which `message` tells the log, and its notification
/// is gone.
pub open spec fn overlay_dismissed(state: StateView, message: Seq<char>) -> Outcome {
    let told = state.with_log(message);
    Outcome {
        state: told.with_notification(None),
        step: finished(seq![EffectView::Hide(WindowKind::Overlay), refresh(told, false)]),
    }
}

/// Closes the overlay.
pub fn dismiss_overlay(state: &mut AppState, message: &str) -> (step: Step)
    ensures
        (Outcome { state: final(state)@, step: step@ }) == overlay_dismissed(
            old(state)@,
            message@,
        ),
{
    let mut effects: Vec<Effect> = Vec::new();
    effects.push(Effect::Hide(WindowKind::Overlay));
    effects.push(push_debug_log_and_refresh(state, message.to_owned()));
    assert(effect_views(effects@) =~= seq![
        EffectView::Hide(WindowKind::Overlay),
        refresh(state@, false),
    ]);
    state.clear_notification();
    finish(effects)
}

/// What a click in the overlay comes to: it closes the overlay or copies the
/// code of the current notification, if there is one.
pub open spec fn overlay_clicked(state: StateView, action: Seq<char>) -> Outcome {
    if action == DISMISS_ACTION@ {
        overlay_dismissed(state, "Overlay dismissed"@)
    } else if action == COPY_ACTION@ && state.current_notification is Some {
        Outcome {
            state,
            step: followed(
                seq![EffectView::CopyCode(state.current_notification.unwrap().raw_code)],
                TaskView::NoteCopied,
            ),
        }
    } else {
        Outcome { state, step: finished(Seq::empty()) }
    }
}

/// Follows a click in the overlay.
pub fn handle_overlay_action(state: &mut AppState, action: OverlayAction) -> (step: Step)
    ensures
        (Outcome { state: final(state)@, step: step@ }) == overlay_clicked(
            old(state)@,
            action.action@,
        ),
{
    let mut effects: Vec<Effect> = Vec::new();
    if same_text(action.action.as_str(), DISMISS_ACTION) {
        return dismiss_overlay(state, "Overlay dismissed");
    }
    if same_text(action.action.as_str(), COPY_ACTION) {
        if let Some(code) = state.latest_notification_code() {
            effects.push(Effect::CopyCode(code.to_owned()));
            assert(effect_views(effects@) =~= seq![
                EffectView::CopyCode(state@.current_notification.unwrap().raw_code),
            ]);
            return resume(effects, Task::NoteCopied);
        }
    }
    assert(effect_views(effects@) =~= Seq::empty());
    finish(effects)
}

/// `value`, brought to the nearest number from `low` to `high`.
pub open spec fn clamped(value: u64, low: u64, high: u64) -> u64 {
    if value < low {
        low
    } else if value > high {
        high
    } else {
        value
    }
}

/// `value`, brought to the nearest number from `low` to `high`.
fn clamp(value: u64, low: u64, high: u64) -> (result: u64)
    ensures
        result == clamped(value, low, high),
{
    if value < low {
        low
    } else if value > high {
        high
    } else {
        value
    }
}

/// The configuration after the user has edited it, except for whether the
/// application starts at sign-in.
pub open spec fn edited(config: ConfigView, action: SettingsActionView) -> ConfigView {
    ConfigView {
        poll_interval_seconds: match action.poll_interval_seconds {
            Some(interval) => clamped(interval, 5, 30),
            None => config.poll_interval_seconds,
        },
        notification_duration_seconds: match action.notification_duration_seconds {
            Some(duration) => clamped(duration, 5, 15),
            None => config.notification_duration_seconds,
        },
        copy_button_enabled: match action.copy_button_enabled {
            Some(enabled) => enabled,
            None => config.copy_button_enabled,
        },
        ..config
    }
}

/// The configuration is edited, and starting at sign-in is to be changed as
/// asked for.
pub open spec fn config_edited(state: StateView, action: SettingsActionView) -> Outcome {
    let launch = match action.launch_on_startup {
        Some(launch) => launch,
        None => state.config.launch_on_startup,
    };
    Outcome {
        state: state.with_config(edited(state.config, action)),
        step: followed(
            seq![EffectView::SyncLaunchOnStartup(launch)],
            TaskView::ApplyLaunch(launch),
        ),
    }
}

/// Edits the configuration; the result is whether the application is to start
/// at sign-in.
pub fn edit(state: &mut AppState, action: &SettingsAction) -> (launch: bool)
    ensures
        final(state)@ == old(state)@.with_config(edited(old(state)@.config, action@)),
        launch == match action.launch_on_startup {
            Some(asked) => asked,
            None => old(state)@.config.launch_on_startup,
        },
{
    let mut config: AppConfig = state.config().clone();
    if let Some(interval) = action.poll_interval_seconds {
        config.poll_interval_seconds = clamp(interval, 5, 30);
    }
    if let Some(duration) = action.notification_duration_seconds {
        config.notification_duration_seconds = clamp(duration, 5, 15);
    }
    if let Some(enabled) = action.copy_button_enabled {
        config.copy_button_enabled = enabled;
    }
    let launch: bool = match action.launch_on_startup {
        Some(launch) => launch,
        None => config.launch_on_startup,
    };
    state.set_config(config);
    launch
}

/// Edits the configuration, and asks to change starting at sign-in.
pub fn edit_config(state: &mut AppState, action: &SettingsAction) -> (step: Step)
    ensures
        (Outcome { state: final(state)@, step: step@ }) == config_edited(old(state)@, action@),
{
    let launch: bool = edit(state, action);
    let mut effects: Vec<Effect> = Vec::new();
    effects.push(Effect::SyncLaunchOnStartup(launch));
    assert(effect_views(effects@) =~= seq![EffectView::SyncLaunchOnStartup(launch)]);
    resume(effects, Task::ApplyLaunch(launch))
}

/// Starting at sign-in has been changed: the configuration says so, is saved
/// and shown.
pub open spec fn launch_applied(state: StateView, launch: bool) -> Outcome {
    let after = state.with_config(ConfigView { launch_on_startup: launch, ..state.config });
    Outcome {
        state: after,
        step: finished(seq![EffectView::SaveConfig(after.config), refresh(after, true)]),
    }
}

/// Notes that starting at sign-in has been changed.
pub fn apply_launch(state: &mut AppState, launch: bool) -> (step: Step)
    ensures
        (Outcome { state: final(state)@, step: step@ }) == launch_applied(old(state)@, launch),
{
    let mut config: AppConfig = state.config().clone();
    config.launch_on_startup = launch;
    let mut effects: Vec<Effect> = Vec::new();
    effects.push(Effect::SaveConfig(config.clone()));
    state.set_config(config);
    effects.push(refresh_settings(state, true));
    assert(effect_views(effects@) =~= seq![
        EffectView::SaveConfig(state@.config),
        refresh(state@, true),
    ]);
    finish(effects)
}

/// The source of a notification that the user asked for.
pub const TEST_SOURCE: &'static str = "Test Notification";

/// The code of a notification that the user asked for.
pub const TEST_CODE: &'static str = "258630";

/// A notification that the user asked for is shown.
pub open spec fn test_shown(state: StateView, now: Timestamp) -> Reaction {
    let duration = state.config.notification_duration_seconds;
    if expiry_exists(now, duration) {
        let shown = notification(TEST_SOURCE@, TEST_CODE@, now, duration);
        let after = state.with_notification(Some(shown));
        Reaction::Step(
            Outcome {
                state: after,
                step: followed(
                    seq![refresh(after, true), EffectView::EnsureOverlay],
                    TaskView::Render(shown, state.config.copy_button_enabled),
                ),
            },
        )
    } else {
        Reaction::Refused(state, RegisterError::ExpiryOutOfRange)
    }
}

/// Shows a notification that the user asked for.
pub fn show_test(state: &mut AppState, now: Timestamp) -> (step: Result<Step, RegisterError>)
    ensures
        reacts(test_shown(old(state)@, now), final(state)@, step),
{
    let duration: u64 = state.config().notification_duration_seconds;
    if !can_expire(&now, duration) {
        return Err(RegisterError::ExpiryOutOfRange);
    }
    let shown: OtpNotification = OtpNotification::new(
        TEST_SOURCE.to_owned(),
        TEST_CODE.to_owned(),
        now,
        duration,
    );
    let copy_enabled: bool = state.config().copy_button_enabled;
    state.show(shown.clone());
    let mut effects: Vec<Effect> = Vec::new();
    effects.push(refresh_settings(state, true));
    effects.push(Effect::EnsureOverlay);
    assert(effect_views(effects@) =~= seq![refresh(state@, true), EffectView::EnsureOverlay]);
    Ok(resume(effects, Task::Render { shown, copy_enabled }))
}

/// The mail page is there, and its window shown if asked for.
pub open spec fn mail_opened(state: StateView, show_window: bool) -> Outcome {
    let ensure = seq![EffectView::EnsureMailPage(state.config)];
    Outcome {
        state,
        step: finished(
            if show_window {
                ensure + show_and_focus(WindowKind::Mail)
            } else {
                ensure
            },
        ),
    }
}

/// Makes sure that the mail page is there, and shows its window if asked for.
pub fn open_mail(state: &AppState, show_window: bool) -> (step: Step)
    ensures
        (Outcome { state: state@, step: step@ }) == mail_opened(state@, show_window),
{
    let mut effects: Vec<Effect> = Vec::new();
    effects.push(Effect::EnsureMailPage(state.config().clone()));
    if show_window {
        effects.push(Effect::Show(WindowKind::Mail));
        effects.push(Effect::Focus(WindowKind::Mail));
    }
    assert(effect_views(effects@) =~= mail_opened(state@, show_window).step.effects);
    finish(effects)
}

/// The click that saves the configuration.
pub const SAVE_KIND: &'static str = "save_config";

/// The click that asks for a notification.
pub const TEST_KIND: &'static str = "test_notification";

/// The click that shows the mail page.
pub const LOGIN_KIND: &'static str = "login_window";

/// The click that hides the settings window.
pub const HIDE_KIND: &'static str = "hide_status";

/// What a click in the settings window comes to.
pub open spec fn settings_clicked(
    state: StateView,
    action: SettingsActionView,
    now: Timestamp,
) -> Reaction {
    if action.kind == SAVE_KIND@ {
        Reaction::Step(config_edited(state, action))
    } else if action.kind == TEST_KIND@ {
        test_shown(state, now)
    } else if action.kind == LOGIN_KIND@ {
        Reaction::Step(mail_opened(state, true))
    } else if action.kind == HIDE_KIND@ {
        Reaction::Step(
            Outcome { state, step: finished(seq![EffectView::Hide(WindowKind::Settings)]) },
        )
    } else {
        Reaction::Step(Outcome { state, step: finished(Seq::empty()) })
    }
}

/// Follows a click in the settings window.
pub fn handle_settings_action(state: &mut AppState, action: SettingsAction, now: Timestamp) -> (step:
    Result<Step, RegisterError>)
    ensures
        reacts(settings_clicked(old(state)@, action@, now), final(state)@, step),
{
    let kind: &str = action.kind.as_str();
    if same_text(kind, SAVE_KIND) {
        Ok(edit_config(state, &action))
    } else if same_text(kind, TEST_KIND) {
        show_test(state, now)
    } else if same_text(kind, LOGIN_KIND) {
        Ok(open_mail(state, true))
    } else {
        let mut effects: Vec<Effect> = Vec::new();
        if same_text(kind, HIDE_KIND) {
            effects.push(Effect::Hide(WindowKind::Settings));
            assert(effect_views(effects@) =~= seq![EffectView::Hide(WindowKind::Settings)]);
        } else {
            assert(effect_views(effects@) =~= Seq::empty());
        }
        Ok(finish(effects))
    }
}

/// What an event comes to.
pub open spec fn reaction(state: StateView, event: EventView, now: Timestamp) -> Reaction {
    match event {
        EventView::ProtonSnapshot(snapshot) => Reaction::Step(snapshot_taken(state, snapshot)),
        EventView::OverlayAction(action) => Reaction::Step(overlay_clicked(state, action)),
        EventView::SettingsAction(action) => settings_clicked(state, action, now),
        EventView::EnsureProtonWebview(show_window) => Reaction::Step(
            mail_opened(state, show_window),
        ),
        EventView::TrayMenu(_) => Reaction::Step(Outcome { state, step: finished(Seq::empty()) }),
        EventView::DismissOverlay => Reaction::Step(
            overlay_dismissed(state, "Overlay auto-dismissed"@),
        ),
        EventView::SetSession(session_state) => Reaction::Step(
            session_updated(state, session_state),
        ),
    }
}

/// Starts to handle an event at the time `now`. Events of the tray menu are
/// handled by [`handle_tray_event`].
pub fn handle_user_event(state: &mut AppState, event: UserEvent, now: Timestamp) -> (step: Result<
    Step,
    RegisterError,
>)
    ensures
        reacts(reaction(old(state)@, event@, now), final(state)@, step),
{
    match event {
        UserEvent::ProtonSnapshot(snapshot) => Ok(handle_proton_snapshot(state, snapshot)),
        UserEvent::OverlayAction(action) => Ok(handle_overlay_action(state, action)),
        UserEvent::SettingsAction(action) => handle_settings_action(state, action, now),
        UserEvent::EnsureProtonWebview { show_window } => Ok(open_mail(state, show_window)),
        UserEvent::TrayMenu(_) => {
            let effects: Vec<Effect> = Vec::new();
            assert(effect_views(effects@) =~= Seq::empty());
            Ok(finish(effects))
        },
        UserEvent::DismissOverlay => Ok(dismiss_overlay(state, "Overlay auto-dismissed")),
        UserEvent::SetSession(session_state) => Ok(update_session(state, session_state)),
    }
}

/// What `task` comes to after the last effect has answered `reply`.
pub open spec fn continuation(
    state: StateView,
    task: TaskView,
    reply: ReplyView,
    platform: Platform,
    now: Timestamp,
) -> Reaction {
    match task {
        TaskView::NoteCopied => Reaction::Step(logged(state, "Overlay code copied"@)),
        TaskView::ApplyLaunch(launch) => Reaction::Step(launch_applied(state, launch)),
        TaskView::RevealMail(snapshot, session_state) => Reaction::Step(
            mail_revealed(state, snapshot, session_state, reply == ReplyView::MailVisible(true)),
        ),
        TaskView::Deliver(snapshot, session_state) => mails_delivered(
            state,
            snapshot,
            session_state,
            now,
        ),
        TaskView::Render(shown, copy_enabled) => Reaction::Step(
            overlay_filled(
                state,
                shown,
                copy_enabled,
                reply == ReplyView::OverlayReady(true),
                platform,
            ),
        ),
        TaskView::Reveal(source_label) => Reaction::Step(
            overlay_revealed(
                state,
                source_label,
                match reply {
                    ReplyView::RenderFailed(reason) => Some(reason),
                    _ => None,
                },
            ),
        ),
    }
}

/// Goes on with the handling of an event at the time `now`, after the effects
/// of a step have been carried out and the last one has answered `reply`.
pub fn advance(
    state: &mut AppState,
    task: Task,
    reply: Reply,
    platform: Platform,
    now: Timestamp,
) -> (step: Result<Step, RegisterError>)
    ensures
        reacts(
            continuation(old(state)@, task@, reply@, platform, now),
            final(state)@,
            step,
        ),
{
    match task {
        Task::NoteCopied => {
            let mut effects: Vec<Effect> = Vec::new();
            effects.push(push_debug_log_and_refresh(state, "Overlay code copied".to_owned()));
            assert(effect_views(effects@) =~= seq![refresh(state@, false)]);
            Ok(finish(effects))
        },
        Task::ApplyLaunch(launch) => Ok(apply_launch(state, launch)),
        Task::RevealMail { snapshot, session_state } => {
            let visible: bool = match reply {
                Reply::MailVisible(visible) => visible,
                _ => false,
            };
            let mut effects: Vec<Effect> = Vec::new();
            if !visible {
                effects.push(Effect::Show(WindowKind::Mail));
                effects.push(Effect::Focus(WindowKind::Mail));
            }
            assert(effect_views(effects@) =~= if visible {
                Seq::empty()
            } else {
                show_and_focus(WindowKind::Mail)
            });
            Ok(resume(effects, Task::Deliver { snapshot, session_state }))
        },
        Task::Deliver { snapshot, session_state } => deliver_mails(
            state,
            snapshot,
            session_state,
            now,
        ),
        Task::Render { shown, copy_enabled } => {
            let built: bool = match reply {
                Reply::OverlayReady { built } => built,
                _ => false,
            };
            Ok(fill_overlay(state, shown, copy_enabled, built, platform))
        },
        Task::Reveal(source_label) => {
            let failure: Option<String> = match reply {
                Reply::RenderFailed(reason) => Some(reason),
                _ => None,
            };
            Ok(reveal_overlay(state, source_label, failure))
        },
    }
}

/// The identifiers of the entries of the tray menu.
#[derive(Debug, PartialEq, Eq)]
pub struct TrayIds {
    /// The entry that shows the settings window.
    pub open_status: String,
    /// The entry that shows the mail page.
    pub open_login: String,
    /// The entry that pauses or resumes monitoring.
    pub pause_resume: String,
    /// The entry that forgets the session.
    pub clear_session: String,
    /// The entry that ends the application.
    pub quit: String,
}

/// An entry of the tray menu.
#[derive(Debug, Clone, Copy, PartialEq, Eq, Structural)]
pub enum TrayCommand {
    /// Show the settings window.
    OpenStatus,
    /// Show the mail page.
    OpenLogin,
    /// Pause or resume monitoring.
    PauseResume,
    /// Forget the session.
    ClearSession,
    /// End the application.
    Quit,
}

/// The entry with the identifier `menu_id`.
pub open spec fn command_of(menu_id: Seq<char>, ids: TrayIds) -> Option<TrayCommand> {
    if menu_id == ids.open_status@ {
        Some(TrayCommand::OpenStatus)
    } else if menu_id == ids.open_login@ {
        Some(TrayCommand::OpenLogin)
    } else if menu_id == ids.pause_resume@ {
        Some(TrayCommand::PauseResume)
    } else if menu_id == ids.clear_session@ {
        Some(TrayCommand::ClearSession)
    } else if menu_id == ids.quit@ {
        Some(TrayCommand::Quit)
    } else {
        None
    }
}

/// The entry with the identifier `menu_id`.
pub fn tray_command(menu_id: &str, ids: &TrayIds) -> (command: Option<TrayCommand>)
    ensures
        command == command_of(menu_id@, *ids),
{
    if same_text(menu_id, ids.open_status.as_str()) {
        Some(TrayCommand::OpenStatus)
    } else if same_text(menu_id, ids.open_login.as_str()) {
        Some(TrayCommand::OpenLogin)
    } else if same_text(menu_id, ids.pause_resume.as_str()) {
        Some(TrayCommand::PauseResume)
    } else if same_text(menu_id, ids.clear_session.as_str()) {
        Some(TrayCommand::ClearSession)
    } else if same_text(menu_id, ids.quit.as_str()) {
        Some(TrayCommand::Quit)
    } else {
        None
    }
}

/// What pausing or resuming makes of a session.
pub open spec fn toggled(session_state: MailSessionState) -> MailSessionState {
    if session_state is Paused {
        MailSessionState::Authenticated
    } else {
        MailSessionState::Paused
    }
}

/// What a choice in the tray menu comes to.
pub open spec fn tray_chosen(state: StateView, command: Option<TrayCommand>) -> Outcome {
    match command {
        Some(TrayCommand::OpenStatus) => Outcome {
            state,
            step: finished(show_and_focus(WindowKind::Settings).push(refresh(state, false))),
        },
        Some(TrayCommand::OpenLogin) => mail_opened(state, true),
        Some(TrayCommand::PauseResume) => {
            let after = state.with_session(toggled(state.session_state));
            Outcome { state: after, step: finished(seq![refresh(after, false)]) }
        },
        Some(TrayCommand::ClearSession) => Outcome {
            state,
            step: finished(
                seq![
                    EffectView::ClearMarker,
                    EffectView::Send(EventView::SetSession(MailSessionState::Unauthenticated)),
                    EffectView::EnsureMailPage(state.config),
                    EffectView::Show(WindowKind::Mail),
                ],
            ),
        },
        Some(TrayCommand::Quit) => Outcome { state, step: finished(seq![EffectView::Exit]) },
        None => Outcome { state, step: finished(Seq::empty()) },
    }
}

/// Follows a choice in the tray menu.
pub fn handle_tray_event(state: &mut AppState, menu_id: &str, ids: &TrayIds) -> (step: Step)
    ensures
        (Outcome { state: final(state)@, step: step@ }) == tray_chosen(
            old(state)@,
            command_of(menu_id@, *ids),
        ),
{
    let mut effects: Vec<Effect> = Vec::new();
    match tray_command(menu_id, ids) {
        Some(TrayCommand::OpenStatus) => {
            effects.push(Effect::Show(WindowKind::Settings));
            effects.push(Effect::Focus(WindowKind::Settings));
            effects.push(refresh_settings(state, false));
        },
        Some(TrayCommand::OpenLogin) => {
            return open_mail(state, true);
        },
        Some(TrayCommand::PauseResume) => {
            let next: MailSessionState = if state.session_state() == MailSessionState::Paused {
                MailSessionState::Authenticated
            } else {
                MailSessionState::Paused
            };
            state.set_session_state(next);
            effects.push(refresh_settings(state, false));
        },
        Some(TrayCommand::ClearSession) => {
            effects.push(Effect::ClearMarker);
            effects.push(Effect::Send(UserEvent::SetSession(MailSessionState::Unauthenticated)));
            effects.push(Effect::EnsureMailPage(state.config().clone()));
            effects.push(Effect::Show(WindowKind::Mail));
        },
        Some(TrayCommand::Quit) => {
            effects.push(Effect::Exit);
        },
        None => {},
    }
    assert(effect_views(effects@) =~= tray_chosen(
        old(state)@,
        command_of(menu_id@, *ids),
    ).step.effects);
    finish(effects)
}

/// The window with the mail page is shown at the start.
pub open spec fn mail_is_shown(launched_from_autostart: bool, config: ConfigView) -> bool {
    !launched_from_autostart && !config.start_minimized_to_tray
}

/// Whether the window with the mail page is shown at the start: not when the
/// application was started at sign-in, and not when it starts in the tray.
pub fn show_proton_on_start(launched_from_autostart: bool, config: &AppConfig) -> (show: bool)
    ensures
        show == (!launched_from_autostart && !config@.start_minimized_to_tray),
        show == mail_is_shown(launched_from_autostart, config@),
{
    !launched_from_autostart && !config.start_minimized_to_tray
}

/// Whether the settings window is shown at the start: not when the application
/// was started at sign-in, which starts hidden.
pub fn show_settings_on_start(launched_from_autostart: bool) -> (show: bool)
    ensures
        show == !launched_from_autostart,
{
    !launched_from_autostart
}

/// The configuration says whether the application starts at sign-in, as
/// `autostart_enabled` tells; it is saved where it said otherwise.
pub open spec fn launch_reconciled(state: StateView, autostart_enabled: bool) -> Outcome {
    if state.config.launch_on_startup != autostart_enabled {
        let config = ConfigView { launch_on_startup: autostart_enabled, ..state.config };
        Outcome {
            state: state.with_config(config),
            step: finished(seq![EffectView::SaveConfig(config)]),
        }
    } else {
        Outcome { state, step: finished(Seq::empty()) }
    }
}

/// Makes the configuration say whether the application starts at sign-in.
pub fn reconcile_launch_on_startup(state: &mut AppState, autostart_enabled: bool) -> (step: Step)
    ensures
        (Outcome { state: final(state)@, step: step@ }) == launch_reconciled(
            old(state)@,
            autostart_enabled,
        ),
{
    let mut effects: Vec<Effect> = Vec::new();
    if state.config().launch_on_startup != autostart_enabled {
        let mut config: AppConfig = state.config().clone();
        config.launch_on_startup = autostart_enabled;
        effects.push(Effect::SaveConfig(config.clone()));
        state.set_config(config);
    }
    assert(effect_views(effects@) =~= launch_reconciled(
        old(state)@,
        autostart_enabled,
    ).step.effects);
    finish(effects)
}

/// The line that the log gets when the window of the overlay has been made.
pub open spec fn overlay_window_message(platform: Platform) -> Seq<char> {
    match platform {
        Platform::Windows =>
            "Overlay window created; webview deferred until first notification. no_redirection_bitmap=true, background 00000000"@,
        Platform::Other => "Overlay window created; webview deferred until first notification"@,
    }
}

/// Notes that the window of the overlay has been made.
pub fn note_overlay_window(state: &mut AppState, platform: Platform)
    ensures
        final(state)@ == old(state)@.with_log(overlay_window_message(platform)),
{
    let message: &str = match platform {
        Platform::Windows =>
            "Overlay window created; webview deferred until first notification. no_redirection_bitmap=true, background 00000000",
        Platform::Other => "Overlay window created; webview deferred until first notification",
    };
    state.push_debug_log(message.to_owned());
}

/// A kept marker means that a session is being restored.
pub open spec fn session_restored(state: StateView, has_marker: bool) -> Outcome {
    if has_marker {
        session_updated(state, MailSessionState::Restoring)
    } else {
        Outcome { state, step: finished(Seq::empty()) }
    }
}

/// Restores a session where a marker was kept.
pub fn restore_session(state: &mut AppState, marker: &Option<String>) -> (step: Step)
    ensures
        (Outcome { state: final(state)@, step: step@ }) == session_restored(
            old(state)@,
            marker is Some,
        ),
{
    match marker {
        Some(_) => update_session(state, MailSessionState::Restoring),
        None => {
            let effects: Vec<Effect> = Vec::new();
            assert(effect_views(effects@) =~= Seq::empty());
            finish(effects)
        },
    }
}

/// What happens when the application has started: the settings window shows
/// the state, and the mail page is opened a little later.
pub open spec fn started(state: StateView, show_window: bool) -> StepView {
    finished(
        seq![
            refresh(state, false),
            EffectView::Defer(
                STARTUP_PROTON_DEFER_MS,
                EventView::EnsureProtonWebview(show_window),
            ),
        ],
    )
}

/// What to do when the application has started.
pub fn startup(state: &AppState, show_window: bool) -> (step: Step)
    ensures
        step@ == started(state@, show_window),
{
    let mut effects: Vec<Effect> = Vec::new();
    effects.push(refresh_settings(state, false));
    effects.push(
        Effect::Defer {
            after_ms: STARTUP_PROTON_DEFER_MS,
            event: UserEvent::EnsureProtonWebview { show_window },
        },
    );
    assert(effect_views(effects@) =~= started(state@, show_window).effects);
    finish(effects)
}

/// What to do when the user closes a window: it is hidden, and stays.
pub fn close_requested(window: WindowKind) -> (step: Step)
    ensures
        step@ == finished(seq![EffectView::Hide(window)]),
{
    let mut effects: Vec<Effect> = Vec::new();
    effects.push(Effect::Hide(window));
    assert(effect_views(effects@) =~= seq![EffectView::Hide(window)]);
    finish(effects)
}

/// What to do when the handling of an event has failed for `reason`: the log
/// says so.
pub fn user_event_failed(state: &mut AppState, reason: &str) -> (step: Step)
    ensures
        (Outcome { state: final(state)@, step: step@ }) == logged(
            old(state)@,
            "User event failed: "@ + reason@,
        ),
{
    let mut message: String = "User event failed: ".to_owned();
    message.append(reason);
    let mut effects: Vec<Effect> = Vec::new();
    effects.push(push_debug_log_and_refresh(state, message));
    assert(effect_views(effects@) =~= seq![refresh(state@, false)]);
    finish(effects)
}

/// A page of the mail service means that the user is signed in, whatever the
/// mails on it say. No page pauses monitoring.
pub proof fn mail_page_means_signed_in(url: Seq<char>, lowered: Seq<char>)
    ensures
        contains_text(url, "mail.proton.me"@) ==> session_of(url, lowered) is Authenticated,
        session_of(url, lowered) is Authenticated ==> contains_text(url, "mail.proton.me"@),
        session_of(url, lowered) !is Paused,
{
}

/// Edited numbers stay within their limits, and what the user did not edit
/// stays as it was.
pub proof fn edited_numbers_are_in_range(config: ConfigView, action: SettingsActionView)
    ensures
        action.poll_interval_seconds is Some ==> 5 <= edited(config, action).poll_interval_seconds
            <= 30,
        action.notification_duration_seconds is Some ==> 5 <= edited(
            config,
            action,
        ).notification_duration_seconds <= 15,
        action.poll_interval_seconds is None ==> edited(config, action).poll_interval_seconds
            == config.poll_interval_seconds,
        action.notification_duration_seconds is None ==> edited(
            config,
            action,
        ).notification_duration_seconds == config.notification_duration_seconds,
        edited(config, action).proton_mail_url == config.proton_mail_url,
        edited(config, action).user_data_dir == config.user_data_dir,
        edited(config, action).start_minimized_to_tray == config.start_minimized_to_tray,
        edited(config, action).launch_on_startup == config.launch_on_startup,
{
}

/// Pausing and resuming take turns: after a pause monitoring is resumed, and
/// after that paused again.
pub proof fn pausing_and_resuming_take_turns(session_state: MailSessionState)
    ensures
        toggled(session_state) is Paused <==> session_state !is Paused,
        toggled(toggled(toggled(session_state))) == toggled(session_state),
        session_state !is Paused ==> toggled(toggled(session_state)) is Authenticated,
{
}

/// What is always true of a state, given that the list of messages seen has no
/// repetitions at the start: it never has any, and the notification hides its
/// code.
pub open spec fn is_valid(state: StateView) -> bool {
    &&& state.seen.is_consistent()
    &&& state.current_notification matches Some(shown) ==> shown.masked_code
        == crate::models::masked(shown.raw_code)
}

/// The state that a reaction leaves.
pub open spec fn state_after(reaction: Reaction) -> StateView {
    match reaction {
        Reaction::Step(outcome) => outcome.state,
        Reaction::Refused(state, _) => state,
    }
}

/// The application starts in a valid state if no message occurs twice in the
/// list that was kept.
pub proof fn fresh_state_is_valid(config: ConfigView, list: Seq<Seq<char>>)
    requires
        list.no_duplicates(),
    ensures
        is_valid(StateView::fresh(config, crate::app::CacheView::of(list))),
        is_valid(StateView::fresh(config, crate::app::CacheView::empty())),
{
    assert(crate::app::CacheView::empty().ids =~= Seq::<Seq<char>>::empty().to_set());
}

/// Where the mails come to a notification, that is for a mail on the page, and
/// none before it gives one.
pub proof fn first_new_code_is_shown(
    state: StateView,
    candidates: Seq<EmailView>,
    now: Timestamp,
    from: int,
)
    requires
        0 <= from,
    ensures
        match delivery(state, candidates, now, from) {
            Delivery::Nothing => forall|i: int|
                from <= i < candidates.len() ==> state.shown_for(
                    candidates[i],
                    #[trigger] detection(candidates[i]),
                    now,
                ) is None,
            Delivery::Shown(k) => {
                &&& from <= k < candidates.len()
                &&& state.shown_for(candidates[k], detection(candidates[k]), now) is Some
                &&& state.registration(candidates[k], detection(candidates[k]), now) is Done
                &&& forall|i: int|
                    from <= i < k ==> state.shown_for(
                        candidates[i],
                        #[trigger] detection(candidates[i]),
                        now,
                    ) is None
            },
            Delivery::Refused(_) => true,
        },
    decreases candidates.len() - from,
{
    if from < candidates.len() {
        first_new_code_is_shown(state, candidates, now, from + 1);
    }
}

/// Whatever the mails on a page are, at most one of them is remembered, and the
/// state stays valid.
pub proof fn one_notification_at_a_time(
    state: StateView,
    snapshot: SnapshotView,
    session_state: MailSessionState,
    now: Timestamp,
)
    ensures
        ({
            let after = state_after(mails_delivered(state, snapshot, session_state, now));
            ||| after.seen == state.seen && after.current_notification
                == state.current_notification
            ||| exists|k: int|
                #![trigger snapshot.candidates[k]]
                0 <= k < snapshot.candidates.len() && after.seen == state.seen.with(
                    snapshot.candidates[k].message_id,
                )
        }),
        is_valid(state) ==> is_valid(
            state_after(mails_delivered(state, snapshot, session_state, now)),
        ),
{
    let noted = match snapshot.debug_log {
        Some(line) => state.with_log(line),
        None => state,
    };
    first_new_code_is_shown(noted, snapshot.candidates, now, 0);
    match delivery(noted, snapshot.candidates, now, 0) {
        Delivery::Shown(k) => {
            let email = snapshot.candidates[k];
            assert(state_after(mails_delivered(state, snapshot, session_state, now)).seen
                == state.seen || state_after(
                mails_delivered(state, snapshot, session_state, now),
            ).seen == state.seen.with(email.message_id));
            if state.seen.is_consistent() {
                crate::app::cache_holds_the_most_recent(state.seen, email.message_id);
            }
        },
        _ => {},
    }
}

/// While the user is signed in but the mailbox with all mails is not open, no
/// mail is looked at.
pub proof fn nothing_is_delivered_from_other_mailboxes(
    state: StateView,
    snapshot: SnapshotView,
    now: Timestamp,
)
    requires
        !snapshot.all_mail_ready,
    ensures
        ({
            let reaction = mails_delivered(state, snapshot, MailSessionState::Authenticated, now);
            &&& reaction is Step
            &&& state_after(reaction).seen == state.seen
            &&& state_after(reaction).current_notification == state.current_notification
        }),
{
}

/// Nothing of a paused state changes but its log, and nothing is done about
/// mails.
pub open spec fn is_left_paused(state: StateView, outcome: Outcome) -> bool {
    &&& outcome.state.session_state is Paused
    &&& outcome.state.seen == state.seen
    &&& outcome.state.current_notification == state.current_notification
    &&& outcome.state.config == state.config
    &&& forall|i: int|
        0 <= i < outcome.step.effects.len() ==> match #[trigger] outcome.step.effects[i] {
            EffectView::SaveSeenCache(_) => false,
            EffectView::EnsureOverlay => false,
            EffectView::RenderOverlay(_) => false,
            EffectView::Show(window) => window != WindowKind::Overlay,
            _ => true,
        }
}

/// While monitoring is paused a look at the mail page, with all that follows it,
/// ends the pause in none of its parts: no mail is remembered, no notification
/// made and no overlay shown, whatever the page shows and whatever the effects
/// answer.
pub proof fn looks_at_the_page_keep_a_pause(
    state: StateView,
    snapshot: SnapshotView,
    platform: Platform,
    first_reply: ReplyView,
    first_now: Timestamp,
    second_reply: ReplyView,
    second_now: Timestamp,
)
    requires
        state.session_state is Paused,
    ensures
        ({
            let first = snapshot_taken(state, snapshot);
            &&& is_left_paused(state, first)
            &&& first.step.next matches NextView::Resume(task)
            &&& continuation(first.state, task, first_reply, platform, first_now) matches
                Reaction::Step(second)
            &&& is_left_paused(state, second)
            &&& second.step.next matches NextView::Resume(rest) ==> {
                &&& continuation(second.state, rest, second_reply, platform, second_now) matches
                    Reaction::Step(third)
                &&& is_left_paused(state, third)
                &&& third.step.next is Finish
            }
            &&& second.step.next !is Fail
        }),
{
}

/// A pause ends only where the session is set to another state outright.
pub proof fn events_keep_a_pause(state: StateView, event: EventView, now: Timestamp)
    requires
        state.session_state is Paused,
        event !is SetSession,
    ensures
        state_after(reaction(state, event, now)).session_state is Paused,
{
}

/// Going on with an event never ends a pause.
pub proof fn tasks_keep_a_pause(
    state: StateView,
    task: TaskView,
    reply: ReplyView,
    platform: Platform,
    now: Timestamp,
)
    requires
        state.session_state is Paused,
    ensures
        state_after(continuation(state, task, reply, platform, now)).session_state is Paused,
{
}

/// A mail that has given a notification gives none when the same page is looked
/// at again. The messages that were forgotten to remember this one have to be
/// others, as they are in a list without repetitions.
pub proof fn mail_is_not_delivered_twice(
    state: StateView,
    candidates: Seq<EmailView>,
    now: Timestamp,
    later: Timestamp,
    k: int,
)
    requires
        delivery(state, candidates, now, 0) == Delivery::Shown(k),
        forall|i: int|
            0 <= i < state.seen.order.len() + 1 - crate::app::RECENT_CACHE_LIMIT
                ==> state.seen.order[i] != candidates[k].message_id,
    ensures
        delivery(
            state.after_mail(candidates[k], detection(candidates[k]), now),
            candidates,
            later,
            0,
        ) != Delivery::Shown(k),
{
    let email = candidates[k];
    let after = state.after_mail(email, detection(email), now);
    first_new_code_is_shown(state, candidates, now, 0);
    crate::app::message_is_shown_once(
        state,
        email,
        detection(email),
        now,
        detection(email),
        later,
    );
    first_new_code_is_shown(after, candidates, later, 0);
}

/// The logs of `before` are the start of those of `after`.
pub open spec fn log_grows(before: StateView, after: StateView) -> bool {
    before.debug_logs.is_prefix_of(after.debug_logs)
}

/// No event changes the list of messages seen or makes a valid state invalid;
/// only saving in the settings window changes the configuration; and nothing is
/// ever taken from the log.
pub proof fn events_keep_states_valid(state: StateView, event: EventView, now: Timestamp)
    ensures
        ({
            let after = state_after(reaction(state, event, now));
            &&& is_valid(state) ==> is_valid(after)
            &&& after.seen == state.seen
            &&& after.config != state.config ==> (event matches EventView::SettingsAction(action)
                && action.kind == SAVE_KIND@)
            &&& log_grows(state, after)
        }),
{
    assert(state.debug_logs.is_prefix_of(state.debug_logs));
}

/// Going on with an event never makes a valid state invalid; only looking at
/// mails changes the list of messages seen; and nothing is ever taken from the
/// log.
pub proof fn tasks_keep_states_valid(
    state: StateView,
    task: TaskView,
    reply: ReplyView,
    platform: Platform,
    now: Timestamp,
)
    ensures
        ({
            let after = state_after(continuation(state, task, reply, platform, now));
            &&& is_valid(state) ==> is_valid(after)
            &&& after.seen != state.seen ==> task is Deliver
            &&& after.config != state.config ==> task is ApplyLaunch
            &&& log_grows(state, after)
        }),
{
    assert(state.debug_logs.is_prefix_of(state.debug_logs));
    match task {
        TaskView::Deliver(snapshot, session_state) => {
            one_notification_at_a_time(state, snapshot, session_state, now);
        },
        _ => {},
    }
}

/// The tray menu never makes a valid state invalid and changes nothing but the
/// state of the session.
pub proof fn tray_changes_the_session_alone(state: StateView, command: Option<TrayCommand>)
    ensures
        ({
            let after = tray_chosen(state, command).state;
            &&& is_valid(state) ==> is_valid(after)
            &&& after == state.with_session(after.session_state)
        }),
{
}

/// Dismissing the overlay leaves nothing to copy.
pub proof fn dismissed_code_cannot_be_copied(state: StateView, message: Seq<char>)
    ensures
        overlay_clicked(overlay_dismissed(state, message).state, COPY_ACTION@).step.effects
            == Seq::<EffectView>::empty(),
{
    reveal_strlit("dismiss");
    reveal_strlit("copy");
    assert(COPY_ACTION@ != DISMISS_ACTION@) by {
        assert(COPY_ACTION@.len() != DISMISS_ACTION@.len());
    }
}

/// A code is put on the clipboard only when the user asks for it, and it is the
/// code of the current notification.
pub proof fn codes_are_copied_on_request_alone(state: StateView, event: EventView, now: Timestamp)
    ensures
        reaction(state, event, now) matches Reaction::Step(outcome) ==> forall|i: int|
            0 <= i < outcome.step.effects.len() ==> (#[trigger] outcome.step.effects[i] is CopyCode
                ==> {
                &&& event == EventView::OverlayAction(COPY_ACTION@)
                &&& state.current_notification matches Some(shown)
                &&& outcome.step.effects[i] == EffectView::CopyCode(shown.raw_code)
            }),
{
}

/// Going on with an event puts no code on the clipboard.
pub proof fn tasks_copy_no_codes(
    state: StateView,
    task: TaskView,
    reply: ReplyView,
    platform: Platform,
    now: Timestamp,
)
    ensures
        continuation(state, task, reply, platform, now) matches Reaction::Step(outcome)
            ==> forall|i: int|
            0 <= i < outcome.step.effects.len() ==> #[trigger] outcome.step.effects[i]
                !is CopyCode,
{
}

/// What saving in the settings window asks for is what the configuration says
/// in the end, within the limits of the numbers.
pub proof fn saved_settings_take_effect(state: StateView, action: SettingsActionView, now: Timestamp)
    requires
        action.kind == SAVE_KIND@,
    ensures
        ({
            let edit = config_edited(state, action);
            let launch = match action.launch_on_startup {
                Some(launch) => launch,
                None => state.config.launch_on_startup,
            };
            &&& reaction(state, EventView::SettingsAction(action), now) == Reaction::Step(edit)
            &&& edit.step.next == NextView::Resume(TaskView::ApplyLaunch(launch))
            &&& launch_applied(edit.state, launch).state == state.with_config(
                (ConfigView { launch_on_startup: launch, ..edited(state.config, action) }),
            )
            &&& launch_applied(edit.state, launch).step.effects[0] == EffectView::SaveConfig(
                launch_applied(edit.state, launch).state.config,
            )
        }),
{
}

} // verus!
