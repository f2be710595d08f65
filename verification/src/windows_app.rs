//! The rules of a smaller desktop application for Windows, which looks at the
//! whole mail page instead of single mails and keeps no log.
//!
//! As in [`crate::desktop_app`], other code changes what is outside: each event
//! comes to a new state and a step, and an effect that is required and fails
//! ends the handling of the event.

use crate::app::{AppState, RegisterError, SeenCacheWrite};
#[allow(unused_imports)]
use crate::app::{cache_write, CacheWriteView, StateView};
use crate::config::AppConfig;
#[allow(unused_imports)]
use crate::config::ConfigView;
use crate::desktop_app::{follow_page, tray_command, Reply, TrayCommand, TrayIds, WindowKind};
use crate::desktop_app::{HIDE_KIND, LOGIN_KIND, SAVE_KIND};
#[allow(unused_imports)]
use crate::desktop_app::{command_of, edited, session_after_look, toggled, ReplyView};
use crate::events::{OverlayAction, SettingsAction, COPY_ACTION, DISMISS_ACTION};
#[allow(unused_imports)]
use crate::events::SettingsActionView;
use crate::models::{MailSessionState, OtpCandidateEmail};
#[allow(unused_imports)]
use crate::models::{optional_text, EmailView};
#[allow(unused_imports)]
use crate::otp::detection;
use crate::payloads::OverlayPayload;
#[allow(unused_imports)]
use crate::payloads::{enabled_label, overlay_payload, OverlayPayloadView};
use crate::secrets::AUTHENTICATED_MARKER;
use crate::text::{contains, push_hex, same_text, to_lowercase};
#[allow(unused_imports)]
use crate::text::{contains_text, hex16, lowercase};
use crate::timestamp::Timestamp;
use std::collections::hash_map::DefaultHasher;
use std::hash::{Hash, Hasher};
use vstd::prelude::*;
#[allow(unused_imports)]
use vstd::std_specs::hash::DefaultHasherAdditionalSpecFns;

verus! {

/// What the mail page shows.
#[derive(Debug, PartialEq, Eq)]
pub struct PageSnapshot {
    /// The address of the page.
    pub url: String,
    /// The title of the page.
    pub title: String,
    /// The text on the page.
    pub text: String,
}

/// What the mail page shows.
pub ghost struct PageView {
    pub url: Seq<char>,
    pub title: Seq<char>,
    pub text: Seq<char>,
}

impl View for PageSnapshot {
    type V = PageView;

    open spec fn view(&self) -> PageView {
        PageView { url: self.url@, title: self.title@, text: self.text@ }
    }
}

/// What the status window shows.
#[derive(Debug, PartialEq, Eq)]
pub struct StatusSnapshot {
    /// The state of the mail session in words.
    pub session_state: String,
    /// Whether the application starts when the user signs in, in words.
    pub autostart_status: String,
    /// Seconds between two looks at the mail page.
    pub poll_interval_seconds: u64,
    /// Seconds for which a notification stays visible.
    pub notification_duration_seconds: u64,
    /// Whether a notification offers to copy its code.
    pub copy_button_enabled: bool,
    /// Whether the application starts when the user signs in.
    pub launch_on_startup: bool,
    /// The hidden code of the current notification.
    pub last_masked_code: Option<String>,
}

/// What the status window shows.
pub ghost struct StatusView {
    pub session_state: Seq<char>,
    pub autostart_status: Seq<char>,
    pub poll_interval_seconds: u64,
    pub notification_duration_seconds: u64,
    pub copy_button_enabled: bool,
    pub launch_on_startup: bool,
    pub last_masked_code: Option<Seq<char>>,
}

impl View for StatusSnapshot {
    type V = StatusView;

    open spec fn view(&self) -> StatusView {
        StatusView {
            session_state: self.session_state@,
            autostart_status: self.autostart_status@,
            poll_interval_seconds: self.poll_interval_seconds,
            notification_duration_seconds: self.notification_duration_seconds,
            copy_button_enabled: self.copy_button_enabled,
            launch_on_startup: self.launch_on_startup,
            last_masked_code: optional_text(self.last_masked_code),
        }
    }
}

/// A state of the mail session in words.
pub open spec fn status_label(session_state: MailSessionState) -> Seq<char> {
    match session_state {
        MailSessionState::Unauthenticated => "Unauthenticated"@,
        MailSessionState::Restoring => "Restoring session"@,
        MailSessionState::Authenticated => "Authenticated"@,
        MailSessionState::Expired => "Expired"@,
        MailSessionState::Error => "Error"@,
        MailSessionState::Paused => "Paused"@,
    }
}

/// What the status window shows of a state.
pub open spec fn status_of(state: StateView) -> StatusView {
    StatusView {
        session_state: status_label(state.session_state),
        autostart_status: enabled_label(state.config.launch_on_startup),
        poll_interval_seconds: state.config.poll_interval_seconds,
        notification_duration_seconds: state.config.notification_duration_seconds,
        copy_button_enabled: state.config.copy_button_enabled,
        launch_on_startup: state.config.launch_on_startup,
        last_masked_code: match state.current_notification {
            Some(shown) => Some(shown.masked_code),
            None => None,
        },
    }
}

impl StatusSnapshot {
    /// What the status window shows of a state.
    pub fn from_state(state: &AppState) -> (snapshot: Self)
        ensures
            snapshot@ == status_of(state@),
    {
        let session_state: &str = match state.session_state() {
            MailSessionState::Unauthenticated => "Unauthenticated",
            MailSessionState::Restoring => "Restoring session",
            MailSessionState::Authenticated => "Authenticated",
            MailSessionState::Expired => "Expired",
            MailSessionState::Error => "Error",
            MailSessionState::Paused => "Paused",
        };
        let autostart_status: &str = if state.config().launch_on_startup {
            "Enabled"
        } else {
            "Disabled"
        };
        let last_masked_code: Option<String> = match state.last_notification() {
            Some(shown) => Some(shown.masked_code.clone()),
            None => None,
        };
        StatusSnapshot {
            session_state: session_state.to_owned(),
            autostart_status: autostart_status.to_owned(),
            poll_interval_seconds: state.config().poll_interval_seconds,
            notification_duration_seconds: state.config().notification_duration_seconds,
            copy_button_enabled: state.config().copy_button_enabled,
            launch_on_startup: state.config().launch_on_startup,
            last_masked_code,
        }
    }
}

/// What the application has to react to.
#[derive(Debug, PartialEq, Eq)]
pub enum PageEvent {
    /// The mail page shows something.
    Snapshot(PageSnapshot),
    /// A click in the overlay.
    OverlayAction(OverlayAction),
    /// A click in the status window.
    SettingsAction(SettingsAction),
    /// The overlay is to be closed.
    DismissOverlay,
    /// The session is in this state.
    SetSession(MailSessionState),
}

/// What the application has to react to.
pub ghost enum PageEventView {
    Snapshot(PageView),
    OverlayAction(Seq<char>),
    SettingsAction(SettingsActionView),
    DismissOverlay,
    SetSession(MailSessionState),
}

impl View for PageEvent {
    type V = PageEventView;

    open spec fn view(&self) -> PageEventView {
        match self {
            PageEvent::Snapshot(page) => PageEventView::Snapshot(page@),
            PageEvent::OverlayAction(action) => PageEventView::OverlayAction(action.action@),
            PageEvent::SettingsAction(action) => PageEventView::SettingsAction(action@),
            PageEvent::DismissOverlay => PageEventView::DismissOverlay,
            PageEvent::SetSession(session_state) => PageEventView::SetSession(*session_state),
        }
    }
}

/// Something to do outside.
#[derive(Debug, PartialEq, Eq)]
pub enum PageEffect {
    /// Show a window.
    Show(WindowKind),
    /// Hide a window.
    Hide(WindowKind),
    /// Give a window the focus.
    Focus(WindowKind),
    /// Show the state in the status window.
    Refresh {
        /// What to show.
        snapshot: StatusSnapshot,
        /// Whether the handling ends if this fails.
        required: bool,
    },
    /// Put a code on the clipboard.
    CopyCode(String),
    /// Make the application start at sign-in, or not.
    SyncLaunchOnStartup(bool),
    /// Save the configuration.
    SaveConfig(AppConfig),
    /// Keep the marker of the session.
    SaveMarker(String),
    /// Remove the marker of the session.
    ClearMarker,
    /// Write the list of messages seen.
    SaveSeenCache(SeenCacheWrite),
    /// Move the overlay to its place on the screen.
    PositionOverlay,
    /// Show a notification in the page of the overlay.
    RenderOverlay(OverlayPayload),
    /// Tell whether the window of the mail page is visible.
    AskMailVisible,
    /// Handle an event after this one.
    Send(PageEvent),
    /// End the application.
    Exit,
}

/// Something to do outside.
pub ghost enum PageEffectView {
    Show(WindowKind),
    Hide(WindowKind),
    Focus(WindowKind),
    Refresh(StatusView, bool),
    CopyCode(Seq<char>),
    SyncLaunchOnStartup(bool),
    SaveConfig(ConfigView),
    SaveMarker(Seq<char>),
    ClearMarker,
    SaveSeenCache(CacheWriteView),
    PositionOverlay,
    RenderOverlay(OverlayPayloadView),
    AskMailVisible,
    Send(PageEventView),
    Exit,
}

impl View for PageEffect {
    type V = PageEffectView;

    open spec fn view(&self) -> PageEffectView {
        match self {
            PageEffect::Show(window) => PageEffectView::Show(*window),
            PageEffect::Hide(window) => PageEffectView::Hide(*window),
            PageEffect::Focus(window) => PageEffectView::Focus(*window),
            PageEffect::Refresh { snapshot, required } => PageEffectView::Refresh(
                snapshot@,
                *required,
            ),
            PageEffect::CopyCode(code) => PageEffectView::CopyCode(code@),
            PageEffect::SyncLaunchOnStartup(enabled) => PageEffectView::SyncLaunchOnStartup(
                *enabled,
            ),
            PageEffect::SaveConfig(config) => PageEffectView::SaveConfig(config@),
            PageEffect::SaveMarker(marker) => PageEffectView::SaveMarker(marker@),
            PageEffect::ClearMarker => PageEffectView::ClearMarker,
            PageEffect::SaveSeenCache(write) => PageEffectView::SaveSeenCache(write@),
            PageEffect::PositionOverlay => PageEffectView::PositionOverlay,
            PageEffect::RenderOverlay(payload) => PageEffectView::RenderOverlay(payload@),
            PageEffect::AskMailVisible => PageEffectView::AskMailVisible,
            PageEffect::Send(event) => PageEffectView::Send(event@),
            PageEffect::Exit => PageEffectView::Exit,
        }
    }
}

impl PageEffectView {
    /// The handling of an event ends where this fails.
    pub open spec fn required(self) -> bool {
        match self {
            PageEffectView::Refresh(_, required) => required,
            PageEffectView::CopyCode(_) => true,
            PageEffectView::SyncLaunchOnStartup(_) => true,
            PageEffectView::SaveConfig(_) => true,
            PageEffectView::SaveMarker(_) => true,
            PageEffectView::PositionOverlay => true,
            PageEffectView::RenderOverlay(_) => true,
            _ => false,
        }
    }
}

impl PageEffect {
    /// Whether the handling of an event ends where this fails.
    pub fn is_required(&self) -> (required: bool)
        ensures
            required == self@.required(),
    {
        match self {
            PageEffect::Refresh { snapshot: _, required } => *required,
            PageEffect::CopyCode(_) => true,
            PageEffect::SyncLaunchOnStartup(_) => true,
            PageEffect::SaveConfig(_) => true,
            PageEffect::SaveMarker(_) => true,
            PageEffect::PositionOverlay => true,
            PageEffect::RenderOverlay(_) => true,
            _ => false,
        }
    }
}

/// How the handling of an event goes on.
#[derive(Debug, PartialEq, Eq)]
pub enum PageTask {
    /// Start at sign-in has been changed to this.
    ApplyLaunch(bool),
    /// Show the mail page where it is hidden, then look for a code on it.
    RevealMail(PageSnapshot),
    /// Look for a code on the page.
    Deliver(PageSnapshot),
}

/// How the handling of an event goes on.
pub ghost enum PageTaskView {
    ApplyLaunch(bool),
    RevealMail(PageView),
    Deliver(PageView),
}

impl View for PageTask {
    type V = PageTaskView;

    open spec fn view(&self) -> PageTaskView {
        match self {
            PageTask::ApplyLaunch(enabled) => PageTaskView::ApplyLaunch(*enabled),
            PageTask::RevealMail(page) => PageTaskView::RevealMail(page@),
            PageTask::Deliver(page) => PageTaskView::Deliver(page@),
        }
    }
}

/// A part of the handling of an event.
#[derive(Debug, PartialEq, Eq)]
pub struct PageStep {
    /// What to do outside, in this order.
    pub effects: Vec<PageEffect>,
    /// What follows, with the answer of the last effect.
    pub next: Option<PageTask>,
}

/// A part of the handling of an event.
pub ghost struct PageStepView {
    pub effects: Seq<PageEffectView>,
    pub next: Option<PageTaskView>,
}

/// The effects in a vector.
pub open spec fn page_effects(effects: Seq<PageEffect>) -> Seq<PageEffectView> {
    effects.map_values(|effect: PageEffect| effect@)
}

impl View for PageStep {
    type V = PageStepView;

    open spec fn view(&self) -> PageStepView {
        PageStepView {
            effects: page_effects(self.effects@),
            next: match self.next {
                Some(task) => Some(task@),
                None => None,
            },
        }
    }
}

/// The state that is left, and the step to take.
pub ghost struct PageOutcome {
    pub state: StateView,
    pub step: PageStepView,
}

/// The last part of the handling of an event.
pub open spec fn ended(state: StateView, effects: Seq<PageEffectView>) -> PageOutcome {
    PageOutcome { state, step: PageStepView { effects, next: None } }
}

/// A part of the handling of an event that `task` follows.
pub open spec fn pending(
    state: StateView,
    effects: Seq<PageEffectView>,
    task: PageTaskView,
) -> PageOutcome {
    PageOutcome { state, step: PageStepView { effects, next: Some(task) } }
}

/// Shows `state` in the status window.
pub open spec fn refreshed(state: StateView, required: bool) -> PageEffectView {
    PageEffectView::Refresh(status_of(state), required)
}

/// The effect that shows `state` in the status window.
fn refresh(state: &AppState, required: bool) -> (effect: PageEffect)
    ensures
        effect@ == refreshed(state@, required),
{
    PageEffect::Refresh { snapshot: StatusSnapshot::from_state(state), required }
}

/// The state of the session that a page at `url` with `lowered` text, all in
/// lower case, shows. Words that ask to sign in come before the address.
pub open spec fn page_session_of(url: Seq<char>, lowered: Seq<char>) -> MailSessionState {
    if contains_text(url, "account.proton.me"@) || contains_text(lowered, "sign in"@)
        || contains_text(lowered, "log in"@) {
        MailSessionState::Unauthenticated
    } else if contains_text(url, "mail.proton.me"@) {
        MailSessionState::Authenticated
    } else {
        MailSessionState::Restoring
    }
}

/// The state of the session that a page at `url` with `lowered` text, all in
/// lower case, shows.
pub fn page_session_from(url: &str, lowered: &str) -> (session_state: MailSessionState)
    ensures
        session_state == page_session_of(url@, lowered@),
{
    if contains(url, "account.proton.me") || contains(lowered, "sign in") || contains(
        lowered,
        "log in",
    ) {
        MailSessionState::Unauthenticated
    } else if contains(url, "mail.proton.me") {
        MailSessionState::Authenticated
    } else {
        MailSessionState::Restoring
    }
}

/// The state of the session that a page shows.
pub open spec fn page_inferred(page: PageView) -> MailSessionState {
    page_session_of(page.url, lowercase(page.text))
}

/// The state of the session that a page shows.
pub fn infer_session_state(page: &PageSnapshot) -> (session_state: MailSessionState)
    ensures
        session_state == page_inferred(page@),
{
    let text: String = to_lowercase(page.text.as_str());
    page_session_from(page.url.as_str(), text.as_str())
}

/// What `str::hash` writes to a hasher for a text.
pub uninterp spec fn text_writes(text: Seq<char>) -> Seq<Seq<u8>>;

/// Feeds a text to a hasher, as `str::hash` does: what is written depends on the
/// text alone and comes after what was written before.
#[verifier::external_body]
fn feed(hasher: &mut DefaultHasher, text: &str)
    ensures
        final(hasher)@ == old(hasher)@ + text_writes(text@),
{
    text.hash(hasher)
}

/// What identifies a page with the given hash.
pub open spec fn fingerprint_of(hash: u64) -> Seq<char> {
    "snapshot-"@ + hex16(hash as nat)
}

/// What identifies a page with the given hash.
pub fn fingerprint_text(hash: u64) -> (text: String)
    ensures
        text@ == fingerprint_of(hash),
{
    let mut text: String = "snapshot-".to_owned();
    push_hex(&mut text, hash);
    text
}

/// What identifies a page: a hash of its address, its title and its text.
pub open spec fn page_id(page: PageView) -> Seq<char> {
    fingerprint_of(
        DefaultHasher::spec_finish(
            text_writes(page.url) + text_writes(page.title) + text_writes(page.text),
        ),
    )
}

/// What identifies a page: a hash of its address, its title and its text.
pub fn fingerprint_snapshot(page: &PageSnapshot) -> (id: String)
    ensures
        id@ == page_id(page@),
{
    let mut hasher: DefaultHasher = DefaultHasher::new();
    feed(&mut hasher, page.url.as_str());
    feed(&mut hasher, page.title.as_str());
    feed(&mut hasher, page.text.as_str());
    assert(hasher@ =~= text_writes(page@.url) + text_writes(page@.title) + text_writes(page@.text));
    fingerprint_text(hasher.finish())
}

/// The mail that a page identified by `id` is taken for.
pub open spec fn page_mail(page: PageView, id: Seq<char>, now: Timestamp) -> EmailView {
    EmailView {
        message_id: id,
        sender: None,
        subject: Some(page.title),
        received_at: now,
        body_text: page.text,
    }
}

/// What an event comes to.
pub ghost enum PageReaction {
    /// A new state and a step.
    Step(PageOutcome),
    /// The page cannot be handled; the state is left as given.
    Refused(StateView, RegisterError),
}

/// What a page identified by `id` comes to: nothing while monitoring is paused;
/// a new code is remembered and shown.
pub open spec fn page_delivered(
    state: StateView,
    page: PageView,
    id: Seq<char>,
    now: Timestamp,
) -> PageReaction {
    let email = page_mail(page, id, now);
    if state.session_state is Paused {
        PageReaction::Step(ended(state, Seq::empty()))
    } else {
        match state.registration(email, detection(email), now) {
            crate::app::Registration::SplitCharacter => PageReaction::Refused(
                state,
                RegisterError::SplitCharacter,
            ),
            crate::app::Registration::ExpiryOutOfRange => PageReaction::Refused(
                state,
                RegisterError::ExpiryOutOfRange,
            ),
            crate::app::Registration::Done => {
                let after = state.after_mail(email, detection(email), now);
                PageReaction::Step(
                    ended(
                        after,
                        match state.shown_for(email, detection(email), now) {
                            Some(shown) => seq![
                                PageEffectView::SaveSeenCache(
                                    cache_write(after.seen, after.seen_cache_path),
                                ),
                                PageEffectView::PositionOverlay,
                                PageEffectView::RenderOverlay(
                                    overlay_payload(shown, state.config.copy_button_enabled),
                                ),
                                PageEffectView::Show(WindowKind::Overlay),
                                PageEffectView::Focus(WindowKind::Overlay),
                                refreshed(after, true),
                            ],
                            None => seq![refreshed(after, true)],
                        },
                    ),
                )
            },
        }
    }
}

/// `step` and `after` are what the reaction says.
pub open spec fn page_reacts(
    reaction: PageReaction,
    after: StateView,
    step: Result<PageStep, RegisterError>,
) -> bool {
    match reaction {
        PageReaction::Step(outcome) => {
            &&& step matches Ok(s)
            &&& s@ == outcome.step
            &&& after == outcome.state
        },
        PageReaction::Refused(state, error) => {
            &&& step == Err::<PageStep, RegisterError>(error)
            &&& after == state
        },
    }
}

/// Looks for a code on a page identified by `id`.
pub fn deliver_page(state: &mut AppState, page: PageSnapshot, id: String, now: Timestamp) -> (step:
    Result<PageStep, RegisterError>)
    ensures
        page_reacts(page_delivered(old(state)@, page@, id@, now), final(state)@, step),
{
    let mut effects: Vec<PageEffect> = Vec::new();
    if state.session_state() == MailSessionState::Paused {
        assert(page_effects(effects@) =~= Seq::empty());
        return Ok(PageStep { effects, next: None });
    }
    let copy_enabled: bool = state.config().copy_button_enabled;
    let ghost view = page@;
    let email: OtpCandidateEmail = OtpCandidateEmail {
        message_id: id,
        sender: None,
        subject: Some(page.title),
        received_at: now,
        body_text: page.text,
    };
    assert(email@ == page_mail(view, id@, now));
    match state.try_register_candidate_at(&email, now) {
        Err(error) => Err(error),
        Ok(None) => {
            effects.push(refresh(state, true));
            assert(page_effects(effects@) =~= seq![refreshed(state@, true)]);
            Ok(PageStep { effects, next: None })
        },
        Ok(Some(shown)) => {
            if let Ok(write) = state.persist_seen_cache() {
                effects.push(PageEffect::SaveSeenCache(write));
            }
            effects.push(PageEffect::PositionOverlay);
            effects.push(
                PageEffect::RenderOverlay(OverlayPayload::from_notification(&shown, copy_enabled)),
            );
            effects.push(PageEffect::Show(WindowKind::Overlay));
            effects.push(PageEffect::Focus(WindowKind::Overlay));
            effects.push(refresh(state, true));
            assert(page_effects(effects@) =~= seq![
                PageEffectView::SaveSeenCache(cache_write(state@.seen, state@.seen_cache_path)),
                PageEffectView::PositionOverlay,
                PageEffectView::RenderOverlay(overlay_payload(shown@, copy_enabled)),
                PageEffectView::Show(WindowKind::Overlay),
                PageEffectView::Focus(WindowKind::Overlay),
                refreshed(state@, true),
            ]);
            Ok(PageStep { effects, next: None })
        },
    }
}

/// The session is in another state, which the status window shows.
pub open spec fn page_session_updated(
    state: StateView,
    session_state: MailSessionState,
) -> PageOutcome {
    let after = state.with_session(session_state);
    ended(after, seq![refreshed(after, true)])
}

/// Puts the session into another state and shows it in the status window.
pub fn update_session(state: &mut AppState, session_state: MailSessionState) -> (step: PageStep)
    ensures
        (PageOutcome { state: final(state)@, step: step@ }) == page_session_updated(
            old(state)@,
            session_state,
        ),
{
    state.set_session_state(session_state);
    let mut effects: Vec<PageEffect> = Vec::new();
    effects.push(refresh(state, true));
    assert(page_effects(effects@) =~= seq![refreshed(state@, true)]);
    PageStep { effects, next: None }
}

/// What a look at the mail page comes to: the session follows the page, unless
/// monitoring is paused; while the user is signed in that is kept for the next
/// start, and where they have to sign in the window with the page is shown. Then
/// comes the code.
pub open spec fn page_taken(state: StateView, page: PageView) -> PageOutcome {
    let session_state = page_inferred(page);
    let after = state.with_session(session_after_look(state.session_state, session_state));
    match session_state {
        MailSessionState::Authenticated => pending(
            after,
            seq![refreshed(after, true), PageEffectView::SaveMarker(AUTHENTICATED_MARKER@)],
            PageTaskView::Deliver(page),
        ),
        MailSessionState::Unauthenticated | MailSessionState::Expired => pending(
            after,
            seq![refreshed(after, true), PageEffectView::AskMailVisible],
            PageTaskView::RevealMail(page),
        ),
        _ => pending(after, seq![refreshed(after, true)], PageTaskView::Deliver(page)),
    }
}

/// Follows what the mail page shows.
pub fn handle_proton_snapshot(state: &mut AppState, page: PageSnapshot) -> (step: PageStep)
    ensures
        (PageOutcome { state: final(state)@, step: step@ }) == page_taken(old(state)@, page@),
        old(state)@.session_state is Paused ==> final(state)@.session_state is Paused,
{
    let session_state: MailSessionState = infer_session_state(&page);
    state.set_session_state(follow_page(state.session_state(), session_state));
    let mut effects: Vec<PageEffect> = Vec::new();
    effects.push(refresh(state, true));
    match session_state {
        MailSessionState::Authenticated => {
            effects.push(PageEffect::SaveMarker(AUTHENTICATED_MARKER.to_owned()));
            assert(page_effects(effects@) =~= seq![
                refreshed(state@, true),
                PageEffectView::SaveMarker(AUTHENTICATED_MARKER@),
            ]);
            PageStep { effects, next: Some(PageTask::Deliver(page)) }
        },
        MailSessionState::Unauthenticated | MailSessionState::Expired => {
            effects.push(PageEffect::AskMailVisible);
            assert(page_effects(effects@) =~= seq![
                refreshed(state@, true),
                PageEffectView::AskMailVisible,
            ]);
            PageStep { effects, next: Some(PageTask::RevealMail(page)) }
        },
        _ => {
            assert(page_effects(effects@) =~= seq![refreshed(state@, true)]);
            PageStep { effects, next: Some(PageTask::Deliver(page)) }
        },
    }
}

/// The overlay is closed and its notification is gone.
pub open spec fn page_dismissed(state: StateView) -> PageOutcome {
    ended(state.with_notification(None), seq![PageEffectView::Hide(WindowKind::Overlay)])
}

/// What a click in the overlay comes to.
pub open spec fn page_overlay_clicked(state: StateView, action: Seq<char>) -> PageOutcome {
    if action == DISMISS_ACTION@ {
        page_dismissed(state)
    } else if action == COPY_ACTION@ && state.current_notification is Some {
        ended(
            state,
            seq![PageEffectView::CopyCode(state.current_notification.unwrap().raw_code)],
        )
    } else {
        ended(state, Seq::empty())
    }
}

/// What a click in the status window comes to.
pub open spec fn page_settings_clicked(
    state: StateView,
    action: SettingsActionView,
) -> PageOutcome {
    if action.kind == SAVE_KIND@ {
        let launch = match action.launch_on_startup {
            Some(launch) => launch,
            None => state.config.launch_on_startup,
        };
        pending(
            state.with_config(edited(state.config, action)),
            seq![PageEffectView::SyncLaunchOnStartup(launch)],
            PageTaskView::ApplyLaunch(launch),
        )
    } else if action.kind == LOGIN_KIND@ {
        ended(
            state,
            seq![PageEffectView::Show(WindowKind::Mail), PageEffectView::Focus(WindowKind::Mail)],
        )
    } else if action.kind == HIDE_KIND@ {
        ended(state, seq![PageEffectView::Hide(WindowKind::Settings)])
    } else {
        ended(state, Seq::empty())
    }
}

/// What an event comes to.
pub open spec fn page_reaction(state: StateView, event: PageEventView) -> PageOutcome {
    match event {
        PageEventView::Snapshot(page) => page_taken(state, page),
        PageEventView::OverlayAction(action) => page_overlay_clicked(state, action),
        PageEventView::SettingsAction(action) => page_settings_clicked(state, action),
        PageEventView::DismissOverlay => page_dismissed(state),
        PageEventView::SetSession(session_state) => page_session_updated(state, session_state),
    }
}

/// Closes the overlay.
fn dismiss_overlay(state: &mut AppState) -> (step: PageStep)
    ensures
        (PageOutcome { state: final(state)@, step: step@ }) == page_dismissed(old(state)@),
{
    let mut effects: Vec<PageEffect> = Vec::new();
    effects.push(PageEffect::Hide(WindowKind::Overlay));
    assert(page_effects(effects@) =~= seq![PageEffectView::Hide(WindowKind::Overlay)]);
    state.clear_notification();
    PageStep { effects, next: None }
}

/// Follows a click in the overlay.
fn handle_overlay_action(state: &mut AppState, action: OverlayAction) -> (step: PageStep)
    ensures
        (PageOutcome { state: final(state)@, step: step@ }) == page_overlay_clicked(
            old(state)@,
            action.action@,
        ),
{
    if same_text(action.action.as_str(), DISMISS_ACTION) {
        return dismiss_overlay(state);
    }
    let mut effects: Vec<PageEffect> = Vec::new();
    if same_text(action.action.as_str(), COPY_ACTION) {
        if let Some(code) = state.latest_notification_code() {
            effects.push(PageEffect::CopyCode(code.to_owned()));
        }
    }
    assert(page_effects(effects@) =~= page_overlay_clicked(
        old(state)@,
        action.action@,
    ).step.effects);
    PageStep { effects, next: None }
}

/// Follows a click in the status window.
fn handle_settings_action(state: &mut AppState, action: SettingsAction) -> (step: PageStep)
    ensures
        (PageOutcome { state: final(state)@, step: step@ }) == page_settings_clicked(
            old(state)@,
            action@,
        ),
{
    let kind: &str = action.kind.as_str();
    let mut effects: Vec<PageEffect> = Vec::new();
    if same_text(kind, SAVE_KIND) {
        let launch: bool = crate::desktop_app::edit(state, &action);
        effects.push(PageEffect::SyncLaunchOnStartup(launch));
        assert(page_effects(effects@) =~= seq![PageEffectView::SyncLaunchOnStartup(launch)]);
        return PageStep { effects, next: Some(PageTask::ApplyLaunch(launch)) };
    }
    if same_text(kind, LOGIN_KIND) {
        effects.push(PageEffect::Show(WindowKind::Mail));
        effects.push(PageEffect::Focus(WindowKind::Mail));
    } else if same_text(kind, HIDE_KIND) {
        effects.push(PageEffect::Hide(WindowKind::Settings));
    }
    assert(page_effects(effects@) =~= page_settings_clicked(old(state)@, action@).step.effects);
    PageStep { effects, next: None }
}

/// Starts to handle an event.
pub fn handle_user_event(state: &mut AppState, event: PageEvent) -> (step: PageStep)
    ensures
        (PageOutcome { state: final(state)@, step: step@ }) == page_reaction(old(state)@, event@),
{
    match event {
        PageEvent::Snapshot(page) => handle_proton_snapshot(state, page),
        PageEvent::OverlayAction(action) => handle_overlay_action(state, action),
        PageEvent::SettingsAction(action) => handle_settings_action(state, action),
        PageEvent::DismissOverlay => dismiss_overlay(state),
        PageEvent::SetSession(session_state) => update_session(state, session_state),
    }
}

/// What `task` comes to after the last effect has answered `reply`.
pub open spec fn page_continuation(
    state: StateView,
    task: PageTaskView,
    reply: ReplyView,
    now: Timestamp,
) -> PageReaction {
    match task {
        PageTaskView::ApplyLaunch(launch) => {
            let after = state.with_config(ConfigView { launch_on_startup: launch, ..state.config });
            PageReaction::Step(
                ended(
                    after,
                    seq![PageEffectView::SaveConfig(after.config), refreshed(after, true)],
                ),
            )
        },
        PageTaskView::RevealMail(page) => PageReaction::Step(
            pending(
                state,
                if reply == ReplyView::MailVisible(true) {
                    Seq::empty()
                } else {
                    seq![
                        PageEffectView::Show(WindowKind::Mail),
                        PageEffectView::Focus(WindowKind::Mail),
                    ]
                },
                PageTaskView::Deliver(page),
            ),
        ),
        PageTaskView::Deliver(page) => page_delivered(state, page, page_id(page), now),
    }
}

/// Goes on with the handling of an event at the time `now`, after the effects
/// of a step have been carried out and the last one has answered `reply`.
pub fn advance(state: &mut AppState, task: PageTask, reply: Reply, now: Timestamp) -> (step: Result<
    PageStep,
    RegisterError,
>)
    ensures
        page_reacts(
            page_continuation(old(state)@, task@, reply@, now),
            final(state)@,
            step,
        ),
{
    let mut effects: Vec<PageEffect> = Vec::new();
    match task {
        PageTask::ApplyLaunch(launch) => {
            let mut config: AppConfig = state.config().clone();
            config.launch_on_startup = launch;
            effects.push(PageEffect::SaveConfig(config.clone()));
            state.set_config(config);
            effects.push(refresh(state, true));
            assert(page_effects(effects@) =~= seq![
                PageEffectView::SaveConfig(state@.config),
                refreshed(state@, true),
            ]);
            Ok(PageStep { effects, next: None })
        },
        PageTask::RevealMail(page) => {
            let visible: bool = match reply {
                Reply::MailVisible(visible) => visible,
                _ => false,
            };
            if !visible {
                effects.push(PageEffect::Show(WindowKind::Mail));
                effects.push(PageEffect::Focus(WindowKind::Mail));
            }
            assert(page_effects(effects@) =~= if visible {
                Seq::empty()
            } else {
                seq![
                    PageEffectView::Show(WindowKind::Mail),
                    PageEffectView::Focus(WindowKind::Mail),
                ]
            });
            Ok(PageStep { effects, next: Some(PageTask::Deliver(page)) })
        },
        PageTask::Deliver(page) => {
            let id: String = fingerprint_snapshot(&page);
            deliver_page(state, page, id, now)
        },
    }
}

/// What a choice in the tray menu comes to.
pub open spec fn page_tray_chosen(
    state: StateView,
    command: Option<TrayCommand>,
) -> (StateView, Seq<PageEffectView>) {
    match command {
        Some(TrayCommand::OpenStatus) => (
            state,
            seq![
                PageEffectView::Show(WindowKind::Settings),
                PageEffectView::Focus(WindowKind::Settings),
                refreshed(state, false),
            ],
        ),
        Some(TrayCommand::OpenLogin) => (
            state,
            seq![PageEffectView::Show(WindowKind::Mail), PageEffectView::Focus(WindowKind::Mail)],
        ),
        Some(TrayCommand::PauseResume) => {
            let after = state.with_session(toggled(state.session_state));
            (after, seq![refreshed(after, false)])
        },
        Some(TrayCommand::ClearSession) => (
            state,
            seq![
                PageEffectView::ClearMarker,
                PageEffectView::Send(PageEventView::SetSession(MailSessionState::Unauthenticated)),
                PageEffectView::Show(WindowKind::Mail),
            ],
        ),
        Some(TrayCommand::Quit) => (state, seq![PageEffectView::Exit]),
        None => (state, Seq::empty()),
    }
}

/// What the choices in the tray menu that are waiting come to, in their order.
pub open spec fn tray_drained(
    state: StateView,
    waiting: Seq<Seq<char>>,
    ids: TrayIds,
) -> (StateView, Seq<PageEffectView>)
    decreases waiting.len(),
{
    if waiting.len() == 0 {
        (state, Seq::empty())
    } else {
        let (before, effects) = tray_drained(state, waiting.drop_last(), ids);
        let (after, more) = page_tray_chosen(before, command_of(waiting.last(), ids));
        (after, effects + more)
    }
}

/// Follows a choice in the tray menu; what is to be done is added to `effects`.
fn follow_tray(
    state: &mut AppState,
    command: Option<TrayCommand>,
    effects: &mut Vec<PageEffect>,
)
    ensures
        final(state)@ == page_tray_chosen(old(state)@, command).0,
        page_effects(final(effects)@) == page_effects(old(effects)@) + page_tray_chosen(
            old(state)@,
            command,
        ).1,
{
    match command {
        Some(TrayCommand::OpenStatus) => {
            effects.push(PageEffect::Show(WindowKind::Settings));
            effects.push(PageEffect::Focus(WindowKind::Settings));
            effects.push(refresh(state, false));
        },
        Some(TrayCommand::OpenLogin) => {
            effects.push(PageEffect::Show(WindowKind::Mail));
            effects.push(PageEffect::Focus(WindowKind::Mail));
        },
        Some(TrayCommand::PauseResume) => {
            let next: MailSessionState = if state.session_state() == MailSessionState::Paused {
                MailSessionState::Authenticated
            } else {
                MailSessionState::Paused
            };
            state.set_session_state(next);
            effects.push(refresh(state, false));
        },
        Some(TrayCommand::ClearSession) => {
            effects.push(PageEffect::ClearMarker);
            effects.push(
                PageEffect::Send(PageEvent::SetSession(MailSessionState::Unauthenticated)),
            );
            effects.push(PageEffect::Show(WindowKind::Mail));
        },
        Some(TrayCommand::Quit) => {
            effects.push(PageEffect::Exit);
        },
        None => {},
    }
    assert(page_effects(effects@) =~= page_effects(old(effects)@) + page_tray_chosen(
        old(state)@,
        command,
    ).1);
}

/// Follows the choices in the tray menu that are waiting, in their order.
pub fn drain_tray_events(state: &mut AppState, waiting: &Vec<String>, ids: &TrayIds) -> (effects: Vec<
    PageEffect,
>)
    ensures
        (final(state)@, page_effects(effects@)) == tray_drained(
            old(state)@,
            crate::otp::texts(waiting@),
            *ids,
        ),
{
    let ghost all = crate::otp::texts(waiting@);
    let mut effects: Vec<PageEffect> = Vec::new();
    let mut at: usize = 0;
    assert(page_effects(effects@) =~= Seq::empty());
    while at < waiting.len()
        invariant
            at <= waiting@.len(),
            all == crate::otp::texts(waiting@),
            (state@, page_effects(effects@)) == tray_drained(
                old(state)@,
                all.take(at as int),
                *ids,
            ),
        decreases waiting@.len() - at,
    {
        let command: Option<TrayCommand> = tray_command(waiting[at].as_str(), ids);
        follow_tray(state, command, &mut effects);
        at = at + 1;
        assert(all.take(at as int).drop_last() =~= all.take(at - 1));
        assert(all.take(at as int).last() == waiting@[at - 1]@);
    }
    assert(all.take(at as int) =~= all);
    effects
}

/// Whether the window with the mail page is hidden at the start: when the
/// application was started at sign-in, and when it starts in the tray.
pub fn hides_mail_on_start(launched_from_autostart: bool, config: &AppConfig) -> (hide: bool)
    ensures
        hide == (launched_from_autostart || config@.start_minimized_to_tray),
        hide == !crate::desktop_app::mail_is_shown(launched_from_autostart, config@),
{
    launched_from_autostart || config.start_minimized_to_tray
}

/// Words on the page that ask to sign in mean that the user is not signed in,
/// also on a page of the mail service. No page pauses monitoring.
pub proof fn page_asking_to_sign_in_is_signed_out(url: Seq<char>, lowered: Seq<char>)
    ensures
        contains_text(lowered, "sign in"@) ==> page_session_of(url, lowered) is Unauthenticated,
        page_session_of(url, lowered) is Authenticated ==> contains_text(url, "mail.proton.me"@),
        page_session_of(url, lowered) !is Paused,
{
}

/// Nothing of a paused state changes, and nothing is done about a code.
pub open spec fn page_is_left_paused(state: StateView, outcome: PageOutcome) -> bool {
    &&& outcome.state == state
    &&& forall|i: int|
        0 <= i < outcome.step.effects.len() ==> match #[trigger] outcome.step.effects[i] {
            PageEffectView::SaveSeenCache(_) => false,
            PageEffectView::PositionOverlay => false,
            PageEffectView::RenderOverlay(_) => false,
            PageEffectView::Show(window) => window != WindowKind::Overlay,
            _ => true,
        }
}

/// While monitoring is paused a look at the mail page, with all that follows it,
/// changes nothing and shows no code, whatever the page shows and whatever the
/// effects answer.
pub proof fn looks_at_the_page_keep_a_pause(
    state: StateView,
    page: PageView,
    first_reply: ReplyView,
    first_now: Timestamp,
    second_reply: ReplyView,
    second_now: Timestamp,
)
    requires
        state.session_state is Paused,
    ensures
        ({
            let first = page_taken(state, page);
            &&& page_is_left_paused(state, first)
            &&& first.step.next matches Some(task)
            &&& page_continuation(first.state, task, first_reply, first_now) matches
                PageReaction::Step(second)
            &&& page_is_left_paused(state, second)
            &&& second.step.next matches Some(rest) ==> {
                &&& page_continuation(second.state, rest, second_reply, second_now) matches
                    PageReaction::Step(third)
                &&& page_is_left_paused(state, third)
                &&& third.step.next is None
            }
        }),
{
}

/// A page whose code has been shown is not shown again when it is looked at
/// once more. The messages that were forgotten to remember it have to be others,
/// as they are in a list without repetitions.
pub proof fn page_is_shown_once(
    state: StateView,
    page: PageView,
    reply: ReplyView,
    now: Timestamp,
    later: Timestamp,
)
    requires
        state.shown_for(
            page_mail(page, page_id(page), now),
            detection(page_mail(page, page_id(page), now)),
            now,
        ) is Some,
        page_continuation(state, PageTaskView::Deliver(page), reply, now) is Step,
        forall|i: int|
            0 <= i < state.seen.order.len() + 1 - crate::app::RECENT_CACHE_LIMIT
                ==> state.seen.order[i] != page_id(page),
    ensures
        ({
            let first = page_continuation(state, PageTaskView::Deliver(page), reply, now);
            let after = first->Step_0.state;
            &&& page_continuation(after, PageTaskView::Deliver(page), reply, later) matches
                PageReaction::Step(second)
            &&& second.state == after
        }),
{
    let email = page_mail(page, page_id(page), now);
    let again = page_mail(page, page_id(page), later);
    if state.session_state !is Paused {
        crate::app::message_is_shown_once(
            state,
            email,
            detection(email),
            now,
            detection(again),
            later,
        );
    }
}

/// Choices in the tray menu are followed one after the other, however they
/// arrive.
pub proof fn draining_twice_is_draining_all(
    state: StateView,
    first: Seq<Seq<char>>,
    second: Seq<Seq<char>>,
    ids: TrayIds,
)
    ensures
        ({
            let (middle, effects) = tray_drained(state, first, ids);
            let (after, more) = tray_drained(middle, second, ids);
            tray_drained(state, first + second, ids) == (after, effects + more)
        }),
    decreases second.len(),
{
    if second.len() == 0 {
        assert(first + second =~= first);
        let (middle, effects) = tray_drained(state, first, ids);
        assert(effects + Seq::<PageEffectView>::empty() =~= effects);
    } else {
        draining_twice_is_draining_all(state, first, second.drop_last(), ids);
        assert((first + second).drop_last() =~= first + second.drop_last());
        assert((first + second).last() == second.last());
        let (middle, effects) = tray_drained(state, first, ids);
        let (before, more) = tray_drained(middle, second.drop_last(), ids);
        let (after, last) = page_tray_chosen(before, command_of(second.last(), ids));
        assert((effects + more) + last =~= effects + (more + last));
    }
}

} // verus!
