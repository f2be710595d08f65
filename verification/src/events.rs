//! What the pages and the tray tell the application.

use crate::models::{MailSessionState, OtpCandidateEmail};
#[allow(unused_imports)]
use crate::models::{optional_text, EmailView};
use vstd::prelude::*;

verus! {

/// The action that closes the overlay.
pub const DISMISS_ACTION: &'static str = "dismiss";

/// The action that copies the code in the overlay.
pub const COPY_ACTION: &'static str = "copy";

/// A click in the overlay.
#[derive(Debug, PartialEq, Eq)]
pub struct OverlayAction {
    /// What was asked for.
    pub action: String,
}

/// A click in the settings window.
#[derive(Debug, PartialEq, Eq)]
pub struct SettingsAction {
    /// What was asked for.
    pub kind: String,
    /// The new seconds between two looks at the mail page, if given.
    pub poll_interval_seconds: Option<u64>,
    /// The new seconds for which a notification stays visible, if given.
    pub notification_duration_seconds: Option<u64>,
    /// Whether a notification offers to copy its code, if given.
    pub copy_button_enabled: Option<bool>,
    /// Whether the application starts when the user signs in, if given.
    pub launch_on_startup: Option<bool>,
}

/// What a click in the settings window says.
pub ghost struct SettingsActionView {
    pub kind: Seq<char>,
    pub poll_interval_seconds: Option<u64>,
    pub notification_duration_seconds: Option<u64>,
    pub copy_button_enabled: Option<bool>,
    pub launch_on_startup: Option<bool>,
}

impl View for SettingsAction {
    type V = SettingsActionView;

    open spec fn view(&self) -> SettingsActionView {
        SettingsActionView {
            kind: self.kind@,
            poll_interval_seconds: self.poll_interval_seconds,
            notification_duration_seconds: self.notification_duration_seconds,
            copy_button_enabled: self.copy_button_enabled,
            launch_on_startup: self.launch_on_startup,
        }
    }
}

/// What the mail page shows.
#[derive(Debug, PartialEq, Eq)]
pub struct ProtonSnapshot {
    /// The address of the page.
    pub url: String,
    /// The text on the page.
    pub page_text: String,
    /// The mailbox that is open, if known.
    pub mailbox_label: Option<String>,
    /// Whether the mailbox with all mails is open.
    pub all_mail_ready: bool,
    /// What the page has to say for the log.
    pub debug_log: Option<String>,
    /// Mails that may hold a code.
    pub candidates: Vec<OtpCandidateEmail>,
}

/// What the mail page shows.
pub ghost struct SnapshotView {
    pub url: Seq<char>,
    pub page_text: Seq<char>,
    pub mailbox_label: Option<Seq<char>>,
    pub all_mail_ready: bool,
    pub debug_log: Option<Seq<char>>,
    pub candidates: Seq<EmailView>,
}

/// What the mails in a vector say.
pub open spec fn emails(list: Seq<OtpCandidateEmail>) -> Seq<EmailView> {
    list.map_values(|email: OtpCandidateEmail| email@)
}

impl View for ProtonSnapshot {
    type V = SnapshotView;

    open spec fn view(&self) -> SnapshotView {
        SnapshotView {
            url: self.url@,
            page_text: self.page_text@,
            mailbox_label: optional_text(self.mailbox_label),
            all_mail_ready: self.all_mail_ready,
            debug_log: optional_text(self.debug_log),
            candidates: emails(self.candidates@),
        }
    }
}

/// A message of the mail page.
#[derive(Debug, PartialEq, Eq)]
pub enum ProtonIpc {
    /// What the page shows.
    Snapshot(ProtonSnapshot),
    /// The overlay is to be closed.
    DismissOverlay,
}

/// What the application has to react to.
#[derive(Debug, PartialEq, Eq)]
pub enum UserEvent {
    /// The mail page shows something.
    ProtonSnapshot(ProtonSnapshot),
    /// A click in the overlay.
    OverlayAction(OverlayAction),
    /// A click in the settings window.
    SettingsAction(SettingsAction),
    /// The mail page is to be there, and its window shown if asked for.
    EnsureProtonWebview {
        /// Whether the window is shown.
        show_window: bool,
    },
    /// The entry of the tray menu with this identifier was chosen.
    TrayMenu(String),
    /// The overlay is to be closed.
    DismissOverlay,
    /// The session is in this state.
    SetSession(MailSessionState),
}

/// What the application has to react to.
pub ghost enum EventView {
    ProtonSnapshot(SnapshotView),
    OverlayAction(Seq<char>),
    SettingsAction(SettingsActionView),
    EnsureProtonWebview(bool),
    TrayMenu(Seq<char>),
    DismissOverlay,
    SetSession(MailSessionState),
}

impl View for UserEvent {
    type V = EventView;

    open spec fn view(&self) -> EventView {
        match self {
            UserEvent::ProtonSnapshot(snapshot) => EventView::ProtonSnapshot(snapshot@),
            UserEvent::OverlayAction(action) => EventView::OverlayAction(action.action@),
            UserEvent::SettingsAction(action) => EventView::SettingsAction(action@),
            UserEvent::EnsureProtonWebview { show_window } => EventView::EnsureProtonWebview(
                *show_window,
            ),
            UserEvent::TrayMenu(id) => EventView::TrayMenu(id@),
            UserEvent::DismissOverlay => EventView::DismissOverlay,
            UserEvent::SetSession(session_state) => EventView::SetSession(*session_state),
        }
    }
}

/// The event for a message of the overlay; one that makes no sense closes it.
pub fn overlay_event(parsed: Option<OverlayAction>) -> (event: UserEvent)
    ensures
        event@ == EventView::OverlayAction(
            match parsed {
                Some(action) => action.action@,
                None => DISMISS_ACTION@,
            },
        ),
{
    match parsed {
        Some(action) => UserEvent::OverlayAction(action),
        None => UserEvent::OverlayAction(OverlayAction { action: DISMISS_ACTION.to_owned() }),
    }
}

/// The event for a message of the settings window; one that makes no sense is
/// ignored.
pub fn settings_event(parsed: Option<SettingsAction>) -> (event: Option<UserEvent>)
    ensures
        match parsed {
            Some(action) => event == Some(UserEvent::SettingsAction(action)),
            None => event is None,
        },
{
    match parsed {
        Some(action) => Some(UserEvent::SettingsAction(action)),
        None => None,
    }
}

/// The event for a message of the mail page; one that makes no sense is an
/// error of the session.
pub fn mail_page_event(parsed: Option<ProtonIpc>) -> (event: UserEvent)
    ensures
        event == match parsed {
            Some(ProtonIpc::Snapshot(snapshot)) => UserEvent::ProtonSnapshot(snapshot),
            Some(ProtonIpc::DismissOverlay) => UserEvent::DismissOverlay,
            None => UserEvent::SetSession(MailSessionState::Error),
        },
{
    match parsed {
        Some(ProtonIpc::Snapshot(snapshot)) => UserEvent::ProtonSnapshot(snapshot),
        Some(ProtonIpc::DismissOverlay) => UserEvent::DismissOverlay,
        None => UserEvent::SetSession(MailSessionState::Error),
    }
}

} // verus!
