//! What the pages of the application are given to show.

use crate::app::AppState;
#[allow(unused_imports)]
use crate::app::StateView;
use crate::models::{MailSessionState, OtpNotification};
#[allow(unused_imports)]
use crate::models::{optional_text, NotificationView};
#[allow(unused_imports)]
use crate::otp::texts;
#[allow(unused_imports)]
use crate::timestamp::{clock_text, whole_millis};
use vstd::prelude::*;

verus! {

/// The script that shows a payload in the settings window, before the payload.
pub const RENDER_CALL: &'static str = "window.__PROTON2FA_STATUS.render(";

/// The script that shows a payload in the overlay, before the payload.
pub const SHOW_CALL: &'static str = "window.__PROTON2FA_OVERLAY.show(";

/// What ends a call in a script.
pub const CALL_END: &'static str = ");";

/// What is shown for a moment that has no time of day.
pub const NO_CLOCK: &'static str = "now";

/// What the overlay shows.
#[derive(Debug, PartialEq, Eq)]
pub struct OverlayPayload {
    /// Where the code came from.
    pub source_label: String,
    /// The code with every character hidden.
    pub masked_code: String,
    /// The code itself.
    pub raw_code: String,
    /// The time of day at which the notification was made.
    pub received_at_label: String,
    /// For how many milliseconds the overlay stays.
    pub duration_ms: u64,
    /// Whether the code can be copied.
    pub copy_enabled: bool,
}

/// What the overlay shows.
pub ghost struct OverlayPayloadView {
    pub source_label: Seq<char>,
    pub masked_code: Seq<char>,
    pub raw_code: Seq<char>,
    pub received_at_label: Seq<char>,
    pub duration_ms: int,
    pub copy_enabled: bool,
}

impl View for OverlayPayload {
    type V = OverlayPayloadView;

    open spec fn view(&self) -> OverlayPayloadView {
        OverlayPayloadView {
            source_label: self.source_label@,
            masked_code: self.masked_code@,
            raw_code: self.raw_code@,
            received_at_label: self.received_at_label@,
            duration_ms: self.duration_ms as int,
            copy_enabled: self.copy_enabled,
        }
    }
}

/// What the overlay shows of a notification: everything it says, the time of
/// day at which it was made, and how long it lasts.
pub open spec fn overlay_payload(
    shown: NotificationView,
    copy_enabled: bool,
) -> OverlayPayloadView {
    let millis = whole_millis(shown.expires_at.instant() - shown.received_at.instant());
    OverlayPayloadView {
        source_label: shown.source_label,
        masked_code: shown.masked_code,
        raw_code: shown.raw_code,
        received_at_label: clock_text(shown.received_at.local()),
        duration_ms: if millis < 0 {
            0
        } else {
            millis
        },
        copy_enabled,
    }
}

impl OverlayPayload {
    /// What the overlay shows of a notification.
    pub fn from_notification(shown: &OtpNotification, copy_enabled: bool) -> (payload: Self)
        ensures
            payload@ == overlay_payload(shown@, copy_enabled),
    {
        let received_at_label: String = match shown.received_at.clock() {
            Some(label) => label,
            None => NO_CLOCK.to_owned(),
        };
        let millis: i128 = shown.expires_at.millis_since(&shown.received_at);
        let duration_ms: u64 = if millis < 0 {
            0
        } else {
            millis as u64
        };
        OverlayPayload {
            source_label: shown.source_label.clone(),
            masked_code: shown.masked_code.clone(),
            raw_code: shown.raw_code.clone(),
            received_at_label,
            duration_ms,
            copy_enabled,
        }
    }
}

/// What the settings window shows.
#[derive(Debug, PartialEq, Eq)]
pub struct SettingsSnapshot {
    /// The state of the mail session in words.
    pub session_state: String,
    /// Whether the application starts when the user signs in, in words.
    pub autostart_status: String,
    /// Seconds between two looks at the mail page.
    pub poll_interval_seconds: u64,
    /// Seconds for which a notification stays visible.
    pub notification_duration_seconds: u64,
    /// Whether a notification offers to copy its code.
    pub copy_button_enabled: bool,
    /// Whether the application starts when the user signs in.
    pub launch_on_startup: bool,
    /// The hidden code of the last notification.
    pub last_masked_code: Option<String>,
    /// The lines of the log.
    pub debug_logs: Vec<String>,
}

/// What the settings window shows.
pub ghost struct SettingsView {
    pub session_state: Seq<char>,
    pub autostart_status: Seq<char>,
    pub poll_interval_seconds: u64,
    pub notification_duration_seconds: u64,
    pub copy_button_enabled: bool,
    pub launch_on_startup: bool,
    pub last_masked_code: Option<Seq<char>>,
    pub debug_logs: Seq<Seq<char>>,
}

impl View for SettingsSnapshot {
    type V = SettingsView;

    open spec fn view(&self) -> SettingsView {
        SettingsView {
            session_state: self.session_state@,
            autostart_status: self.autostart_status@,
            poll_interval_seconds: self.poll_interval_seconds,
            notification_duration_seconds: self.notification_duration_seconds,
            copy_button_enabled: self.copy_button_enabled,
            launch_on_startup: self.launch_on_startup,
            last_masked_code: optional_text(self.last_masked_code),
            debug_logs: texts(self.debug_logs@),
        }
    }
}

/// A state of the mail session in words.
pub open spec fn session_label(session_state: MailSessionState) -> Seq<char> {
    match session_state {
        MailSessionState::Unauthenticated => "Sign-in required"@,
        MailSessionState::Restoring => "Restoring session"@,
        MailSessionState::Authenticated => "Monitoring active"@,
        MailSessionState::Expired => "Session expired"@,
        MailSessionState::Error => "Attention needed"@,
        MailSessionState::Paused => "Monitoring paused"@,
    }
}

/// A state of the mail session in words.
pub fn session_state_label(session_state: MailSessionState) -> (label: &'static str)
    ensures
        label@ == session_label(session_state),
{
    match session_state {
        MailSessionState::Unauthenticated => "Sign-in required",
        MailSessionState::Restoring => "Restoring session",
        MailSessionState::Authenticated => "Monitoring active",
        MailSessionState::Expired => "Session expired",
        MailSessionState::Error => "Attention needed",
        MailSessionState::Paused => "Monitoring paused",
    }
}

/// Whether something is enabled, in words.
pub open spec fn enabled_label(enabled: bool) -> Seq<char> {
    if enabled {
        "Enabled"@
    } else {
        "Disabled"@
    }
}

/// What the settings window shows of a state.
pub open spec fn settings_of(state: StateView) -> SettingsView {
    SettingsView {
        session_state: session_label(state.session_state),
        autostart_status: enabled_label(state.config.launch_on_startup),
        poll_interval_seconds: state.config.poll_interval_seconds,
        notification_duration_seconds: state.config.notification_duration_seconds,
        copy_button_enabled: state.config.copy_button_enabled,
        launch_on_startup: state.config.launch_on_startup,
        last_masked_code: match state.current_notification {
            Some(shown) => Some(shown.masked_code),
            None => None,
        },
        debug_logs: state.debug_logs,
    }
}

impl SettingsSnapshot {
    /// What the settings window shows of a state.
    pub fn from_state(state: &AppState) -> (snapshot: Self)
        ensures
            snapshot@ == settings_of(state@),
    {
        let autostart_status: &str = if state.config().launch_on_startup {
            "Enabled"
        } else {
            "Disabled"
        };
        let last_masked_code: Option<String> = match state.last_notification() {
            Some(shown) => Some(shown.masked_code.clone()),
            None => None,
        };
        SettingsSnapshot {
            session_state: session_state_label(state.session_state()).to_owned(),
            autostart_status: autostart_status.to_owned(),
            poll_interval_seconds: state.config().poll_interval_seconds,
            notification_duration_seconds: state.config().notification_duration_seconds,
            copy_button_enabled: state.config().copy_button_enabled,
            launch_on_startup: state.config().launch_on_startup,
            last_masked_code,
            debug_logs: state.debug_logs(),
        }
    }
}

/// The script that calls the function in `call` with `payload`.
pub open spec fn script_call(call: Seq<char>, payload: Seq<char>) -> Seq<char> {
    call + payload + CALL_END@
}

/// The script that shows a serialized snapshot in the settings window.
pub fn render_script(payload: &str) -> (script: String)
    ensures
        script@ == script_call(RENDER_CALL@, payload@),
{
    let mut script: String = RENDER_CALL.to_owned();
    script.append(payload);
    script.append(CALL_END);
    script
}

/// The script that shows a serialized payload in the overlay.
pub fn show_script(payload: &str) -> (script: String)
    ensures
        script@ == script_call(SHOW_CALL@, payload@),
{
    let mut script: String = SHOW_CALL.to_owned();
    script.append(payload);
    script.append(CALL_END);
    script
}

/// The settings window never shows a code, only how long the last one is: two
/// states that differ in nothing but the code of the notification look the
/// same there, if both codes have the same length.
pub proof fn settings_show_no_code(state: StateView, first: NotificationView, code: Seq<char>)
    requires
        code.len() == first.raw_code.len(),
        first.masked_code == crate::models::masked(first.raw_code),
    ensures
        settings_of(state.with_notification(Some(first))) == settings_of(
            state.with_notification(
                Some(
                    NotificationView {
                        raw_code: code,
                        masked_code: crate::models::masked(code),
                        ..first
                    },
                ),
            ),
        ),
{
    crate::models::masking_hides_the_code(first.raw_code, code);
}

/// A notification that was made with a duration stays in the overlay for
/// exactly that long.
pub proof fn overlay_stays_for_the_duration(
    source_label: Seq<char>,
    raw_code: Seq<char>,
    received_at: crate::timestamp::Timestamp,
    duration_seconds: u64,
    copy_enabled: bool,
)
    requires
        crate::models::expiry_exists(received_at, duration_seconds),
    ensures
        overlay_payload(
            crate::models::notification(source_label, raw_code, received_at, duration_seconds),
            copy_enabled,
        ).duration_ms == duration_seconds * 1000,
{
    crate::models::notification_lasts_its_duration(
        source_label,
        raw_code,
        received_at,
        duration_seconds,
    );
}

} // verus!
