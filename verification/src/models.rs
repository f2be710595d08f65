//! Data shared across the application: the state of the mail session, mails
//! that may hold a one-time password, and the notifications made from them.

use crate::timestamp::{whole_millis, Timestamp};
use vstd::prelude::*;

verus! {

/// The authentication and connectivity state of the mail session.
#[derive(Debug, Clone, Copy, PartialEq, Eq, Structural)]
pub enum MailSessionState {
    /// No authenticated session is present.
    Unauthenticated,
    /// A previously saved session marker is being restored.
    Restoring,
    /// The user is logged in and the mailbox is accessible.
    Authenticated,
    /// The session has expired and needs re-authentication.
    Expired,
    /// An error occurred while checking or restoring the session.
    Error,
    /// Monitoring has been paused by the user.
    Paused,
}

/// A mail that may hold a one-time password.
#[derive(Debug, PartialEq, Eq)]
pub struct OtpCandidateEmail {
    /// Unique identifier of the message.
    pub message_id: String,
    /// Display name of the sender, if available.
    pub sender: Option<String>,
    /// Subject line, if available.
    pub subject: Option<String>,
    /// When the mail was received.
    pub received_at: Timestamp,
    /// Plain-text body.
    pub body_text: String,
}

/// A notification about a code, with what is needed to show and expire it.
#[derive(Debug, PartialEq, Eq)]
pub struct OtpNotification {
    /// Where the code came from: sender or subject.
    pub source_label: String,
    /// The code itself.
    pub raw_code: String,
    /// The code with every character hidden.
    pub masked_code: String,
    /// When the notification was created.
    pub received_at: Timestamp,
    /// When the notification expires.
    pub expires_at: Timestamp,
}

/// A code found in a mail, with the label of its source.
#[derive(Debug, PartialEq, Eq)]
pub struct OtpMatch {
    /// The code.
    pub code: String,
    /// Where the code came from: sender or subject.
    pub source_label: String,
}

/// The text in an optional string.
pub open spec fn optional_text(text: Option<String>) -> Option<Seq<char>> {
    match text {
        Some(s) => Some(s@),
        None => None,
    }
}

/// What a mail says.
pub ghost struct EmailView {
    pub message_id: Seq<char>,
    pub sender: Option<Seq<char>>,
    pub subject: Option<Seq<char>>,
    pub received_at: Timestamp,
    pub body_text: Seq<char>,
}

impl View for OtpCandidateEmail {
    type V = EmailView;

    open spec fn view(&self) -> EmailView {
        EmailView {
            message_id: self.message_id@,
            sender: optional_text(self.sender),
            subject: optional_text(self.subject),
            received_at: self.received_at,
            body_text: self.body_text@,
        }
    }
}

/// What a notification says.
pub ghost struct NotificationView {
    pub source_label: Seq<char>,
    pub raw_code: Seq<char>,
    pub masked_code: Seq<char>,
    pub received_at: Timestamp,
    pub expires_at: Timestamp,
}

impl View for OtpNotification {
    type V = NotificationView;

    open spec fn view(&self) -> NotificationView {
        NotificationView {
            source_label: self.source_label@,
            raw_code: self.raw_code@,
            masked_code: self.masked_code@,
            received_at: self.received_at,
            expires_at: self.expires_at,
        }
    }
}

/// What a found code says.
pub ghost struct MatchView {
    pub code: Seq<char>,
    pub source_label: Seq<char>,
}

impl View for OtpMatch {
    type V = MatchView;

    open spec fn view(&self) -> MatchView {
        MatchView { code: self.code@, source_label: self.source_label@ }
    }
}

/// A copy of an optional string.
pub fn copy_optional(text: &Option<String>) -> (copy: Option<String>)
    ensures
        copy == *text,
{
    match text {
        Some(s) => Some(s.clone()),
        None => None,
    }
}

impl Clone for OtpCandidateEmail {
    fn clone(&self) -> (copy: Self)
        ensures
            copy == *self,
    {
        OtpCandidateEmail {
            message_id: self.message_id.clone(),
            sender: copy_optional(&self.sender),
            subject: copy_optional(&self.subject),
            received_at: self.received_at,
            body_text: self.body_text.clone(),
        }
    }
}

impl Clone for OtpNotification {
    fn clone(&self) -> (copy: Self)
        ensures
            copy == *self,
    {
        OtpNotification {
            source_label: self.source_label.clone(),
            raw_code: self.raw_code.clone(),
            masked_code: self.masked_code.clone(),
            received_at: self.received_at,
            expires_at: self.expires_at,
        }
    }
}

impl Clone for OtpMatch {
    fn clone(&self) -> (copy: Self)
        ensures
            copy == *self,
    {
        OtpMatch { code: self.code.clone(), source_label: self.source_label.clone() }
    }
}

/// What hides `code`: an asterisk for each of its characters, and at least
/// four.
pub open spec fn masked(code: Seq<char>) -> Seq<char> {
    Seq::new(
        if code.len() < 4 {
            4
        } else {
            code.len()
        },
        |i: int| '*',
    )
}

/// A notification that shows for `duration_seconds` from `received_at` on has
/// an end that can be represented.
pub open spec fn expiry_exists(received_at: Timestamp, duration_seconds: u64) -> bool {
    duration_seconds <= i64::MAX && received_at.can_move_by(duration_seconds as int)
}

/// The notification about `raw_code` from `source_label`, made at
/// `received_at`, that shows for `duration_seconds`.
pub open spec fn notification(
    source_label: Seq<char>,
    raw_code: Seq<char>,
    received_at: Timestamp,
    duration_seconds: u64,
) -> NotificationView {
    NotificationView {
        source_label,
        raw_code,
        masked_code: masked(raw_code),
        received_at,
        expires_at: received_at.later_by(duration_seconds as int),
    }
}

/// Whether a notification that shows for `duration_seconds` from `received_at`
/// on has an end that can be represented.
pub fn can_expire(received_at: &Timestamp, duration_seconds: u64) -> (can: bool)
    ensures
        can == expiry_exists(*received_at, duration_seconds),
{
    duration_seconds <= i64::MAX as u64 && received_at.can_move(duration_seconds as i64)
}

/// What hides `code`.
fn mask(code: &str) -> (hidden: String)
    ensures
        hidden@ == masked(code@),
{
    let mut hidden: String = String::new();
    for c in it: code.chars()
        invariant
            hidden@ == Seq::new(it.index() as nat, |i: int| '*'),
            it.seq() == code@,
    {
        hidden.push('*');
    }
    let length: usize = code.unicode_len();
    let mut shown: usize = length;
    while shown < 4
        invariant
            hidden@ == Seq::new(shown as nat, |i: int| '*'),
            length <= 4 ==> shown <= 4,
            length > 4 ==> shown == length,
            shown >= length,
        decreases 4 - shown,
    {
        hidden.push('*');
        shown = shown + 1;
    }
    hidden
}

impl OtpNotification {
    /// A notification whose code is masked and which expires
    /// `duration_seconds` after `received_at`.
    pub fn new(
        source_label: String,
        raw_code: String,
        received_at: Timestamp,
        duration_seconds: u64,
    ) -> (made: Self)
        requires
            expiry_exists(received_at, duration_seconds),
        ensures
            made@ == notification(source_label@, raw_code@, received_at, duration_seconds),
    {
        let masked_code: String = mask(raw_code.as_str());
        let expires_at: Timestamp = received_at.plus_seconds(duration_seconds as i64);
        OtpNotification { source_label, raw_code, masked_code, received_at, expires_at }
    }
}

/// A masked code shows nothing but asterisks, at least four of them, and hides
/// everything of the code but its length.
pub proof fn masking_hides_the_code(first: Seq<char>, second: Seq<char>)
    ensures
        masked(first).len() >= 4,
        forall|i: int| 0 <= i < masked(first).len() ==> masked(first)[i] == '*',
        first.len() == second.len() ==> masked(first) == masked(second),
{
    assert(first.len() == second.len() ==> masked(first) =~= masked(second));
}

/// Two notifications about codes of the same length look the same until the
/// code is revealed: whatever else they were made with, their masks are equal.
pub proof fn notifications_tell_only_the_length(
    source_label: Seq<char>,
    raw_code: Seq<char>,
    received_at: Timestamp,
    duration_seconds: u64,
    other_label: Seq<char>,
    other_code: Seq<char>,
    other_received_at: Timestamp,
    other_duration_seconds: u64,
)
    requires
        raw_code.len() == other_code.len(),
    ensures
        ({
            let made = notification(source_label, raw_code, received_at, duration_seconds);
            let other = notification(
                other_label,
                other_code,
                other_received_at,
                other_duration_seconds,
            );
            &&& made.masked_code == other.masked_code
            &&& made.masked_code.len() >= 4
            &&& made.masked_code.len() >= raw_code.len()
            &&& forall|i: int|
                0 <= i < made.masked_code.len() ==> #[trigger] made.masked_code[i] == '*'
        }),
{
    masking_hides_the_code(raw_code, other_code);
}

/// A notification stays for exactly the duration it was made with.
pub proof fn notification_lasts_its_duration(
    source_label: Seq<char>,
    raw_code: Seq<char>,
    received_at: Timestamp,
    duration_seconds: u64,
)
    requires
        expiry_exists(received_at, duration_seconds),
    ensures
        ({
            let made = notification(source_label, raw_code, received_at, duration_seconds);
            whole_millis(made.expires_at.instant() - made.received_at.instant())
                == duration_seconds * 1000
        }),
{
    received_at.lemma_later_by(duration_seconds as int);
}

} // verus!
