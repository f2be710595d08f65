//! The marker of a mail session in the credential store of the platform.
//!
//! Other code talks to the store; here stands which entry is meant, and what
//! its replies mean.

use vstd::prelude::*;

verus! {

/// The service under which the marker is kept.
pub const SERVICE_NAME: &'static str = "protoncode";

/// The account under which the marker is kept.
pub const ACCOUNT_NAME: &'static str = "proton-session";

/// The marker of a session in which the user is signed in.
pub const AUTHENTICATED_MARKER: &'static str = "authenticated";

/// The marker of a mail session in the credential store of the platform.
#[derive(Debug, Clone, Copy, PartialEq, Eq)]
pub struct SecretStore;

/// An entry of the credential store.
#[derive(Debug, PartialEq, Eq)]
pub struct SecretEntry {
    /// The service that the entry belongs to.
    pub service: String,
    /// The account that the entry belongs to.
    pub account: String,
}

/// An entry of the credential store and the secret to put there.
#[derive(Debug, PartialEq, Eq)]
pub struct SecretWrite {
    /// The entry.
    pub entry: SecretEntry,
    /// The secret.
    pub secret: String,
}

/// Why the credential store did not do what it was asked.
#[derive(Debug, Clone, Copy, PartialEq, Eq, Structural)]
pub enum SecretError {
    /// The store cannot be used.
    Access,
    /// The marker could not be kept.
    Persist,
    /// The marker could not be read.
    Read,
    /// The marker could not be removed.
    Remove,
}

impl SecretError {
    /// The error in words.
    pub open spec fn text(self) -> Seq<char> {
        match self {
            SecretError::Access => "failed to access platform credential store"@,
            SecretError::Persist => "failed to persist session marker"@,
            SecretError::Read => "failed to read session marker"@,
            SecretError::Remove => "failed to remove session marker"@,
        }
    }

    /// The error in words.
    pub fn message(&self) -> (message: &'static str)
        ensures
            message@ == self.text(),
    {
        match self {
            SecretError::Access => "failed to access platform credential store",
            SecretError::Persist => "failed to persist session marker",
            SecretError::Read => "failed to read session marker",
            SecretError::Remove => "failed to remove session marker",
        }
    }
}

/// What the credential store said when a secret was to be written or removed.
#[derive(Debug, Clone, Copy, PartialEq, Eq, Structural)]
pub enum StoreReply {
    /// It is done.
    Done,
    /// The store has no such entry.
    NoEntry,
    /// The store cannot be used.
    Unavailable,
    /// Something else failed.
    Failed,
}

/// What the credential store said when a secret was to be read.
#[derive(Debug, PartialEq, Eq)]
pub enum SecretRead {
    /// The secret.
    Secret(String),
    /// The store has no such entry.
    NoEntry,
    /// The store cannot be used.
    Unavailable,
    /// Something else failed.
    Failed,
}

/// The marker that a reply to reading it tells of.
pub open spec fn marker_in(reply: SecretRead) -> Result<Option<String>, SecretError> {
    match reply {
        SecretRead::Secret(value) => Ok(Some(value)),
        SecretRead::NoEntry => Ok(None),
        SecretRead::Unavailable => Err(SecretError::Access),
        SecretRead::Failed => Err(SecretError::Read),
    }
}

/// What a reply to removing the marker means.
pub open spec fn removal_in(reply: StoreReply) -> Result<(), SecretError> {
    match reply {
        StoreReply::Done => Ok(()),
        StoreReply::NoEntry => Ok(()),
        StoreReply::Unavailable => Err(SecretError::Access),
        StoreReply::Failed => Err(SecretError::Remove),
    }
}

/// What a credential store keeps: a secret for each service and account that
/// has one.
#[verifier::ext_equal]
pub ghost struct CredentialsView {
    pub secrets: Map<(Seq<char>, Seq<char>), Seq<char>>,
}

/// The service and the account of the marker.
pub open spec fn marker_entry() -> (Seq<char>, Seq<char>) {
    (SERVICE_NAME@, ACCOUNT_NAME@)
}

impl CredentialsView {
    /// A secret has been written.
    pub open spec fn after_write(self, write: SecretWrite) -> CredentialsView {
        CredentialsView {
            secrets: self.secrets.insert(
                (write.entry.service@, write.entry.account@),
                write.secret@,
            ),
        }
    }

    /// The marker has been removed, if there was one.
    pub open spec fn after_removal(self) -> CredentialsView {
        CredentialsView { secrets: self.secrets.remove(marker_entry()) }
    }

    /// What a store that can be used says when the marker is to be removed.
    pub open spec fn removal(self) -> StoreReply {
        if self.secrets.contains_key(marker_entry()) {
            StoreReply::Done
        } else {
            StoreReply::NoEntry
        }
    }

    /// `reply` is what a store that can be used says when the marker is to be
    /// read.
    pub open spec fn tells(self, reply: SecretRead) -> bool {
        if self.secrets.contains_key(marker_entry()) {
            reply matches SecretRead::Secret(value) && value@ == self.secrets[marker_entry()]
        } else {
            reply is NoEntry
        }
    }
}

impl Default for SecretStore {
    fn default() -> (store: Self)
        ensures
            store == SecretStore,
    {
        SecretStore
    }
}

impl SecretStore {
    /// A handle to the marker.
    pub fn new() -> (store: Self)
        ensures
            store == SecretStore,
    {
        SecretStore
    }

    /// The entry that holds the marker.
    pub fn entry(&self) -> (entry: SecretEntry)
        ensures
            entry.service@ == SERVICE_NAME@,
            entry.account@ == ACCOUNT_NAME@,
    {
        SecretEntry { service: SERVICE_NAME.to_owned(), account: ACCOUNT_NAME.to_owned() }
    }

    /// What to write to keep `marker`.
    pub fn save_session_marker(&self, marker: &str) -> (write: SecretWrite)
        ensures
            write.entry.service@ == SERVICE_NAME@,
            write.entry.account@ == ACCOUNT_NAME@,
            write.secret@ == marker@,
    {
        SecretWrite { entry: self.entry(), secret: marker.to_owned() }
    }

    /// Whether the marker is kept, given the reply to writing it.
    pub fn session_marker_saved(&self, reply: StoreReply) -> (result: Result<(), SecretError>)
        ensures
            result == match reply {
                StoreReply::Done => Ok::<(), SecretError>(()),
                StoreReply::NoEntry => Err(SecretError::Persist),
                StoreReply::Unavailable => Err(SecretError::Access),
                StoreReply::Failed => Err(SecretError::Persist),
            },
    {
        match reply {
            StoreReply::Done => Ok(()),
            StoreReply::NoEntry => Err(SecretError::Persist),
            StoreReply::Unavailable => Err(SecretError::Access),
            StoreReply::Failed => Err(SecretError::Persist),
        }
    }

    /// The marker that is kept, if there is one, given the reply to reading it.
    pub fn load_session_marker(&self, reply: SecretRead) -> (marker: Result<
        Option<String>,
        SecretError,
    >)
        ensures
            marker == marker_in(reply),
    {
        match reply {
            SecretRead::Secret(value) => Ok(Some(value)),
            SecretRead::NoEntry => Ok(None),
            SecretRead::Unavailable => Err(SecretError::Access),
            SecretRead::Failed => Err(SecretError::Read),
        }
    }

    /// Whether no marker is kept any more, given the reply to removing it: it
    /// is not where there was none to begin with.
    pub fn clear_session_marker(&self, reply: StoreReply) -> (result: Result<(), SecretError>)
        ensures
            result == removal_in(reply),
    {
        match reply {
            StoreReply::Done => Ok(()),
            StoreReply::NoEntry => Ok(()),
            StoreReply::Unavailable => Err(SecretError::Access),
            StoreReply::Failed => Err(SecretError::Remove),
        }
    }
}

/// A marker that has been saved is what is loaded next, whatever was kept
/// before, and the secrets of all other entries stay as they were.
pub proof fn saved_marker_is_loaded(
    store: CredentialsView,
    write: SecretWrite,
    reply: SecretRead,
    other: (Seq<char>, Seq<char>),
)
    requires
        (write.entry.service@, write.entry.account@) == marker_entry(),
        store.after_write(write).tells(reply),
        other != marker_entry(),
    ensures
        marker_in(reply) matches Ok(Some(marker)) && marker@ == write.secret@,
        store.after_write(write).secrets.contains_key(other) == store.secrets.contains_key(other),
        store.secrets.contains_key(other) ==> store.after_write(write).secrets[other]
            == store.secrets[other],
{
}

/// Removing the marker succeeds whether or not there was one, no marker is
/// loaded afterwards, and removing it again changes nothing.
pub proof fn removed_marker_is_gone(store: CredentialsView, reply: SecretRead)
    requires
        store.after_removal().tells(reply),
    ensures
        removal_in(store.removal()) == Ok::<(), SecretError>(()),
        marker_in(reply) == Ok::<Option<String>, SecretError>(None),
        store.after_removal().after_removal() == store.after_removal(),
{
    assert(store.after_removal().after_removal() =~= store.after_removal());
}

} // verus!
