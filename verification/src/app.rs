//! The state of the application: its configuration, the mail session, the
//! current notification and the messages already seen.

use crate::config::{AppConfig, ConfigError, SEEN_CACHE_FILE};
#[allow(unused_imports)]
use crate::config::{save_steps, step_views, ConfigView};
use crate::models::{can_expire, MailSessionState, OtpCandidateEmail, OtpMatch, OtpNotification};
#[allow(unused_imports)]
use crate::models::{expiry_exists, notification, EmailView, NotificationView};
use crate::otp::{detect_otp, try_detect_otp};
#[allow(unused_imports)]
use crate::otp::{detection, source_label, texts, FindingView};
use crate::paths::{AppPath, FileStep};
#[allow(unused_imports)]
use crate::paths::{FileStepView, PathView};
use crate::timestamp::Timestamp;
#[allow(unused_imports)]
use crate::timestamp::is_clock_reading;
use std::collections::VecDeque;
use vstd::hash_set::StringHashSet;
use vstd::prelude::*;

verus! {

/// How many messages are remembered.
pub const RECENT_CACHE_LIMIT: usize = 128;

/// The error of JSON that cannot be written or read.
#[verifier::external_type_specification]
#[verifier::external_body]
pub struct ExJsonError(serde_json::Error);

/// The bytes that `serde_json::to_vec_pretty` writes for a list of texts.
pub uninterp spec fn ids_json(ids: Seq<Seq<char>>) -> Seq<u8>;

/// The list of texts that `serde_json::from_slice` reads from bytes, or `None`
/// where they hold no such list.
pub uninterp spec fn json_ids(bytes: Seq<u8>) -> Option<Seq<Seq<char>>>;

/// A list of texts as JSON, from `serde_json::to_vec_pretty`. Writing a list of
/// strings to memory does not fail, and reading the bytes gives the list back.
#[verifier::external_body]
fn write_ids(ids: &Vec<String>) -> (bytes: Result<Vec<u8>, serde_json::Error>)
    ensures
        bytes is Ok,
        bytes.unwrap()@ == ids_json(texts(ids@)),
        json_ids(bytes.unwrap()@) == Some(texts(ids@)),
{
    serde_json::to_vec_pretty(ids)
}

/// The list of texts in JSON, from `serde_json::from_slice`.
#[verifier::external_body]
fn read_ids(bytes: &Vec<u8>) -> (ids: Result<Vec<String>, serde_json::Error>)
    ensures
        match ids {
            Ok(list) => json_ids(bytes@) == Some(texts(list@)),
            Err(_) => json_ids(bytes@) is None,
        },
{
    serde_json::from_slice::<Vec<String>>(bytes)
}

/// The messages already seen.
pub struct SeenCache {
    ids: StringHashSet,
    order: VecDeque<String>,
}

/// The messages already seen: which they are, and the order in which they are
/// forgotten.
#[verifier::ext_equal]
pub ghost struct CacheView {
    pub ids: Set<Seq<char>>,
    pub order: Seq<Seq<char>>,
}

impl View for SeenCache {
    type V = CacheView;

    closed spec fn view(&self) -> CacheView {
        CacheView { ids: self.ids@, order: texts(self.order@) }
    }
}

impl CacheView {
    /// No message has been seen.
    pub open spec fn empty() -> CacheView {
        CacheView { ids: Set::empty(), order: Seq::empty() }
    }

    /// The messages of a list, in its order.
    pub open spec fn of(list: Seq<Seq<char>>) -> CacheView {
        CacheView { ids: list.to_set(), order: list }
    }

    /// Every message seen is in the order once, and no other is.
    pub open spec fn is_consistent(self) -> bool {
        self.order.no_duplicates() && self.ids =~= self.order.to_set()
    }

    /// How many messages are too many.
    pub open spec fn excess(self) -> int {
        if self.order.len() > RECENT_CACHE_LIMIT {
            self.order.len() - RECENT_CACHE_LIMIT
        } else {
            0
        }
    }

    /// The oldest messages are forgotten until no more than the limit are left.
    pub open spec fn trimmed(self) -> CacheView {
        CacheView {
            ids: self.ids.difference(self.order.take(self.excess()).to_set()),
            order: self.order.skip(self.excess()),
        }
    }

    /// Forgetting the oldest message is a step towards forgetting all that are
    /// too many.
    proof fn lemma_forget_one(self)
        requires
            self.order.len() > RECENT_CACHE_LIMIT,
        ensures
            (CacheView {
                ids: self.ids.remove(self.order[0]),
                order: self.order.skip(1),
            }).trimmed() == self.trimmed(),
    {
        let rest = CacheView { ids: self.ids.remove(self.order[0]), order: self.order.skip(1) };
        let gone = self.order.take(self.excess());
        let later = rest.order.take(rest.excess());
        assert(gone =~= seq![self.order[0]] + later);
        assert forall|id: Seq<char>| gone.contains(id) <==> id == self.order[0] || later.contains(
            id,
        ) by {
            if later.contains(id) {
                let i = choose|i: int| 0 <= i < later.len() && later[i] == id;
                assert(gone[i + 1] == id);
            }
            assert(gone[0] == self.order[0]);
        }
        assert(rest.trimmed() =~= self.trimmed());
    }

    /// Nothing is forgotten below the limit.
    proof fn lemma_forget_none(self)
        requires
            self.order.len() <= RECENT_CACHE_LIMIT,
        ensures
            self.trimmed() == self,
    {
        assert(self.trimmed() =~= self);
    }

    /// `id` has been seen.
    pub open spec fn with(self, id: Seq<char>) -> CacheView {
        if self.ids.contains(id) {
            self.trimmed()
        } else {
            CacheView { ids: self.ids.insert(id), order: self.order.push(id) }.trimmed()
        }
    }

    /// The messages `ids` have been seen, one after the other.
    pub open spec fn with_all(self, ids: Seq<Seq<char>>) -> CacheView
        decreases ids.len(),
    {
        if ids.len() == 0 {
            self
        } else {
            self.with_all(ids.drop_last()).with(ids.last())
        }
    }
}

impl SeenCache {
    /// No message has been seen.
    pub fn new() -> (cache: SeenCache)
        ensures
            cache@ == CacheView::empty(),
    {
        let cache: SeenCache = SeenCache { ids: StringHashSet::new(), order: VecDeque::new() };
        assert(cache@ =~= CacheView::empty());
        cache
    }

    /// The messages of a list, in its order.
    pub fn of(list: Vec<String>) -> (cache: SeenCache)
        ensures
            cache@ == CacheView::of(texts(list@)),
    {
        let mut ids: StringHashSet = StringHashSet::new();
        let mut order: VecDeque<String> = VecDeque::new();
        let mut at: usize = 0;
        assert(texts(list@).take(0).to_set() =~= Set::empty());
        while at < list.len()
            invariant
                at <= list@.len(),
                ids@ == texts(list@).take(at as int).to_set(),
                texts(order@) == texts(list@).take(at as int),
            decreases list@.len() - at,
        {
            let ghost before = texts(list@).take(at as int);
            let ghost after = texts(list@).take(at + 1);
            ids.insert(list[at].clone());
            order.push_back(list[at].clone());
            at = at + 1;
            proof {
                let id = list@[at - 1]@;
                assert(after =~= before.push(id));
                lemma_pushed_set(before, id);
                assert(texts(order@) =~= after);
            }
        }
        assert(texts(list@).take(at as int) =~= texts(list@));
        SeenCache { ids, order }
    }

    /// Whether `id` has been seen.
    pub fn contains(&self, id: &str) -> (seen: bool)
        ensures
            seen == self@.ids.contains(id@),
    {
        self.ids.contains(id)
    }

    /// The messages seen, oldest first.
    pub fn list(&self) -> (list: Vec<String>)
        ensures
            texts(list@) == self@.order,
    {
        let mut list: Vec<String> = Vec::new();
        let mut at: usize = 0;
        while at < self.order.len()
            invariant
                at <= self.order@.len(),
                list@ == self.order@.take(at as int),
            decreases self.order@.len() - at,
        {
            list.push(self.order[at].clone());
            at = at + 1;
        }
        assert(list@ =~= self.order@);
        list
    }

    /// Remembers `id` and forgets the oldest messages beyond the limit.
    pub fn track(&mut self, id: String)
        ensures
            final(self)@ == old(self)@.with(id@),
    {
        proof {
            use_type_invariant(&*self);
        }
        let ghost start = self@;
        let mut ids: StringHashSet = StringHashSet::new();
        let mut order: VecDeque<String> = VecDeque::new();
        std::mem::swap(&mut ids, &mut self.ids);
        std::mem::swap(&mut order, &mut self.order);
        if ids.insert(id.clone()) {
            order.push_back(id);
            assert(texts(order@) =~= start.order.push(id@));
            proof {
                lemma_pushed_set(start.order, id@);
            }
        } else {
            assert(ids@ =~= start.ids);
        }
        while order.len() > RECENT_CACHE_LIMIT
            invariant
                (CacheView { ids: ids@, order: texts(order@) }).trimmed() == start.with(id@),
                ids@.subset_of(texts(order@).to_set()),
            decreases order@.len(),
        {
            let ghost before = CacheView { ids: ids@, order: texts(order@) };
            if let Some(stale) = order.pop_front() {
                ids.remove(stale.as_str());
                assert(texts(order@) =~= before.order.skip(1));
                proof {
                    before.lemma_forget_one();
                    assert forall|x: Seq<char>| ids@.contains(x) implies texts(
                        order@,
                    ).to_set().contains(x) by {
                        let i = choose|i: int| 0 <= i < before.order.len() && before.order[i] == x;
                        assert(texts(order@)[i - 1] == x);
                    }
                }
            }
        }
        proof {
            CacheView { ids: ids@, order: texts(order@) }.lemma_forget_none();
        }
        *self = SeenCache { ids, order };
    }

    /// Every message seen is in the order.
    #[verifier::type_invariant]
    spec fn is_listed(self) -> bool {
        self.ids@.subset_of(texts(self.order@).to_set())
    }
}

/// A list with one more entry has that entry and those it had.
proof fn lemma_pushed_set(list: Seq<Seq<char>>, id: Seq<char>)
    ensures
        list.push(id).to_set() == list.to_set().insert(id),
{
    let longer = list.push(id);
    assert forall|x: Seq<char>| longer.contains(x) <==> list.contains(x) || x == id by {
        if list.contains(x) {
            let i = choose|i: int| 0 <= i < list.len() && list[i] == x;
            assert(longer[i] == x);
        }
        if x == id {
            assert(longer[list.len() as int] == x);
        }
    }
    assert(longer.to_set() =~= list.to_set().insert(id));
}

impl Clone for SeenCache {
    fn clone(&self) -> (copy: Self)
        ensures
            copy@ == self@,
    {
        proof {
            use_type_invariant(self);
        }
        let mut ids: StringHashSet = StringHashSet::new();
        let mut order: VecDeque<String> = VecDeque::new();
        let mut at: usize = 0;
        assert(self@.order.take(0).to_set() =~= Set::empty());
        while at < self.order.len()
            invariant
                at <= self.order@.len(),
                texts(order@) == self@.order.take(at as int),
                ids@ == self@.ids.intersect(self@.order.take(at as int).to_set()),
            decreases self.order@.len() - at,
        {
            let ghost before = self@.order.take(at as int);
            let ghost after = self@.order.take(at + 1);
            if self.ids.contains(self.order[at].as_str()) {
                ids.insert(self.order[at].clone());
            }
            order.push_back(self.order[at].clone());
            at = at + 1;
            proof {
                let id = self.order@[at - 1]@;
                assert(after =~= before.push(id));
                lemma_pushed_set(before, id);
                assert(texts(order@) =~= after);
                assert(ids@ =~= self@.ids.intersect(after.to_set()));
            }
        }
        assert(self@.order.take(at as int) =~= self@.order);
        assert(ids@ =~= self@.ids);
        assert(ids@.subset_of(texts(order@).to_set()));
        SeenCache { ids, order }
    }
}

/// What was found where the list of seen messages should be.
#[derive(Debug, PartialEq, Eq)]
pub enum SeenCacheFile {
    /// There is no file.
    Missing,
    /// The file could not be read.
    Unreadable,
    /// The file holds these bytes.
    Read(Vec<u8>),
}

/// Why there is no list of seen messages.
#[derive(Debug, Clone, Copy, PartialEq, Eq)]
pub enum SeenCacheError {
    /// The file could not be read.
    Unreadable,
    /// The file does not hold a list of messages.
    Malformed,
    /// The list could not be written as JSON.
    Unwritable,
}

/// The messages in the bytes of a file, or `None` where they hold no list.
pub open spec fn cache_in(bytes: Seq<u8>) -> Option<CacheView> {
    match json_ids(bytes) {
        Some(list) => Some(CacheView::of(list)),
        None => None,
    }
}

/// The messages seen according to `file`.
pub fn load_seen_cache(file: SeenCacheFile) -> (cache: Result<SeenCache, SeenCacheError>)
    ensures
        match file {
            SeenCacheFile::Missing => cache matches Ok(c) && c@ == CacheView::empty(),
            SeenCacheFile::Unreadable => cache == Err::<SeenCache, SeenCacheError>(
                SeenCacheError::Unreadable,
            ),
            SeenCacheFile::Read(bytes) => match cache_in(bytes@) {
                Some(view) => cache matches Ok(c) && c@ == view,
                None => cache == Err::<SeenCache, SeenCacheError>(SeenCacheError::Malformed),
            },
        },
{
    match file {
        SeenCacheFile::Missing => Ok(SeenCache::new()),
        SeenCacheFile::Unreadable => Err(SeenCacheError::Unreadable),
        SeenCacheFile::Read(bytes) => match read_ids(&bytes) {
            Ok(list) => Ok(SeenCache::of(list)),
            Err(_) => Err(SeenCacheError::Malformed),
        },
    }
}

/// The messages seen according to `file`; without a usable list, none.
pub open spec fn cache_from(file: SeenCacheFile) -> CacheView {
    match file {
        SeenCacheFile::Read(bytes) => match cache_in(bytes@) {
            Some(view) => view,
            None => CacheView::empty(),
        },
        _ => CacheView::empty(),
    }
}

/// The list of seen messages as it is written: the directory to make first, the
/// file, and its bytes.
#[derive(Debug, PartialEq, Eq)]
pub struct SeenCacheWrite {
    /// The directory to make first.
    pub create_dir: FileStep,
    /// The file to write.
    pub write: FileStep,
    /// What the file is to hold.
    pub payload: Vec<u8>,
}

/// A list of seen messages to be written.
pub ghost struct CacheWriteView {
    pub create_dir: FileStepView,
    pub write: FileStepView,
    pub payload: Seq<u8>,
}

impl View for SeenCacheWrite {
    type V = CacheWriteView;

    open spec fn view(&self) -> CacheWriteView {
        CacheWriteView {
            create_dir: self.create_dir@,
            write: self.write@,
            payload: self.payload@,
        }
    }
}

/// How `cache` is written to the file at `path`.
pub open spec fn cache_write(cache: CacheView, path: PathView) -> CacheWriteView {
    CacheWriteView {
        create_dir: FileStepView::CreateParentDir(path),
        write: FileStepView::WriteSeenCache(path),
        payload: ids_json(cache.order),
    }
}

/// Why a mail could not be registered.
#[derive(Debug, Clone, Copy, PartialEq, Eq)]
pub enum RegisterError {
    /// The surroundings of a code begin or end inside a character.
    SplitCharacter,
    /// The notification would expire later than time can be represented.
    ExpiryOutOfRange,
}

/// The state of the application.
pub struct AppState {
    /// The configuration.
    pub config: AppConfig,
    /// The state of the mail session.
    pub session_state: MailSessionState,
    /// The notification that is shown, if any.
    pub current_notification: Option<OtpNotification>,
    /// The messages seen.
    pub seen: SeenCache,
    /// The file in which the messages seen are kept.
    pub seen_cache_path: AppPath,
    /// The lines of the log, oldest first.
    pub debug_logs: Vec<String>,
}

/// The state of the application.
pub ghost struct StateView {
    pub config: ConfigView,
    pub session_state: MailSessionState,
    pub current_notification: Option<NotificationView>,
    pub seen: CacheView,
    pub seen_cache_path: PathView,
    pub debug_logs: Seq<Seq<char>>,
}

/// What an optional notification says.
pub open spec fn optional_notification(shown: Option<OtpNotification>) -> Option<
    NotificationView,
> {
    match shown {
        Some(n) => Some(n@),
        None => None,
    }
}

impl View for AppState {
    type V = StateView;

    open spec fn view(&self) -> StateView {
        StateView {
            config: self.config@,
            session_state: self.session_state,
            current_notification: optional_notification(self.current_notification),
            seen: self.seen@,
            seen_cache_path: self.seen_cache_path@,
            debug_logs: texts(self.debug_logs@),
        }
    }
}

impl StateView {
    /// The session is in another state.
    pub open spec fn with_session(self, session_state: MailSessionState) -> StateView {
        StateView { session_state, ..self }
    }

    /// Another notification is shown, or none.
    pub open spec fn with_notification(self, shown: Option<NotificationView>) -> StateView {
        StateView { current_notification: shown, ..self }
    }

    /// The configuration is another one.
    pub open spec fn with_config(self, config: ConfigView) -> StateView {
        StateView { config, ..self }
    }

    /// One more line has been logged.
    pub open spec fn with_log(self, message: Seq<char>) -> StateView {
        StateView { debug_logs: self.debug_logs.push(message), ..self }
    }

    /// The notification about `code` in `email`, made at `now`.
    pub open spec fn notification_for(
        self,
        email: EmailView,
        code: Seq<char>,
        now: Timestamp,
    ) -> NotificationView {
        notification(
            source_label(email),
            code,
            now,
            self.config.notification_duration_seconds,
        )
    }

    /// The state after `email`, whose search came to `found`, at `now`: a new
    /// message with a code is remembered and shown.
    pub open spec fn after_mail(
        self,
        email: EmailView,
        found: FindingView,
        now: Timestamp,
    ) -> StateView {
        match self.shown_for(email, found, now) {
            Some(shown) => StateView {
                seen: self.seen.with(email.message_id),
                current_notification: Some(shown),
                ..self
            },
            None => self,
        }
    }

    /// The notification that `email`, whose search came to `found`, gives at
    /// `now`: none for a message already seen or without a code.
    pub open spec fn shown_for(
        self,
        email: EmailView,
        found: FindingView,
        now: Timestamp,
    ) -> Option<NotificationView> {
        if self.seen.ids.contains(email.message_id) {
            None
        } else {
            match found {
                FindingView::Code(code) => Some(self.notification_for(email, code, now)),
                _ => None,
            }
        }
    }

    /// Mails have been registered one after the other: the k-th of `emails`,
    /// in which the k-th of `codes` was found, at the k-th of `times`.
    pub open spec fn after_mails(
        self,
        emails: Seq<EmailView>,
        codes: Seq<Seq<char>>,
        times: Seq<Timestamp>,
    ) -> StateView
        decreases emails.len(),
    {
        if emails.len() == 0 {
            self
        } else {
            self.after_mails(emails.drop_last(), codes, times).after_mail(
                emails.last(),
                FindingView::Code(codes[emails.len() - 1]),
                times[emails.len() - 1],
            )
        }
    }

    /// The state before any mail, with the given configuration and messages
    /// seen.
    pub open spec fn fresh(config: ConfigView, seen: CacheView) -> StateView {
        StateView {
            config,
            session_state: MailSessionState::Unauthenticated,
            current_notification: None,
            seen,
            seen_cache_path: config.user_data_dir.child(SEEN_CACHE_FILE@),
            debug_logs: Seq::empty(),
        }
    }
}

/// Whether a mail can be registered.
pub ghost enum Registration {
    /// It can.
    Done,
    /// The surroundings of a code begin or end inside a character.
    SplitCharacter,
    /// The notification would expire later than time can be represented.
    ExpiryOutOfRange,
}

impl StateView {
    /// Whether `email`, whose search came to `found`, can be registered at
    /// `now`. A message already seen always can.
    pub open spec fn registration(
        self,
        email: EmailView,
        found: FindingView,
        now: Timestamp,
    ) -> Registration {
        if self.seen.ids.contains(email.message_id) {
            Registration::Done
        } else {
            match found {
                FindingView::SplitCharacter => Registration::SplitCharacter,
                FindingView::Nothing => Registration::Done,
                FindingView::Code(_) => if expiry_exists(
                    now,
                    self.config.notification_duration_seconds,
                ) {
                    Registration::Done
                } else {
                    Registration::ExpiryOutOfRange
                },
            }
        }
    }

    /// Registering `email` at `now` gives `shown` and the state `after`.
    pub open spec fn registers(
        self,
        email: EmailView,
        now: Timestamp,
        shown: Result<Option<OtpNotification>, RegisterError>,
        after: StateView,
    ) -> bool {
        match self.registration(email, detection(email), now) {
            Registration::Done => {
                &&& shown matches Ok(s)
                &&& optional_notification(s) == self.shown_for(email, detection(email), now)
                &&& after == self.after_mail(email, detection(email), now)
            },
            Registration::SplitCharacter => {
                &&& shown == Err::<Option<OtpNotification>, RegisterError>(
                    RegisterError::SplitCharacter,
                )
                &&& after == self
            },
            Registration::ExpiryOutOfRange => {
                &&& shown == Err::<Option<OtpNotification>, RegisterError>(
                    RegisterError::ExpiryOutOfRange,
                )
                &&& after == self
            },
        }
    }
}

impl AppState {
    /// The configuration.
    pub fn config(&self) -> (config: &AppConfig)
        ensures
            config@ == self@.config,
    {
        &self.config
    }

    /// The state of the mail session.
    pub fn session_state(&self) -> (session_state: MailSessionState)
        ensures
            session_state == self@.session_state,
    {
        self.session_state
    }

    /// The state that starts from what came of loading the configuration and
    /// from what was found of the list of seen messages.
    pub fn load(config: Result<AppConfig, ConfigError>, file: SeenCacheFile) -> (state: Result<
        AppState,
        ConfigError,
    >)
        ensures
            match config {
                Ok(c) => state matches Ok(s) && s@ == StateView::fresh(c@, cache_from(file)),
                Err(error) => state == Err::<AppState, ConfigError>(error),
            },
    {
        match config {
            Ok(config) => Ok(AppState::from_config(config, file)),
            Err(error) => Err(error),
        }
    }

    /// The state that starts from `config` and from what was found of the list
    /// of seen messages.
    pub fn from_config(config: AppConfig, file: SeenCacheFile) -> (state: AppState)
        ensures
            state@ == StateView::fresh(config@, cache_from(file)),
    {
        let seen_cache_path: AppPath = config.user_data_dir.child(SEEN_CACHE_FILE);
        let seen: SeenCache = match load_seen_cache(file) {
            Ok(seen) => seen,
            Err(_) => SeenCache::new(),
        };
        let state: AppState = AppState {
            config,
            session_state: MailSessionState::Unauthenticated,
            current_notification: None,
            seen,
            seen_cache_path,
            debug_logs: Vec::new(),
        };
        assert(state@.debug_logs =~= Seq::empty());
        state
    }

    /// Puts the session into another state.
    pub fn set_session_state(&mut self, session_state: MailSessionState)
        ensures
            final(self)@ == old(self)@.with_session(session_state),
    {
        self.session_state = session_state;
    }

    /// Replaces the configuration.
    pub fn set_config(&mut self, config: AppConfig)
        ensures
            final(self)@ == old(self)@.with_config(config@),
    {
        self.config = config;
    }

    /// Shows `shown`.
    pub fn show(&mut self, shown: OtpNotification)
        ensures
            final(self)@ == old(self)@.with_notification(Some(shown@)),
    {
        self.current_notification = Some(shown);
    }

    /// Remembers `message_id` and shows the code found in that message.
    pub fn record_match(&mut self, message_id: &str, found: OtpMatch, now: Timestamp) -> (shown:
        OtpNotification)
        requires
            expiry_exists(now, old(self)@.config.notification_duration_seconds),
        ensures
            shown@ == notification(
                found@.source_label,
                found@.code,
                now,
                old(self)@.config.notification_duration_seconds,
            ),
            final(self)@ == (StateView {
                seen: old(self)@.seen.with(message_id@),
                current_notification: Some(shown@),
                ..old(self)@
            }),
    {
        let shown: OtpNotification = OtpNotification::new(
            found.source_label,
            found.code,
            now,
            self.config.notification_duration_seconds,
        );
        self.track_message(message_id.to_owned());
        self.current_notification = Some(shown.clone());
        shown
    }

    /// Remembers `email` and shows its code, if the message is new and has one.
    pub fn register_candidate_at(&mut self, email: &OtpCandidateEmail, now: Timestamp) -> (shown:
        Option<OtpNotification>)
        requires
            !old(self)@.seen.ids.contains(email@.message_id) ==> detection(email@)
                !is SplitCharacter,
            !old(self)@.seen.ids.contains(email@.message_id) && detection(email@) is Code
                ==> expiry_exists(now, old(self)@.config.notification_duration_seconds),
        ensures
            optional_notification(shown) == old(self)@.shown_for(email@, detection(email@), now),
            final(self)@ == old(self)@.after_mail(email@, detection(email@), now),
    {
        if self.seen.contains(email.message_id.as_str()) {
            return None;
        }
        match detect_otp(email) {
            Some(found) => Some(self.record_match(email.message_id.as_str(), found, now)),
            None => None,
        }
    }

    /// Remembers `email` and shows its code, if the message is new and has one.
    /// Fails, and changes nothing, where the code cannot be judged or the
    /// notification cannot expire.
    pub fn try_register_candidate_at(&mut self, email: &OtpCandidateEmail, now: Timestamp) -> (
        shown: Result<Option<OtpNotification>, RegisterError>)
        ensures
            old(self)@.registers(email@, now, shown, final(self)@),
    {
        if self.seen.contains(email.message_id.as_str()) {
            return Ok(None);
        }
        match try_detect_otp(email) {
            Err(_) => Err(RegisterError::SplitCharacter),
            Ok(None) => Ok(None),
            Ok(Some(_)) => if can_expire(&now, self.config.notification_duration_seconds) {
                Ok(self.register_candidate_at(email, now))
            } else {
                Err(RegisterError::ExpiryOutOfRange)
            },
        }
    }

    /// Remembers `email` and shows its code, if the message is new and has one,
    /// in a notification made now. After a notification the list of messages
    /// seen is to be written, as [`AppState::persist_seen_cache`] tells.
    pub fn register_candidate(&mut self, email: &OtpCandidateEmail) -> (shown: Result<
        Option<OtpNotification>,
        RegisterError,
    >)
        ensures
            exists|now: Timestamp|
                is_clock_reading(now) && #[trigger] old(self)@.registers(
                    email@,
                    now,
                    shown,
                    final(self)@,
                ),
    {
        let now: Timestamp = Timestamp::now_utc();
        let ghost before = self@;
        let shown: Result<Option<OtpNotification>, RegisterError> = self.try_register_candidate_at(
            email,
            now,
        );
        assert(before.registers(email@, now, shown, self@));
        shown
    }

    /// Shows no notification any more.
    pub fn clear_notification(&mut self)
        ensures
            final(self)@ == old(self)@.with_notification(None),
    {
        self.current_notification = None;
    }

    /// The steps that save the configuration to the file at `path`.
    pub fn save_config(&self, path: Option<AppPath>) -> (steps: Result<Vec<FileStep>, ConfigError>)
        ensures
            match path {
                Some(p) => steps matches Ok(s) && step_views(s@) == save_steps(self@.config, p@),
                None => steps == Err::<Vec<FileStep>, ConfigError>(ConfigError::PathUnavailable),
            },
    {
        self.config.save(path)
    }

    /// The code of the notification that is shown.
    pub fn latest_notification_code(&self) -> (code: Option<&str>)
        ensures
            match self@.current_notification {
                Some(shown) => code matches Some(c) && c@ == shown.raw_code,
                None => code is None,
            },
    {
        match &self.current_notification {
            Some(shown) => Some(shown.raw_code.as_str()),
            None => None,
        }
    }

    /// The notification that is shown.
    pub fn last_notification(&self) -> (shown: Option<&OtpNotification>)
        ensures
            match self@.current_notification {
                Some(view) => shown matches Some(n) && n@ == view,
                None => shown is None,
            },
    {
        match &self.current_notification {
            Some(shown) => Some(shown),
            None => None,
        }
    }

    /// Adds a line to the log.
    pub fn push_debug_log(&mut self, message: String)
        ensures
            final(self)@ == old(self)@.with_log(message@),
    {
        self.debug_logs.push(message);
        assert(self@.debug_logs =~= old(self)@.debug_logs.push(message@));
    }

    /// The lines of the log, oldest first.
    pub fn debug_logs(&self) -> (lines: Vec<String>)
        ensures
            texts(lines@) == self@.debug_logs,
    {
        let mut lines: Vec<String> = Vec::new();
        let mut at: usize = 0;
        while at < self.debug_logs.len()
            invariant
                at <= self.debug_logs@.len(),
                lines@ == self.debug_logs@.take(at as int),
            decreases self.debug_logs@.len() - at,
        {
            lines.push(self.debug_logs[at].clone());
            at = at + 1;
        }
        assert(lines@ =~= self.debug_logs@);
        lines
    }

    /// Whether the message `id` has been seen.
    pub fn has_seen(&self, id: &str) -> (seen: bool)
        ensures
            seen == self@.seen.ids.contains(id@),
    {
        self.seen.contains(id)
    }

    /// Remembers the message `message_id`.
    fn track_message(&mut self, message_id: String)
        ensures
            final(self)@ == (StateView {
                seen: old(self)@.seen.with(message_id@),
                ..old(self)@
            }),
    {
        self.seen.track(message_id);
    }

    /// How the messages seen are written to their file.
    pub fn persist_seen_cache(&self) -> (write: Result<SeenCacheWrite, SeenCacheError>)
        ensures
            write is Ok,
            write.unwrap()@ == cache_write(self@.seen, self@.seen_cache_path),
            cache_in(write.unwrap().payload@) == Some(CacheView::of(self@.seen.order)),
    {
        let list: Vec<String> = self.seen.list();
        match write_ids(&list) {
            Ok(payload) => Ok(
                SeenCacheWrite {
                    create_dir: crate::config::ensure_parent_dir(&self.seen_cache_path),
                    write: FileStep::WriteSeenCache(self.seen_cache_path.clone()),
                    payload,
                },
            ),
            Err(_) => Err(SeenCacheError::Unwritable),
        }
    }
}

impl Clone for AppState {
    fn clone(&self) -> (copy: Self)
        ensures
            copy@ == self@,
    {
        let current_notification: Option<OtpNotification> = match &self.current_notification {
            Some(shown) => Some(shown.clone()),
            None => None,
        };
        AppState {
            config: self.config.clone(),
            session_state: self.session_state,
            current_notification,
            seen: self.seen.clone(),
            seen_cache_path: self.seen_cache_path.clone(),
            debug_logs: self.debug_logs(),
        }
    }
}

/// A list in which the same message never occurs twice stays so: with a further
/// message there are at most as many as the limit, they are the most recent
/// ones, and a message counts as seen exactly while it is in the list.
pub proof fn cache_holds_the_most_recent(cache: CacheView, id: Seq<char>)
    requires
        cache.is_consistent(),
    ensures
        cache.with(id).is_consistent(),
        cache.with(id).order.len() <= RECENT_CACHE_LIMIT,
        !cache.ids.contains(id) ==> cache.with(id).order.last() == id,
        cache.order.len() <= RECENT_CACHE_LIMIT ==> cache.with(id).ids.contains(id),
        ({
            let all = if cache.ids.contains(id) {
                cache.order
            } else {
                cache.order.push(id)
            };
            cache.with(id).order.is_suffix_of(all)
        }),
{
    let grown = if cache.ids.contains(id) {
        cache
    } else {
        CacheView { ids: cache.ids.insert(id), order: cache.order.push(id) }
    };
    assert(grown.is_consistent()) by {
        assert forall|x: Seq<char>| grown.ids.contains(x) <==> grown.order.to_set().contains(x) by {
            if cache.order.contains(x) {
                let i = choose|i: int| 0 <= i < cache.order.len() && cache.order[i] == x;
                assert(grown.order[i] == x);
            }
            if x == id && !cache.ids.contains(id) {
                assert(grown.order[cache.order.len() as int] == x);
            }
        }
    }
    let gone = grown.order.take(grown.excess());
    let kept = grown.trimmed();
    assert forall|x: Seq<char>| kept.ids.contains(x) <==> kept.order.to_set().contains(x) by {
        if kept.ids.contains(x) {
            let i = choose|i: int| 0 <= i < grown.order.len() && grown.order[i] == x;
            if i < grown.excess() {
                assert(gone[i] == x);
            } else {
                assert(kept.order[i - grown.excess()] == x);
            }
        }
        if kept.order.contains(x) {
            let i = choose|i: int| 0 <= i < kept.order.len() && kept.order[i] == x;
            assert(grown.order[i + grown.excess()] == x);
            if gone.contains(x) {
                let k = choose|k: int| 0 <= k < gone.len() && gone[k] == x;
                assert(grown.order[k] == x);
            }
        }
    }
    assert(kept.ids =~= kept.order.to_set());
    if cache.order.len() <= RECENT_CACHE_LIMIT && cache.ids.contains(id) {
        assert(kept =~= grown);
    }
    if !cache.ids.contains(id) {
        assert(kept.order.contains(kept.order.last()));
    }
}

/// The list is first in, first out: of different messages that were seen one
/// after the other, it holds the last ones, in their order and as many as the
/// limit lets it, and a message counts as seen exactly if it is one of those.
pub proof fn oldest_messages_are_forgotten_first(ids: Seq<Seq<char>>)
    requires
        ids.no_duplicates(),
    ensures
        ({
            let cache = CacheView::empty().with_all(ids);
            let gone: int = if ids.len() > 128 {
                ids.len() - 128
            } else {
                0
            };
            &&& cache.is_consistent()
            &&& cache.order == ids.skip(gone)
            &&& forall|i: int|
                0 <= i < ids.len() ==> (cache.ids.contains(#[trigger] ids[i]) <==> i >= gone)
        }),
    decreases ids.len(),
{
    let cache = CacheView::empty().with_all(ids);
    let gone = CacheView::of(ids).excess();
    if ids.len() > 0 {
        let earlier = ids.drop_last();
        let before = CacheView::empty().with_all(earlier);
        oldest_messages_are_forgotten_first(earlier);
        cache_holds_the_most_recent(before, ids.last());
        if before.order.contains(ids.last()) {
            let i = choose|i: int| 0 <= i < before.order.len() && before.order[i] == ids.last();
            assert(ids[i + CacheView::of(earlier).excess()] == ids.last());
        }
        assert(cache.order =~= ids.skip(gone));
    }
    assert forall|i: int| 0 <= i < ids.len() implies (cache.ids.contains(#[trigger] ids[i]) <==> i
        >= gone) by {
        if i >= gone {
            assert(cache.order[i - gone] == ids[i]);
        }
        if cache.order.contains(ids[i]) {
            let k = choose|k: int| 0 <= k < cache.order.len() && cache.order[k] == ids[i];
            assert(ids[k + gone] == ids[i]);
        }
    }
}

/// Every one of different messages with a code is shown, if none was seen
/// before. Afterwards the last ones, as many as the limit, give no second
/// notification; those before them have been forgotten and are shown again.
pub proof fn forgotten_messages_are_shown_again(
    state: StateView,
    emails: Seq<EmailView>,
    codes: Seq<Seq<char>>,
    times: Seq<Timestamp>,
    code: Seq<char>,
    later: Timestamp,
)
    requires
        state.seen == CacheView::empty(),
        emails.map_values(|email: EmailView| email.message_id).no_duplicates(),
    ensures
        ({
            let ids = emails.map_values(|email: EmailView| email.message_id);
            let after = state.after_mails(emails, codes, times);
            &&& after.seen == CacheView::empty().with_all(ids)
            &&& forall|k: int|
                0 <= k < emails.len() ==> state.after_mails(
                    #[trigger] emails.take(k),
                    codes,
                    times,
                ).shown_for(emails[k], FindingView::Code(codes[k]), times[k]) is Some
            &&& forall|k: int|
                0 <= k < emails.len() ==> (after.shown_for(
                    #[trigger] emails[k],
                    FindingView::Code(code),
                    later,
                ) is None <==> k >= emails.len() - 128)
        }),
    decreases emails.len(),
{
    let ids = emails.map_values(|email: EmailView| email.message_id);
    let after = state.after_mails(emails, codes, times);
    oldest_messages_are_forgotten_first(ids);
    if emails.len() > 0 {
        let earlier = emails.drop_last();
        let earlier_ids = earlier.map_values(|email: EmailView| email.message_id);
        let before = state.after_mails(earlier, codes, times);
        assert(earlier_ids =~= ids.drop_last());
        forgotten_messages_are_shown_again(state, earlier, codes, times, code, later);
        oldest_messages_are_forgotten_first(earlier_ids);
        if before.seen.ids.contains(emails.last().message_id) {
            let gone = CacheView::of(earlier_ids).excess();
            let i = choose|i: int|
                0 <= i < before.seen.order.len() && before.seen.order[i]
                    == emails.last().message_id;
            assert(ids[i + gone] == ids[emails.len() - 1]);
        }
        assert forall|k: int| 0 <= k < emails.len() implies state.after_mails(
            #[trigger] emails.take(k),
            codes,
            times,
        ).shown_for(emails[k], FindingView::Code(codes[k]), times[k]) is Some by {
            if k < earlier.len() {
                assert(emails.take(k) =~= earlier.take(k));
                assert(earlier[k] == emails[k]);
            } else {
                assert(emails.take(k) =~= earlier);
            }
        }
    } else {
        assert(ids =~= Seq::empty());
    }
    assert forall|k: int| 0 <= k < emails.len() implies (after.shown_for(
        #[trigger] emails[k],
        FindingView::Code(code),
        later,
    ) is None <==> k >= emails.len() - RECENT_CACHE_LIMIT) by {
        assert(ids[k] == emails[k].message_id);
    }
}

/// A message that has been seen gives no notification and changes nothing.
pub proof fn seen_message_is_ignored(
    state: StateView,
    email: EmailView,
    found: FindingView,
    now: Timestamp,
)
    requires
        state.seen.ids.contains(email.message_id),
    ensures
        state.registration(email, found, now) is Done,
        state.shown_for(email, found, now) is None,
        state.after_mail(email, found, now) == state,
{
}

/// A message whose code has been shown gives no second notification, whatever
/// is found in it then. The messages that were forgotten to remember this one
/// have to be others, as they are in a list without repetitions.
pub proof fn message_is_shown_once(
    state: StateView,
    email: EmailView,
    found: FindingView,
    now: Timestamp,
    found_later: FindingView,
    later: Timestamp,
)
    requires
        state.shown_for(email, found, now) is Some,
        forall|i: int|
            0 <= i < state.seen.order.len() + 1 - RECENT_CACHE_LIMIT ==> state.seen.order[i]
                != email.message_id,
    ensures
        state.after_mail(email, found, now).shown_for(email, found_later, later) is None,
        state.after_mail(email, found, now).after_mail(email, found_later, later)
            == state.after_mail(email, found, now),
{
    let id = email.message_id;
    let grown = CacheView { ids: state.seen.ids.insert(id), order: state.seen.order.push(id) };
    assert(!grown.order.take(grown.excess()).contains(id));
}

/// What was written of the messages seen is read back as it was, where no
/// message occurs twice in the list.
pub proof fn written_cache_is_read_back(cache: CacheView)
    requires
        cache.is_consistent(),
    ensures
        CacheView::of(cache.order) == cache,
{
}

/// After a restart the messages are seen that were seen before, where the file
/// holds what was written and no message occurs twice in the list.
pub proof fn restart_remembers_what_was_written(
    config: ConfigView,
    file: SeenCacheFile,
    cache: CacheView,
)
    requires
        cache.is_consistent(),
        file matches SeenCacheFile::Read(bytes) && cache_in(bytes@) == Some(
            CacheView::of(cache.order),
        ),
    ensures
        StateView::fresh(config, cache_from(file)).seen == cache,
{
    written_cache_is_read_back(cache);
}

/// Messages without a code leave the state as it is.
pub proof fn message_without_code_changes_nothing(
    state: StateView,
    email: EmailView,
    now: Timestamp,
)
    ensures
        state.after_mail(email, FindingView::Nothing, now) == state,
        state.shown_for(email, FindingView::Nothing, now) is None,
{
}

} // verus!
