//! What holds of notifications, of the messages seen and of the state of the
//! application, said field by field.

#[allow(unused_imports)]
use crate::app::{
    cache_from, cache_write, ids_json, json_ids, CacheView, RegisterError, SeenCacheFile,
    StateView,
};
#[allow(unused_imports)]
use crate::config::{
    app_dir_below, app_file_below, default_config, load_outcome, save_steps, ConfigErrorView,
    ConfigView, FoundView, LoadView,
};
#[allow(unused_imports)]
use crate::models::{
    expiry_exists, notification, EmailView, MailSessionState, NotificationView, OtpNotification,
};
#[allow(unused_imports)]
use crate::otp::{detection, source_label, FindingView};
#[allow(unused_imports)]
use crate::paths::{BaseView, FileStepView, PathView};
#[allow(unused_imports)]
use crate::payloads::{overlay_payload, settings_of, OverlayPayloadView, SettingsView};
#[allow(unused_imports)]
use crate::timestamp::{clock_text, Timestamp};
use std::path::PathBuf;
use vstd::prelude::*;

verus! {

/// `shown` is about `code` from `label`, hides the code behind asterisks, was made
/// at `now` and ends `seconds` later.
pub open spec fn tells_of(
    shown: NotificationView,
    label: Seq<char>,
    code: Seq<char>,
    now: Timestamp,
    seconds: u64,
) -> bool {
    &&& shown.source_label == label
    &&& shown.raw_code == code
    &&& shown.masked_code.len() == (if code.len() < 4 {
        4
    } else {
        code.len()
    })
    &&& forall|i: int| 0 <= i < shown.masked_code.len() ==> #[trigger] shown.masked_code[i] == '*'
    &&& shown.received_at == now
    &&& shown.expires_at.instant() == now.instant() + seconds * 1_000_000_000
    &&& shown.expires_at.offset() == now.offset()
}

/// A notification made at `now` can end `seconds` later.
pub open spec fn can_end(now: Timestamp, seconds: u64) -> bool {
    &&& seconds <= 0x7fff_ffff_ffff_ffff
    &&& -377_705_116_800_000_000_000 <= now.local() + seconds * 1_000_000_000
        <= 253_402_300_799_999_999_999
}

/// A notification says what it was made with: source, code, time and duration,
/// and hides the code behind one asterisk for each character, at least four.
pub proof fn notification_says_what_it_was_made_with(
    label: Seq<char>,
    code: Seq<char>,
    now: Timestamp,
    seconds: u64,
)
    ensures
        expiry_exists(now, seconds) <==> can_end(now, seconds),
        can_end(now, seconds) ==> tells_of(
            notification(label, code, now, seconds),
            label,
            code,
            now,
            seconds,
        ),
{
    if can_end(now, seconds) {
        now.lemma_later_by(seconds as int);
    }
}

/// `payload` is what the overlay has to show of `shown`.
pub open spec fn presents(
    payload: OverlayPayloadView,
    shown: NotificationView,
    copy_enabled: bool,
) -> bool {
    let nanos = shown.expires_at.instant() - shown.received_at.instant();
    &&& payload.source_label == shown.source_label
    &&& payload.raw_code == shown.raw_code
    &&& payload.masked_code == shown.masked_code
    &&& payload.copy_enabled == copy_enabled
    &&& payload.received_at_label == clock_text(shown.received_at.local())
    &&& nanos >= 0 ==> payload.duration_ms * 1_000_000 <= nanos < (payload.duration_ms + 1)
        * 1_000_000
    &&& nanos < 0 ==> payload.duration_ms == 0
}

/// The overlay is given all that a notification says, and stays for the whole
/// milliseconds up to its end.
pub proof fn overlay_presents_the_notification(shown: NotificationView, copy_enabled: bool)
    ensures
        presents(overlay_payload(shown, copy_enabled), shown, copy_enabled),
{
}

/// The time of day is shown with two digits for the hour, a colon and two digits
/// for the minute.
pub proof fn clock_shows_hour_and_minute(local_nanos: int)
    ensures
        ({
            let shown = clock_text(local_nanos);
            let value = |i: int| shown[i] as int - 48;
            &&& shown.len() == 5
            &&& shown[2] == ':'
            &&& 0 <= value(0) <= 9 && 0 <= value(1) <= 9 && 0 <= value(3) <= 9 && 0 <= value(4) <= 9
            &&& value(0) * 10 + value(1) < 24
            &&& value(3) * 10 + value(4) < 60
            &&& (value(0) * 10 + value(1)) * 60 + value(3) * 10 + value(4) == (local_nanos
                / 60_000_000_000) % 1440
        }),
{
}

/// `view` shows `state`.
pub open spec fn shows_state(view: SettingsView, state: StateView) -> bool {
    &&& view.session_state == match state.session_state {
        MailSessionState::Unauthenticated => "Sign-in required"@,
        MailSessionState::Restoring => "Restoring session"@,
        MailSessionState::Authenticated => "Monitoring active"@,
        MailSessionState::Expired => "Session expired"@,
        MailSessionState::Error => "Attention needed"@,
        MailSessionState::Paused => "Monitoring paused"@,
    }
    &&& view.autostart_status == if state.config.launch_on_startup {
        "Enabled"@
    } else {
        "Disabled"@
    }
    &&& view.poll_interval_seconds == state.config.poll_interval_seconds
    &&& view.notification_duration_seconds == state.config.notification_duration_seconds
    &&& view.copy_button_enabled == state.config.copy_button_enabled
    &&& view.launch_on_startup == state.config.launch_on_startup
    &&& view.last_masked_code is Some <==> state.current_notification is Some
    &&& state.current_notification matches Some(shown) ==> view.last_masked_code == Some(
        shown.masked_code,
    )
    &&& view.debug_logs == state.debug_logs
}

/// The settings window shows the session, the settings, the hidden code and the
/// log as they are.
pub proof fn settings_window_shows_the_state(state: StateView)
    ensures
        shows_state(settings_of(state), state),
{
}

/// `after` is `before` with `id` remembered last: the list grows by it, and the
/// oldest go where it would have more than 128.
pub open spec fn remembers(before: CacheView, id: Seq<char>, after: CacheView) -> bool {
    &&& after.ids.contains(id)
    &&& after.order == if before.order.len() < 128 {
        before.order.push(id)
    } else {
        before.order.push(id).skip(before.order.len() + 1 - 128)
    }
    &&& forall|other: Seq<char>| #[trigger]
        after.ids.contains(other) ==> other == id || before.ids.contains(other)
    &&& forall|other: Seq<char>| #[trigger]
        before.ids.contains(other) && after.order.contains(other) && before.is_consistent()
            ==> after.ids.contains(other)
}

/// A message that is not in the list yet is remembered, and with it the most
/// recent of those before it, 128 in all.
pub proof fn new_message_is_remembered(before: CacheView, id: Seq<char>)
    requires
        !before.ids.contains(id),
        !before.order.contains(id),
    ensures
        remembers(before, id, before.with(id)),
{
    let grown = CacheView { ids: before.ids.insert(id), order: before.order.push(id) };
    let gone = grown.order.take(grown.excess());
    let after = before.with(id);
    if gone.contains(id) {
        let i = choose|i: int| 0 <= i < gone.len() && gone[i] == id;
        assert(before.order[i] == id);
    }
    assert(after.order =~= if before.order.len() < 128 {
        before.order.push(id)
    } else {
        before.order.push(id).skip(before.order.len() + 1 - 128)
    });
    assert forall|other: Seq<char>| #[trigger]
        before.ids.contains(other) && after.order.contains(other)
            && before.is_consistent() implies after.ids.contains(other) by {
        if gone.contains(other) {
            let i = choose|i: int| 0 <= i < gone.len() && gone[i] == other;
            let k = choose|k: int| 0 <= k < after.order.len() && after.order[k] == other;
            assert(grown.order[k + grown.excess()] == other);
            assert(grown.order[i] == other);
            assert(before.order[i] == other);
            if k + grown.excess() < before.order.len() {
                assert(before.order[k + grown.excess()] == other);
            }
        }
    }
}

/// A message that is in the list already leaves it as it is, if it is no longer
/// than it may be.
pub proof fn known_message_leaves_the_list(before: CacheView, id: Seq<char>)
    requires
        before.ids.contains(id),
        before.order.len() <= 128,
    ensures
        before.with(id) == before,
{
    assert(before.with(id).order =~= before.order);
    assert(before.with(id).ids =~= before.ids);
}

/// Registering a new message with a code shows that code under the label of its
/// source, for as long as the configuration says, remembers the message, and
/// changes nothing else; whatever was shown before is replaced.
pub proof fn new_code_is_shown_and_remembered(
    state: StateView,
    email: EmailView,
    code: Seq<char>,
    now: Timestamp,
    shown: Result<Option<OtpNotification>, RegisterError>,
    after: StateView,
)
    requires
        state.registers(email, now, shown, after),
        !state.seen.ids.contains(email.message_id),
        !state.seen.order.contains(email.message_id),
        detection(email) == FindingView::Code(code),
        can_end(now, state.config.notification_duration_seconds),
    ensures
        shown matches Ok(Some(n)) && tells_of(
            n@,
            source_label(email),
            code,
            now,
            state.config.notification_duration_seconds,
        ) && after.current_notification == Some(n@),
        remembers(state.seen, email.message_id, after.seen),
        after.config == state.config,
        after.session_state == state.session_state,
        after.seen_cache_path == state.seen_cache_path,
        after.debug_logs == state.debug_logs,
{
    notification_says_what_it_was_made_with(
        source_label(email),
        code,
        now,
        state.config.notification_duration_seconds,
    );
    new_message_is_remembered(state.seen, email.message_id);
}

/// Registering changes nothing where there is nothing new to show: for a message
/// already seen, for one without a code, and for one that cannot be judged or
/// whose notification could not end, each of which is told apart.
pub proof fn nothing_new_changes_nothing(
    state: StateView,
    email: EmailView,
    now: Timestamp,
    shown: Result<Option<OtpNotification>, RegisterError>,
    after: StateView,
)
    requires
        state.registers(email, now, shown, after),
    ensures
        state.seen.ids.contains(email.message_id) ==> shown == Ok::<
            Option<OtpNotification>,
            RegisterError,
        >(None) && after == state,
        !state.seen.ids.contains(email.message_id) ==> match detection(email) {
            FindingView::Nothing => shown == Ok::<Option<OtpNotification>, RegisterError>(None)
                && after == state,
            FindingView::SplitCharacter => shown == Err::<Option<OtpNotification>, RegisterError>(
                RegisterError::SplitCharacter,
            ) && after == state,
            FindingView::Code(_) => !can_end(now, state.config.notification_duration_seconds)
                ==> shown == Err::<Option<OtpNotification>, RegisterError>(
                RegisterError::ExpiryOutOfRange,
            ) && after == state,
        },
{
}

/// The application starts signed out and without a notification, with an empty
/// log, and keeps the messages seen in its data directory. It knows the messages
/// of the list that was kept, in its order, and none where there is no such list.
pub proof fn fresh_state_is_signed_out(config: ConfigView, file: SeenCacheFile)
    ensures
        ({
            let state = StateView::fresh(config, cache_from(file));
            &&& state.config == config
            &&& state.session_state is Unauthenticated
            &&& state.current_notification is None
            &&& state.debug_logs.len() == 0
            &&& state.seen_cache_path.base == config.user_data_dir.base
            &&& state.seen_cache_path.names == config.user_data_dir.names.push("seen-cache.json"@)
            &&& match file {
                SeenCacheFile::Read(bytes) if json_ids(bytes@) is Some => {
                    &&& state.seen.order == json_ids(bytes@).unwrap()
                    &&& forall|id: Seq<char>| #[trigger]
                        state.seen.ids.contains(id) <==> json_ids(bytes@).unwrap().contains(id)
                },
                _ => {
                    &&& state.seen.order.len() == 0
                    &&& forall|id: Seq<char>| !(#[trigger] state.seen.ids.contains(id))
                },
            }
        }),
{
}

/// Before the list of messages seen is written its directory is made; what is
/// written is the list, oldest first, and it goes to the file given.
pub proof fn list_is_written_in_its_order(cache: CacheView, path: PathView)
    ensures
        cache_write(cache, path).create_dir == FileStepView::CreateParentDir(path),
        cache_write(cache, path).write == FileStepView::WriteSeenCache(path),
        cache_write(cache, path).payload == ids_json(cache.order),
{
}

/// The default configuration looks every eight seconds, shows a code for eight
/// seconds with a button to copy it, does not start at sign-in, starts in the
/// tray, and opens the inbox. Its data lies below the application's directory or,
/// without one, below the current one.
pub proof fn defaults_are_as_documented(dir: Option<PathView>)
    ensures
        default_config(dir).poll_interval_seconds == 8,
        default_config(dir).notification_duration_seconds == 8,
        !default_config(dir).launch_on_startup,
        default_config(dir).start_minimized_to_tray,
        default_config(dir).copy_button_enabled,
        default_config(dir).proton_mail_url == "https://mail.proton.me/u/0/inbox"@,
        dir matches Some(d) ==> default_config(dir).user_data_dir.base == d.base && default_config(
            dir,
        ).user_data_dir.names == d.names.push("webview-data"@),
        dir is None ==> default_config(dir).user_data_dir.base == BaseView::Text("."@)
            && default_config(dir).user_data_dir.names == seq!["webview-data"@],
{
    assert(Seq::<Seq<char>>::empty().push("webview-data"@) =~= seq!["webview-data"@]);
}

/// A file that is there is used as it is and never replaced by the defaults: its
/// configuration is loaded without saving, and one that cannot be read or makes
/// no sense is an error that names it. Only where there is no file the defaults
/// are used, and saved.
pub proof fn existing_files_are_kept(
    path: PathView,
    found: FoundView,
    dir: Option<PathView>,
)
    ensures
        load_outcome(None, found, dir) == LoadView::Failed(ConfigErrorView::PathUnavailable),
        found matches FoundView::Read(config) ==> load_outcome(Some(path), found, dir)
            == LoadView::Usable(config, false),
        found is Unreadable ==> load_outcome(Some(path), found, dir) == LoadView::Failed(
            ConfigErrorView::Unreadable(path),
        ),
        found is Malformed ==> load_outcome(Some(path), found, dir) == LoadView::Failed(
            ConfigErrorView::Malformed(path),
        ),
        found is Missing ==> load_outcome(Some(path), found, dir) == LoadView::Usable(
            default_config(dir),
            true,
        ),
{
}

/// A configuration is saved by making its own directory and the one for data, in
/// this order, and then writing the file.
pub proof fn saving_makes_directories_first(config: ConfigView, path: PathView)
    ensures
        save_steps(config, path).len() == 3,
        save_steps(config, path)[0] == FileStepView::CreateConfigDir(path),
        save_steps(config, path)[1] == FileStepView::CreateDataDir(config.user_data_dir),
        save_steps(config, path)[2] == FileStepView::WriteConfig(path),
{
}

/// The files of the application lie in its own directory below the configuration
/// directory of the user; without that there are none.
pub proof fn files_lie_below_the_configuration_directory(base: PathBuf, name: Seq<char>)
    ensures
        app_dir_below(Some(base)) == Some(
            PathView { base: BaseView::System(base), names: seq!["protoncode"@] },
        ),
        app_file_below(Some(base), name) == Some(
            PathView { base: BaseView::System(base), names: seq!["protoncode"@, name] },
        ),
        app_dir_below(None) is None,
        app_file_below(None, name) is None,
{
    assert(seq!["protoncode"@].push(name) =~= seq!["protoncode"@, name]);
}

} // verus!
