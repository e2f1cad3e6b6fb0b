//! What the user can rely on, whatever the order of keys and messages.

use vstd::prelude::*;

use crate::app::{InputMode, LoginPhase};
use crate::app_laws;
use crate::app_model;
use crate::app_model::{AppModel, Marked, Message, ReactionModel};
use crate::keys::{Command, KeyCode, KeyEvent};
use crate::music;
use crate::music::{Login, Platform, SongModel, SongQuality};
use crate::task_laws;
use crate::text;

verus! {

/// The results of a search count only if it was the last to be asked for.
pub proof fn law_outdated_searches_are_ignored(
    app: AppModel,
    request_id: u64,
    result: Result<(Seq<SongModel>, bool), Seq<char>>,
)
    requires
        request_id != app.search_request_id,
    ensures
        app.received(Message::SearchFinished(request_id, result)) == app,
{
}

/// After a switch to the other platform no search from before it counts,
/// whether or not a new one follows.
pub proof fn law_switching_discards_searches(
    app: AppModel,
    request_id: u64,
    result: Result<(Seq<SongModel>, bool), Seq<char>>,
)
    requires
        request_id <= app.search_request_id,
    ensures
        app.toggled().platform != app.platform,
        app.toggled().results.len() == 0,
        !app.toggled().more,
        app.toggled().received(Message::SearchFinished(request_id, result)) == app.toggled(),
{
}

/// A search asks for the songs of one page, under a number that no search had
/// before, and only its own result is shown.
pub proof fn law_searches_are_paged_and_numbered(app: AppModel, now: int)
    requires
        app.valid(),
        app.can_search(),
        app.search(now) is Some,
    ensures
        app.search(now)->Some_0.request_id == app.searched().search_request_id,
        app.search(now)->Some_0.request_id > app.search_request_id,
        app.search(now)->Some_0.platform == app.platform,
        app.search(now)->Some_0.offset == (app.searched().page - 1)
            * app.search(now)->Some_0.limit,
        app.searched().loading,
{
}

/// Going on one page and back again asks for the same page.
pub proof fn law_paging_back_undoes_paging_on(
    app: AppModel,
    songs: Seq<SongModel>,
    more: bool,
)
    requires
        app.valid(),
        app.can_page_on(),
        !app.loading,
        app.more,
        text::trimmed(app.input) == app.query,
        app.query.len() > 0,
    ensures
        ({
            let on = app.paged_on();
            let shown = on.received(
                Message::SearchFinished(on.search_request_id as u64, Ok((songs, more))),
            );
            &&& on.page == app.page + 1
            &&& shown.paged_back().page == app.page
            &&& shown.paged_back().query == app.query
        }),
{
    text::lemma_trimmed_is_trimmed(app.input);
}

/// Once a login attempt has failed or its code has expired, no message about
/// any attempt changes anything until a new attempt is started.
pub proof fn law_settled_logins_are_not_revived(app: AppModel, message: Message)
    requires
        app.login_overlay is Some,
        !app_model::open_phase(app.login_overlay->Some_0.phase),
        message is LoginQr || message is LoginPhase || message is LoginSuccess,
    ensures
        app.received(message) == app,
        app.reaction(message) == ReactionModel::Nothing,
{
}

/// Messages about any attempt but the one that is shown change nothing.
pub proof fn law_other_logins_are_ignored(
    app: AppModel,
    request_id: u64,
    phase: LoginPhase,
    text: Seq<char>,
    login: Login,
)
    requires
        app.login_overlay is None || app.login_overlay->Some_0.request_id != request_id,
    ensures
        app.received(Message::LoginQr(request_id, text)) == app,
        app.received(Message::LoginPhase(request_id, phase, text)) == app,
        app.received(Message::LoginSuccess(request_id, login)) == app,
        app.reaction(Message::LoginQr(request_id, text)) == ReactionModel::Nothing,
        app.reaction(Message::LoginSuccess(request_id, login)) == ReactionModel::Nothing,
{
}

/// A code that cannot be shown ends the attempt: the polling is told to stop,
/// and the failure stays on display.
pub proof fn law_unreadable_codes_end_the_attempt(
    app: AppModel,
    request_id: u64,
    prepared: Result<Seq<Seq<char>>, crate::qr::QrFailure>,
)
    requires
        app.valid(),
        app.awaits_login(request_id),
        prepared is Err,
    ensures
        app.qr_cancels(request_id, prepared) == Some(request_id),
        app.qr_shown(request_id, prepared).login_overlay is Some,
        app.qr_shown(request_id, prepared).login_overlay->Some_0.phase == LoginPhase::Failed,
        !app.qr_shown(request_id, prepared).awaits_login(request_id),
{
}

/// A new attempt ends the one before it, whose messages then count no more.
pub proof fn law_new_attempts_replace_old_ones(app: AppModel, request_id: u64)
    requires
        app.valid(),
        app.can_perform(Command::Login),
        app.awaits_login(request_id),
    ensures
        app.login_cancel == Some(request_id),
        !app.login_started().awaits_login(request_id),
        app.login_started().awaits_login((app.login_request_id + 1) as u64),
{
}

/// A login makes any refresh of the same platform that was started before it
/// worthless: its outcome is counted and otherwise ignored.
pub proof fn law_logins_outdate_refreshes(
    app: AppModel,
    request_id: u64,
    login: Login,
    result: Result<Login, Seq<char>>,
)
    requires
        app.valid(),
        app.awaits_login(request_id),
        app.can_receive(Message::LoginSuccess(request_id, login)),
    ensures
        ({
            let platform = login.platform();
            let revision = app.cookie_revisions[app_model::index(platform)];
            let after = app.logged_in(request_id, login);
            let message = Message::CookieRefreshFinished(platform, revision, result);
            &&& after.received(message) == (AppModel {
                cookie_refresh_pending: after.received(message).cookie_refresh_pending,
                ..after
            })
            &&& after.reaction(message) == ReactionModel::Nothing
        }),
{
}

/// A login leaves the other platform alone: its login, its revision, and
/// whether its refresh has failed.
pub proof fn law_logins_leave_the_other_platform_alone(
    app: AppModel,
    request_id: u64,
    login: Login,
)
    requires
        app.valid(),
    ensures
        ({
            let other = login.platform().other();
            let after = app.logged_in(request_id, login);
            &&& after.cookies.stored(other) == app.cookies.stored(other)
            &&& after.cookie_revisions[app_model::index(other)]
                == app.cookie_revisions[app_model::index(other)]
            &&& after.cookie_refresh_failed.contains(other)
                == app.cookie_refresh_failed.contains(other)
        }),
{
    app_laws::lemma_without(app.cookie_refresh_failed, login.platform());
}

/// Whenever a message changes the logins, they are to be stored at once.
pub proof fn law_changed_logins_are_stored(app: AppModel, message: Message)
    requires
        app.received(message).cookies != app.cookies,
    ensures
        app.reaction(message) is Save,
{
}

/// Whether a message brings a new login of the given platform that counts.
pub open spec fn renews(app: AppModel, platform: Platform, message: Message) -> bool {
    match message {
        Message::LoginSuccess(request_id, login) => app.awaits_login(request_id)
            && login.platform() == platform,
        Message::CookieRefreshFinished(refreshed, revision, Ok(login)) => revision
            == app.cookie_revisions[app_model::index(refreshed)] && (refreshed == platform
            || login.platform() == platform),
        _ => false,
    }
}

/// A warning on a login stays through every message but one that brings a new
/// login of its platform.
pub proof fn law_warnings_survive_messages(
    app: AppModel,
    platform: Platform,
    message: Message,
    now: int,
    later: int,
)
    requires
        now <= later,
        app.warning(platform, now) is Some,
        !renews(app, platform, message),
    ensures
        app.received(message).warning(platform, later) is Some,
{
    match message {
        Message::LoginSuccess(request_id, login) => {
            app_laws::lemma_without(app.cookie_refresh_failed, login.platform());
        },
        Message::CookieRefreshFinished(refreshed, revision, result) => {
            app_laws::lemma_without(app.cookie_refresh_failed, refreshed);
            let failed = app.cookie_refresh_failed;
            if failed.contains(platform) {
                let i = choose|i: int| 0 <= i < failed.len() && failed[i] == platform;
                assert(failed.push(refreshed)[i] == platform);
            }
        },
        _ => {},
    }
}

/// A warning on a login stays through every command.
#[verifier::rlimit(60)]
pub proof fn law_warnings_survive_commands(
    app: AppModel,
    platform: Platform,
    command: Command,
    now: int,
    later: int,
)
    requires
        now <= later,
        app.warning(platform, now) is Some,
    ensures
        app.performed(command).warning(platform, later) is Some,
{
    assert(app.performed(command).cookies == app.cookies);
    assert(app.performed(command).cookie_refresh_failed == app.cookie_refresh_failed);
}

/// A new login that has not expired takes away the warning on its platform,
/// and no other.
pub proof fn law_new_logins_clear_their_warning(app: AppModel, login: Login, now: int)
    requires
        !login.expired_at(now),
    ensures
        app.renewed(login.platform(), login).warning(login.platform(), now) is None,
        app.renewed(login.platform(), login).warning(login.platform().other(), now)
            == app.warning(login.platform().other(), now),
        app.renewed(login.platform(), login).login_text(login.platform(), now) == "已登录"@,
{
    app_laws::lemma_without(app.cookie_refresh_failed, login.platform());
}

/// A refresh that failed is not taken for an expired login, which goes on
/// being used.
pub proof fn law_failed_refreshes_are_not_expiry(
    app: AppModel,
    platform: Platform,
    error: Seq<char>,
    now: int,
)
    requires
        app.cookies.stored(platform) is Some,
        !app.cookies.expired(platform, now),
    ensures
        ({
            let revision = app.cookie_revisions[app_model::index(platform)];
            let after = app.received(
                Message::CookieRefreshFinished(platform, revision, Err(error)),
            );
            &&& after.login_text(platform, now) == "登录待确认"@
            &&& after.warning(platform, now) is Some
            &&& after.cookies.usable(platform, now) == app.cookies.stored(platform)
        }),
{
    let failed = app.cookie_refresh_failed;
    assert(failed.push(platform)[failed.len() as int] == platform);
}

/// A login that has expired is never sent, neither with a search nor with a
/// download.
pub proof fn law_expired_logins_are_not_sent(app: AppModel, now: int)
    ensures
        app.cookies.expired(app.platform, now) && app.search(now) is Some
            ==> app.search(now)->Some_0.login is None,
        forall|i: int|
            0 <= i < app.requests(now).len() && app.cookies.expired(
                (#[trigger] app.requests(now)[i]).platform,
                now,
            ) ==> app.requests(now)[i].login is None && app.requests(now)[i].media_cookie is None,
{
}

/// Toggling the mark of a song twice changes no mark.
pub proof fn law_marking_twice_changes_nothing(app: AppModel, key: Seq<char>)
    requires
        app.valid(),
    ensures
        app_model::has_mark(app.mark_toggled().mark_toggled().marked, key) == app_model::has_mark(
            app.marked,
            key,
        ),
{
    if let Some(song) = app.current() {
        let once = app.mark_toggled();
        app_laws::law_commands_keep_validity(app, Command::Mark);
        lemma_toggle(app, song, key);
        assert(once.current() == app.current());
        lemma_toggle(once, song, key);
    }
}

/// Toggling the mark of a song changes the mark of that song, and of no other.
pub proof fn law_marking_toggles_one_song(app: AppModel, key: Seq<char>)
    requires
        app.valid(),
        app.current() is Some,
    ensures
        app_model::has_mark(app.mark_toggled().marked, key) == (app_model::has_mark(
            app.marked,
            key,
        ) != (key == app.current()->Some_0.key())),
{
    lemma_toggle(app, app.current()->Some_0, key);
}

/// Toggling the mark of a song changes the mark of that song, and of no other.
proof fn lemma_toggle(app: AppModel, song: Marked, key: Seq<char>)
    requires
        app.valid(),
        app.current() == Some(song),
    ensures
        app_model::has_mark(app.mark_toggled().marked, key) == (app_model::has_mark(
            app.marked,
            key,
        ) != (key == song.key())),
{
    let marked = app.marked;
    app_laws::lemma_unmark(marked, song.key());
    let pushed = marked.push(song);
    if app_model::has_mark(marked, key) {
        let i = choose|i: int| 0 <= i < marked.len() && (#[trigger] marked[i]).key() == key;
        assert(pushed[i] == marked[i]);
    }
    if app_model::has_mark(pushed, key) {
        let i = choose|i: int| 0 <= i < pushed.len() && (#[trigger] pushed[i]).key() == key;
        if i < marked.len() {
            assert(pushed[i] == marked[i]);
        }
    }
    assert(pushed[marked.len() as int].key() == song.key());
}

/// Toggling the marks of a page leaves all its songs marked or, if all were,
/// none of them; songs that are not on the page keep their marks.
pub proof fn law_page_marks_are_all_or_none(app: AppModel, key: Seq<char>)
    requires
        app.valid(),
        app.results.len() > 0,
    ensures
        app_model::has_mark(app.page_toggled().marked, key) == if app_laws::among(
            app.platform,
            app.results,
            key,
        ) {
            !app_model::all_marked(app.marked, app.platform, app.results)
        } else {
            app_model::has_mark(app.marked, key)
        },
{
    app_laws::lemma_mark_all(app.marked, app.platform, app.results);
    app_laws::lemma_unmark_all(app.marked, app.platform, app.results);
}

/// Toggling the marks of a page keeps the marked songs of other pages and of
/// the other platform, each as it was marked.
pub proof fn law_page_marks_keep_other_songs(app: AppModel, other: Marked)
    requires
        !app_laws::among(app.platform, app.results, other.key()),
    ensures
        app.page_toggled().marked.contains(other) == app.marked.contains(other),
{
    app_laws::lemma_other_marks_of_all(app.marked, app.platform, app.results, other);
}

/// A song of the other platform is on no page of this one.
pub proof fn law_pages_hold_one_platform(app: AppModel, other: Marked)
    requires
        other.platform != app.platform,
    ensures
        !app_laws::among(app.platform, app.results, other.key()),
        app.page_toggled().marked.contains(other) == app.marked.contains(other),
{
    assert forall|i: int| 0 <= i < app.results.len() implies music::key_of(
        app.platform,
        (#[trigger] app.results[i]).id,
    ) != other.key() by {
        music::law_keys_tell_songs_apart(
            app.platform,
            app.results[i].id,
            other.platform,
            other.song.id,
        );
    }
    law_page_marks_keep_other_songs(app, other);
}

/// A request for downloads leaves every song that it was of among the
/// downloads, takes away all marks, and leaves the downloads that were there
/// as they were.
pub proof fn law_queueing_covers_all_candidates(app: AppModel)
    requires
        app.candidates().len() > 0,
    ensures
        app.queued().marked.len() == 0,
        app.queued().downloads.len() == app.downloads.len() + app.requests(0).len(),
        app.queued().downloads.take(app.downloads.len() as int) == app.downloads,
        forall|i: int|
            0 <= i < app.candidates().len() ==> app_model::has_download(
                app.queued().downloads,
                (#[trigger] app.candidates()[i]).key(),
            ),
{
    let new = app.fresh_candidates();
    app_laws::lemma_fresh(app.downloads, app.candidates());
    let all = app.queued().downloads;
    assert(all =~= app.downloads + app_model::new_items(app.next_job_id, new, app.quality));
    assert(all.take(app.downloads.len() as int) =~= app.downloads);
    assert forall|i: int| 0 <= i < app.candidates().len() implies app_model::has_download(
        all,
        (#[trigger] app.candidates()[i]).key(),
    ) by {
        let key = app.candidates()[i].key();
        if app_model::has_download(app.downloads, key) {
            let j = choose|j: int|
                0 <= j < app.downloads.len() && (#[trigger] app.downloads[j]).key == key;
            assert(all[j].key == key);
        } else {
            let j = choose|j: int| 0 <= j < new.len() && (#[trigger] new[j]).key() == key;
            assert(all[app.downloads.len() + j].key == key);
        }
    }
}

/// Asking for the same downloads a second time queues nothing.
pub proof fn law_downloads_are_not_queued_twice(app: AppModel, candidates: Seq<Marked>)
    requires
        forall|i: int|
            0 <= i < candidates.len() ==> app_model::has_download(
                app.downloads,
                (#[trigger] candidates[i]).key(),
            ),
    ensures
        app_model::fresh(app.downloads, candidates).len() == 0,
    decreases candidates.len(),
{
    if candidates.len() > 0 {
        let rest = candidates.drop_last();
        assert forall|i: int| 0 <= i < rest.len() implies app_model::has_download(
            app.downloads,
            (#[trigger] rest[i]).key(),
        ) by {
            assert(candidates[i] == rest[i]);
        }
        law_downloads_are_not_queued_twice(app, rest);
        assert(candidates[candidates.len() - 1] == candidates.last());
    }
}

/// A message about a download changes that download, and no other.
pub proof fn law_messages_change_one_download(app: AppModel, message: Message, i: int)
    requires
        app.valid(),
        task_laws::about(message) is Some,
        0 <= i < app.downloads.len(),
    ensures
        app.received(message).downloads.len() == app.downloads.len(),
        app.downloads[i].job_id != task_laws::about(message)->Some_0 ==> app.received(
            message,
        ).downloads[i] == app.downloads[i],
        app.downloads[i].job_id == task_laws::about(message)->Some_0 ==> match message {
            Message::DownloadStage(_, state) => app.received(message).downloads[i].state == state,
            Message::DownloadResolved(_, quality) => app.received(
                message,
            ).downloads[i].actual_quality == Some(quality),
            Message::DownloadProgress(_, received, total) => {
                &&& app.received(message).downloads[i].received == received
                &&& app.received(message).downloads[i].total == total
            },
            _ => true,
        },
{
    app_laws::lemma_job_position(app.downloads, task_laws::about(message)->Some_0);
}

/// Clearing the list keeps exactly the downloads that have not come to their
/// end.
pub proof fn law_clearing_keeps_active_downloads(app: AppModel, i: int)
    ensures
        0 <= i < app.downloads.len() && !app.downloads[i].state.finished()
            ==> app.cleared().downloads.contains(app.downloads[i]),
        0 <= i < app.cleared().downloads.len() ==> {
            &&& !app.cleared().downloads[i].state.finished()
            &&& app.downloads.contains(app.cleared().downloads[i])
        },
{
    app_laws::lemma_unfinished(app.downloads);
}

/// A request to quit is followed exactly if every download has come to its
/// end; the forced one always is.
pub proof fn law_quitting_waits_for_downloads(app: AppModel)
    requires
        !app.should_quit,
    ensures
        app.performed(Command::Quit).should_quit <==> forall|i: int|
            0 <= i < app.downloads.len() ==> (#[trigger] app.downloads[i]).state.finished(),
        app.performed(Command::ForceQuit).should_quit,
{
    let kept = app_model::unfinished(app.downloads);
    app_laws::lemma_unfinished(app.downloads);
    if kept.len() > 0 {
        assert(!kept[0].state.finished());
        let j = choose|j: int| 0 <= j < app.downloads.len() && app.downloads[j] == kept[0];
        assert(!app.downloads[j].state.finished());
    }
}

/// Seven steps through the qualities come back to where they started, and no
/// fewer do.
pub proof fn law_qualities_cycle(quality: SongQuality)
    ensures
        quality.next().next().next().next().next().next().next() == quality,
        quality.next() != quality,
        quality.next().next() != quality,
        quality.next().next().next() != quality,
        quality.next().next().next().next() != quality,
        quality.next().next().next().next().next() != quality,
        quality.next().next().next().next().next().next() != quality,
{
}

/// A second switch comes back to the first platform.
pub proof fn law_platforms_alternate(app: AppModel)
    ensures
        app.toggled().platform == app.platform.other(),
        app.toggled().toggled().platform == app.platform,
{
}

/// In the main view a character without a modifier always edits the search
/// text, and does nothing else.
pub proof fn law_letters_edit_the_query(app: AppModel, c: char)
    requires
        app.login_overlay is None,
        !app.show_help,
    ensures
        ({
            let key = KeyEvent { code: KeyCode::Char(c), control: false, alt: false };
            &&& app.performed(app.command(key)) == (AppModel {
                input: app.input.push(c),
                input_mode: InputMode::Editing,
                ..app
            })
        }),
{
}

/// While a login is shown, or the help, no key gets through to the main view:
/// keys close what is shown, start a settled login again, or quit.
pub proof fn law_overlays_catch_keys(app: AppModel, key: KeyEvent)
    requires
        app.login_overlay is Some || app.show_help,
    ensures
        ({
            let command = app.command(key);
            ||| command == Command::Nothing
            ||| command == Command::Quit
            ||| command == Command::ForceQuit
            ||| command == Command::HideHelp && app.login_overlay is None
            ||| command == Command::CloseLogin && app.login_overlay is Some
            ||| command == Command::Login && app.login_overlay is Some && !app_model::open_phase(
                app.login_overlay->Some_0.phase,
            )
        }),
{
}

} // verus!
