//! What holds of the application in every state, and across operations.

use std::time::Instant;
use vstd::prelude::*;

use crate::app::SaveReason;
use crate::app_model;
use crate::app_model::{AppModel, ItemModel, Marked, Message};
use crate::keys::Command;
use crate::model;
use crate::music;
use crate::music::{Platform, SongModel};
use crate::qr::StepModel;
use crate::storage::{CookieFile, Paths};

verus! {

/// Whether no song is marked twice.
pub open spec fn marked_once(marked: Seq<Marked>) -> bool {
    forall|i: int, j: int|
        0 <= i < j < marked.len() ==> (#[trigger] marked[i]).key() != (#[trigger] marked[j]).key()
}

/// Whether no song is downloaded twice, and no number used twice.
pub open spec fn downloaded_once(downloads: Seq<ItemModel>) -> bool {
    forall|i: int, j: int|
        0 <= i < j < downloads.len() ==> (#[trigger] downloads[i]).key != (
        #[trigger] downloads[j]).key && downloads[i].job_id != downloads[j].job_id
}

/// Whether all numbers of downloads are below the next one, and their keys
/// are those of their songs.
pub open spec fn numbered(downloads: Seq<ItemModel>, next: int) -> bool {
    forall|i: int|
        0 <= i < downloads.len() ==> (#[trigger] downloads[i]).job_id < next && downloads[i].key
            == music::key_of(downloads[i].platform, downloads[i].song.id)
}

/// Whether no platform occurs twice.
pub open spec fn listed_once(platforms: Seq<Platform>) -> bool {
    forall|i: int, j: int|
        0 <= i < j < platforms.len() ==> #[trigger] platforms[i] != #[trigger] platforms[j]
}

impl AppModel {
    /// What holds in every state that can be reached.
    pub open spec fn valid(self) -> bool {
        &&& self.page >= 1
        &&& self.search_request_id >= 0
        &&& self.selected_row >= 0
        &&& self.results.len() > 0 ==> self.selected_row < self.results.len()
        &&& marked_once(self.marked)
        &&& downloaded_once(self.downloads)
        &&& numbered(self.downloads, self.next_job_id)
        &&& self.next_job_id >= 1
        &&& self.cookie_refresh_pending >= 0
        &&& listed_once(self.cookie_refresh_failed)
        &&& self.cookie_revisions.len() == 2
        &&& self.login_valid()
    }

    /// A login attempt can be ended exactly while its outcome is open, and
    /// its number is not above the last one given out.
    pub open spec fn login_valid(self) -> bool {
        &&& self.login_request_id >= 0
        &&& match self.login_overlay {
            Some(overlay) => {
                &&& overlay.request_id <= self.login_request_id
                &&& self.login_cancel == if app_model::open_phase(overlay.phase) {
                    Some(overlay.request_id)
                } else {
                    None
                }
            },
            None => self.login_cancel is None,
        }
    }
}

/// The state at the start is valid.
pub proof fn law_initial_state_is_valid(paths: Paths, file: CookieFile)
    ensures
        app_model::initial(paths, file).valid(),
{
}

/// Validity does not depend on since when a notice is up.
pub proof fn lemma_dated(app: AppModel, at: Instant)
    ensures
        app.dated(at).valid() == app.valid(),
{
}

/// Every command that the user can give leads from valid states to valid ones.
#[verifier::rlimit(60)]
pub proof fn law_commands_keep_validity(app: AppModel, command: Command)
    requires
        app.valid(),
        app.can_perform(command),
    ensures
        app.performed(command).valid(),
{
    match command {
        Command::Mark => {
            lemma_mark_toggled(app);
        },
        Command::MarkPage => {
            lemma_page_toggled(app);
        },
        Command::Download => {
            lemma_queue(app);
        },
        Command::ClearFinished => {
            lemma_cleared(app);
        },
        Command::Search => {
            lemma_searched(app);
        },
        Command::TogglePlatform => {
            lemma_searched(app.switched());
        },
        Command::PreviousPage => {
            lemma_searched(app.at_page(app.page - 1));
        },
        Command::NextPage => {
            lemma_searched(app.at_page(app.page + 1));
        },
        Command::Login => {
            lemma_login_started(app);
        },
        Command::SelectPrevious | Command::SelectNext => {
            lemma_selected(app);
        },
        _ => {
            lemma_frame(app, app.performed(command));
        },
    }
}

/// Validity does not depend on what is typed, shown or said, nor on which row
/// is selected.
proof fn lemma_frame(app: AppModel, after: AppModel)
    requires
        app.valid(),
        after.page == app.page,
        after.search_request_id == app.search_request_id,
        0 <= after.selected_row,
        app.results.len() > 0 ==> after.selected_row < app.results.len(),
        after.results == app.results,
        after.marked == app.marked,
        after.downloads == app.downloads,
        after.next_job_id == app.next_job_id,
        after.cookie_refresh_pending == app.cookie_refresh_pending,
        after.cookie_refresh_failed == app.cookie_refresh_failed,
        after.cookie_revisions == app.cookie_revisions,
        after.login_valid(),
    ensures
        after.valid(),
{
}

/// Starting a login keeps the state valid.
proof fn lemma_login_started(app: AppModel)
    requires
        app.valid(),
        app.login_request_id < u64::MAX,
    ensures
        app.login_started().valid(),
{
}

/// Moving through the results keeps the state valid.
proof fn lemma_selected(app: AppModel)
    requires
        app.valid(),
    ensures
        app.selected_up().valid(),
        app.selected_down().valid(),
{
}


/// As long as no counter is near its limit, every command can be carried out
/// and every message taken in.
pub proof fn law_room_is_enough(app: AppModel, command: Command, message: Message)
    requires
        app.has_room(),
    ensures
        app.can_perform(command),
        app.can_receive(message),
{
    lemma_fresh(app.downloads, app.candidates());
}

/// Every message leads from valid states to valid ones.
pub proof fn law_messages_keep_validity(app: AppModel, message: Message)
    requires
        app.valid(),
    ensures
        app.received(message).valid(),
{
    match message {
        Message::LoginSuccess(request_id, login) => {
            lemma_without(app.cookie_refresh_failed, login.platform());
        },
        Message::CookieRefreshFinished(platform, revision, result) => {
            lemma_without(app.cookie_refresh_failed, platform);
        },
        Message::DownloadStage(job_id, state) => {
            lemma_job_position(app.downloads, job_id);
        },
        Message::DownloadResolved(job_id, quality) => {
            lemma_job_position(app.downloads, job_id);
        },
        Message::DownloadProgress(job_id, received, total) => {
            lemma_job_position(app.downloads, job_id);
        },
        _ => {},
    }
}

/// Every step of the code of a login attempt leads from valid states to valid
/// ones.
pub proof fn law_codes_keep_validity(app: AppModel, request_id: u64, step: StepModel)
    requires
        app.valid(),
    ensures
        app.code_advanced(request_id, step).valid(),
{
}

/// Looking for logins to refresh, and the outcome of storing logins, lead from
/// valid states to valid ones.
pub proof fn law_upkeep_keeps_validity(
    app: AppModel,
    deadline: int,
    reason: SaveReason,
    result: Result<(), Seq<char>>,
)
    requires
        app.valid(),
    ensures
        app.refreshing(deadline).valid(),
        app.saved(reason, result).valid(),
{
}

/// Where a marked song stands, if it is marked.
pub proof fn lemma_mark_position(marked: Seq<Marked>, key: Seq<char>)
    ensures
        0 <= app_model::mark_position(marked, key) <= marked.len(),
        app_model::mark_position(marked, key) < marked.len() <==> app_model::has_mark(marked, key),
        app_model::mark_position(marked, key) < marked.len()
            ==> marked[app_model::mark_position(marked, key)].key() == key,
{
    model::lemma_first_where_bounds(marked, |m: Marked| m.key() == key);
}

/// Where a download stands is within the list, or at its end.
pub proof fn lemma_job_position(downloads: Seq<ItemModel>, job_id: u64)
    ensures
        0 <= app_model::job_position(downloads, job_id) <= downloads.len(),
        app_model::job_position(downloads, job_id) < downloads.len()
            ==> downloads[app_model::job_position(downloads, job_id)].job_id == job_id,
        forall|i: int|
            0 <= i < app_model::job_position(downloads, job_id) ==> (#[trigger] downloads[i]).job_id
                != job_id,
{
    model::lemma_first_where_bounds(downloads, |item: ItemModel| item.job_id == job_id);
}

/// Taking away a mark takes away just that one.
pub proof fn lemma_unmark(marked: Seq<Marked>, key: Seq<char>)
    requires
        marked_once(marked),
    ensures
        marked_once(app_model::unmark(marked, key)),
        forall|k: Seq<char>| #[trigger]
            app_model::has_mark(app_model::unmark(marked, key), k) <==> app_model::has_mark(
                marked,
                k,
            ) && k != key,
{
    lemma_mark_position(marked, key);
    let i = app_model::mark_position(marked, key);
    let after = app_model::unmark(marked, key);
    if i < marked.len() {
        assert forall|j: int| 0 <= j < after.len() implies #[trigger] after[j] == marked[if j < i {
            j
        } else {
            j + 1
        }] by {}
    }
    assert forall|k: Seq<char>| #[trigger]
        app_model::has_mark(after, k) <==> app_model::has_mark(marked, k) && k != key by {
        if app_model::has_mark(after, k) {
            let j = choose|j: int| 0 <= j < after.len() && (#[trigger] after[j]).key() == k;
            let o = if i < marked.len() && j >= i {
                j + 1
            } else {
                j
            };
            assert(after[j] == marked[o]);
            assert(marked[o].key() == k);
        }
        if app_model::has_mark(marked, k) && k != key {
            let o = choose|o: int| 0 <= o < marked.len() && (#[trigger] marked[o]).key() == k;
            let j = if i < marked.len() && o > i {
                o - 1
            } else {
                o
            };
            assert(after[j] == marked[o]);
        }
    }
}

/// Setting a mark sets just that one.
proof fn lemma_mark(marked: Seq<Marked>, song: Marked)
    requires
        marked_once(marked),
    ensures
        marked_once(app_model::mark(marked, song)),
        forall|k: Seq<char>| #[trigger]
            app_model::has_mark(app_model::mark(marked, song), k) <==> app_model::has_mark(
                marked,
                k,
            ) || k == song.key(),
{
    lemma_mark_position(marked, song.key());
    let i = app_model::mark_position(marked, song.key());
    let after = app_model::mark(marked, song);
    assert forall|k: Seq<char>| #[trigger]
        app_model::has_mark(after, k) <==> app_model::has_mark(marked, k) || k == song.key() by {
        if app_model::has_mark(after, k) {
            let j = choose|j: int| 0 <= j < after.len() && (#[trigger] after[j]).key() == k;
            if j != i {
                assert(marked[j].key() == k);
            }
        }
        if app_model::has_mark(marked, k) {
            let o = choose|o: int| 0 <= o < marked.len() && (#[trigger] marked[o]).key() == k;
            assert(after[o].key() == k);
        }
        if k == song.key() {
            assert(after[i].key() == k);
        }
    }
}

/// Taking away or setting a mark keeps all other entries as they are.
pub proof fn lemma_other_marks(marked: Seq<Marked>, song: Marked, other: Marked)
    requires
        other.key() != song.key(),
    ensures
        app_model::unmark(marked, song.key()).contains(other) == marked.contains(other),
        app_model::mark(marked, song).contains(other) == marked.contains(other),
{
    lemma_mark_position(marked, song.key());
    let i = app_model::mark_position(marked, song.key());
    let fewer = app_model::unmark(marked, song.key());
    let more = app_model::mark(marked, song);
    if marked.contains(other) {
        let o = choose|o: int| 0 <= o < marked.len() && marked[o] == other;
        let j = if i < marked.len() && o > i {
            o - 1
        } else {
            o
        };
        assert(fewer[j] == other);
        assert(more[o] == other);
    }
    if fewer.contains(other) {
        let j = choose|j: int| 0 <= j < fewer.len() && fewer[j] == other;
        let o = if i < marked.len() && j >= i {
            j + 1
        } else {
            j
        };
        assert(marked[o] == other);
    }
    if more.contains(other) {
        let j = choose|j: int| 0 <= j < more.len() && more[j] == other;
        assert(j != i);
        assert(marked[j] == other);
    }
}

/// Taking away or setting the marks of some songs keeps all other entries as
/// they are.
pub proof fn lemma_other_marks_of_all(
    marked: Seq<Marked>,
    platform: Platform,
    songs: Seq<SongModel>,
    other: Marked,
)
    requires
        !among(platform, songs, other.key()),
    ensures
        app_model::unmark_all(marked, platform, songs).contains(other) == marked.contains(other),
        app_model::mark_all(marked, platform, songs).contains(other) == marked.contains(other),
    decreases songs.len(),
{
    if songs.len() > 0 {
        let rest = songs.drop_last();
        let last = Marked { platform, song: songs.last() };
        lemma_among_last(platform, songs, other.key());
        lemma_other_marks_of_all(marked, platform, rest, other);
        lemma_other_marks(app_model::unmark_all(marked, platform, rest), last, other);
        lemma_other_marks(app_model::mark_all(marked, platform, rest), last, other);
    }
}

/// Whether one of some songs has the given key.
pub open spec fn among(platform: Platform, songs: Seq<SongModel>, key: Seq<char>) -> bool {
    exists|i: int| 0 <= i < songs.len() && music::key_of(platform, (#[trigger] songs[i]).id) == key
}

/// Whether a song has the given key, seen from the end of the list.
proof fn lemma_among_last(platform: Platform, songs: Seq<SongModel>, key: Seq<char>)
    requires
        songs.len() > 0,
    ensures
        among(platform, songs, key) <==> among(platform, songs.drop_last(), key) || key
            == music::key_of(platform, songs.last().id),
{
    let rest = songs.drop_last();
    if among(platform, songs, key) {
        let i = choose|i: int|
            0 <= i < songs.len() && music::key_of(platform, (#[trigger] songs[i]).id) == key;
        if i < rest.len() {
            assert(rest[i] == songs[i]);
        }
    }
    if among(platform, rest, key) {
        let i = choose|i: int|
            0 <= i < rest.len() && music::key_of(platform, (#[trigger] rest[i]).id) == key;
        assert(songs[i] == rest[i]);
    }
    assert(songs[songs.len() - 1] == songs.last());
}

/// Setting the marks of some songs sets just those.
pub proof fn lemma_mark_all(marked: Seq<Marked>, platform: Platform, songs: Seq<SongModel>)
    requires
        marked_once(marked),
    ensures
        marked_once(app_model::mark_all(marked, platform, songs)),
        forall|k: Seq<char>| #[trigger]
            app_model::has_mark(app_model::mark_all(marked, platform, songs), k) <==> (
            app_model::has_mark(marked, k) || among(platform, songs, k)),
    decreases songs.len(),
{
    if songs.len() > 0 {
        let before = app_model::mark_all(marked, platform, songs.drop_last());
        lemma_mark_all(marked, platform, songs.drop_last());
        lemma_mark(before, Marked { platform, song: songs.last() });
        assert forall|k: Seq<char>| #[trigger]
            app_model::has_mark(app_model::mark_all(marked, platform, songs), k) <==> (
            app_model::has_mark(marked, k) || among(platform, songs, k)) by {
            lemma_among_last(platform, songs, k);
            assert(app_model::has_mark(before, k) <==> (app_model::has_mark(marked, k) || among(
                platform,
                songs.drop_last(),
                k,
            )));
        }
    }
}

/// Taking away the marks of some songs takes away just those.
pub proof fn lemma_unmark_all(marked: Seq<Marked>, platform: Platform, songs: Seq<SongModel>)
    requires
        marked_once(marked),
    ensures
        marked_once(app_model::unmark_all(marked, platform, songs)),
        forall|k: Seq<char>| #[trigger]
            app_model::has_mark(app_model::unmark_all(marked, platform, songs), k) <==> (
            app_model::has_mark(marked, k) && !among(platform, songs, k)),
    decreases songs.len(),
{
    if songs.len() > 0 {
        let before = app_model::unmark_all(marked, platform, songs.drop_last());
        lemma_unmark_all(marked, platform, songs.drop_last());
        lemma_unmark(before, music::key_of(platform, songs.last().id));
        assert forall|k: Seq<char>| #[trigger]
            app_model::has_mark(app_model::unmark_all(marked, platform, songs), k) <==> (
            app_model::has_mark(marked, k) && !among(platform, songs, k)) by {
            lemma_among_last(platform, songs, k);
            assert(app_model::has_mark(before, k) <==> (app_model::has_mark(marked, k) && !among(
                platform,
                songs.drop_last(),
                k,
            )));
        }
    }
}

/// New candidates differ from each other and from the downloads, and all
/// candidates are among either.
pub proof fn lemma_fresh(downloads: Seq<ItemModel>, candidates: Seq<Marked>)
    ensures
        app_model::fresh(downloads, candidates).len() <= candidates.len(),
        marked_once(app_model::fresh(downloads, candidates)),
        forall|i: int|
            0 <= i < app_model::fresh(downloads, candidates).len() ==> !app_model::has_download(
                downloads,
                (#[trigger] app_model::fresh(downloads, candidates)[i]).key(),
            ),
        forall|i: int|
            0 <= i < candidates.len() ==> app_model::has_download(
                downloads,
                (#[trigger] candidates[i]).key(),
            ) || app_model::has_mark(app_model::fresh(downloads, candidates), candidates[i].key()),
    decreases candidates.len(),
{
    if candidates.len() > 0 {
        let rest = candidates.drop_last();
        let before = app_model::fresh(downloads, rest);
        let after = app_model::fresh(downloads, candidates);
        let last = candidates.last();
        lemma_fresh(downloads, rest);
        assert forall|i: int, j: int| 0 <= i < j < after.len() implies (
        #[trigger] after[i]).key() != (#[trigger] after[j]).key() by {
            if j == before.len() {
                assert(before[i] == after[i]);
            } else {
                assert(before[i] == after[i] && before[j] == after[j]);
            }
        }
        assert forall|i: int| 0 <= i < after.len() implies !app_model::has_download(
            downloads,
            (#[trigger] after[i]).key(),
        ) by {
            if i < before.len() {
                assert(after[i] == before[i]);
            }
        }
        assert forall|i: int| 0 <= i < candidates.len() implies app_model::has_download(
            downloads,
            (#[trigger] candidates[i]).key(),
        ) || app_model::has_mark(after, candidates[i].key()) by {
            let key = candidates[i].key();
            if i < rest.len() {
                assert(rest[i] == candidates[i]);
                if app_model::has_mark(before, key) {
                    let j = choose|j: int|
                        0 <= j < before.len() && (#[trigger] before[j]).key() == key;
                    assert(after[j] == before[j]);
                }
            } else if !app_model::has_download(downloads, key) && !app_model::has_mark(
                before,
                key,
            ) {
                assert(after[before.len() as int].key() == key);
            }
        }
    }
}

/// Starting a search keeps the state valid.
proof fn lemma_searched(app: AppModel)
    ensures
        app.valid() ==> app.searched().valid(),
{
}

/// Toggling a mark keeps the state valid.
proof fn lemma_mark_toggled(app: AppModel)
    requires
        app.valid(),
    ensures
        app.mark_toggled().valid(),
{
    if let Some(song) = app.current() {
        lemma_mark_position(app.marked, song.key());
        lemma_unmark(app.marked, song.key());
        assert(marked_once(app.mark_toggled().marked));
    }
}

/// Toggling the marks of a page keeps the state valid.
proof fn lemma_page_toggled(app: AppModel)
    requires
        app.valid(),
    ensures
        app.page_toggled().valid(),
{
    lemma_mark_all(app.marked, app.platform, app.results);
    lemma_unmark_all(app.marked, app.platform, app.results);
    assert(marked_once(app.page_toggled().marked));
}

/// Clearing the list of downloads keeps the state valid.
proof fn lemma_cleared(app: AppModel)
    requires
        app.valid(),
    ensures
        app.cleared().valid(),
{
    let kept = app_model::unfinished(app.downloads);
    lemma_unfinished(app.downloads);
    assert forall|i: int| 0 <= i < kept.len() implies (#[trigger] kept[i]).job_id
        < app.next_job_id && kept[i].key == music::key_of(kept[i].platform, kept[i].song.id) by {
        let j = choose|j: int| 0 <= j < app.downloads.len() && app.downloads[j] == kept[i];
        assert(app.downloads[j].job_id < app.next_job_id);
    }
}

/// Queueing downloads keeps the state valid.
pub proof fn lemma_queue(app: AppModel)
    requires
        app.valid(),
        app.can_queue(),
    ensures
        app.queued().valid(),
{
    let new = app.fresh_candidates();
    lemma_fresh(app.downloads, app.candidates());
    if app.candidates().len() > 0 && new.len() > 0 {
        let items = app_model::new_items(app.next_job_id, new, app.quality);
        let all = app.downloads + items;
        let n = app.downloads.len() as int;
        assert forall|i: int, j: int| 0 <= i < j < all.len() implies (#[trigger] all[i]).key != (
        #[trigger] all[j]).key && all[i].job_id != all[j].job_id by {
            if j < n {
                assert(all[i] == app.downloads[i] && all[j] == app.downloads[j]);
            } else if i < n {
                assert(all[i] == app.downloads[i]);
                assert(all[j].key == new[j - n].key());
                assert(!app_model::has_download(app.downloads, new[j - n].key()));
            } else {
                assert(all[i].key == new[i - n].key() && all[j].key == new[j - n].key());
            }
        }
        assert forall|i: int| 0 <= i < all.len() implies (#[trigger] all[i]).job_id
            < app.next_job_id + new.len() && all[i].key == music::key_of(
            all[i].platform,
            all[i].song.id,
        ) by {
            if i < n {
                assert(all[i] == app.downloads[i]);
            }
        }
    }
}

/// The downloads that have not come to their end are all of those, and none
/// but those, in the order of the list.
pub proof fn lemma_unfinished(downloads: Seq<ItemModel>)
    ensures
        app_model::unfinished(downloads).len() <= downloads.len(),
        forall|i: int|
            0 <= i < app_model::unfinished(downloads).len() ==> {
                &&& !(#[trigger] app_model::unfinished(downloads)[i]).state.finished()
                &&& downloads.contains(app_model::unfinished(downloads)[i])
            },
        forall|i: int|
            0 <= i < downloads.len() && !(#[trigger] downloads[i]).state.finished()
                ==> app_model::unfinished(downloads).contains(downloads[i]),
        downloaded_once(downloads) ==> downloaded_once(app_model::unfinished(downloads)),
    decreases downloads.len(),
{
    if downloads.len() > 0 {
        let rest = downloads.drop_last();
        let before = app_model::unfinished(rest);
        let after = app_model::unfinished(downloads);
        lemma_unfinished(rest);
        assert forall|i: int| 0 <= i < after.len() implies {
            &&& !(#[trigger] after[i]).state.finished()
            &&& downloads.contains(after[i])
        } by {
            if i < before.len() {
                assert(after[i] == before[i]);
                let j = choose|j: int| 0 <= j < rest.len() && rest[j] == before[i];
                assert(downloads[j] == after[i]);
            } else {
                assert(downloads[downloads.len() - 1] == after[i]);
            }
        }
        assert forall|i: int|
            0 <= i < downloads.len() && !(
            #[trigger] downloads[i]).state.finished() implies after.contains(downloads[i]) by {
            if i < rest.len() {
                assert(rest[i] == downloads[i]);
                let j = choose|j: int| 0 <= j < before.len() && before[j] == rest[i];
                assert(after[j] == downloads[i]);
            } else {
                assert(after[after.len() - 1] == downloads[i]);
            }
        }
        if downloaded_once(downloads) {
            assert(downloaded_once(rest)) by {
                assert forall|i: int, j: int| 0 <= i < j < rest.len() implies (
                #[trigger] rest[i]).key != (#[trigger] rest[j]).key && rest[i].job_id
                    != rest[j].job_id by {
                    assert(downloads[i] == rest[i] && downloads[j] == rest[j]);
                }
            }
            assert forall|i: int, j: int| 0 <= i < j < after.len() implies (
            #[trigger] after[i]).key != (#[trigger] after[j]).key && after[i].job_id
                != after[j].job_id by {
                if j < before.len() {
                    assert(after[i] == before[i] && after[j] == before[j]);
                } else {
                    assert(after[i] == before[i]);
                    let o = choose|o: int| 0 <= o < rest.len() && rest[o] == before[i];
                    assert(downloads[o] == after[i]);
                    assert(downloads[downloads.len() - 1] == after[j]);
                }
            }
        }
    }
}

/// Dropping a platform drops just that one.
pub proof fn lemma_without(platforms: Seq<Platform>, platform: Platform)
    ensures
        forall|p: Platform| #[trigger]
            app_model::without(platforms, platform).contains(p) <==> platforms.contains(p) && p
                != platform,
        listed_once(platforms) ==> listed_once(app_model::without(platforms, platform)),
    decreases platforms.len(),
{
    if platforms.len() > 0 {
        let rest = platforms.drop_last();
        let before = app_model::without(rest, platform);
        let after = app_model::without(platforms, platform);
        lemma_without(rest, platform);
        assert forall|p: Platform| #[trigger]
            after.contains(p) <==> platforms.contains(p) && p != platform by {
            if after.contains(p) {
                let i = choose|i: int| 0 <= i < after.len() && after[i] == p;
                if i < before.len() {
                    assert(before[i] == p);
                    assert(before.contains(p));
                    let j = choose|j: int| 0 <= j < rest.len() && rest[j] == p;
                    assert(platforms[j] == p);
                } else {
                    assert(platforms[platforms.len() - 1] == p);
                }
            }
            if platforms.contains(p) && p != platform {
                let j = choose|j: int| 0 <= j < platforms.len() && platforms[j] == p;
                if j < rest.len() {
                    assert(rest[j] == p);
                    assert(before.contains(p));
                    let i = choose|i: int| 0 <= i < before.len() && before[i] == p;
                    assert(after[i] == p);
                } else {
                    assert(after[after.len() - 1] == p);
                }
            }
        }
        if listed_once(platforms) {
            assert(listed_once(rest)) by {
                assert forall|i: int, j: int| 0 <= i < j < rest.len() implies #[trigger] rest[i]
                    != #[trigger] rest[j] by {
                    assert(platforms[i] == rest[i] && platforms[j] == rest[j]);
                }
            }
            assert forall|i: int, j: int| 0 <= i < j < after.len() implies #[trigger] after[i]
                != #[trigger] after[j] by {
                assert(after[i] == before[i]);
                if j < before.len() {
                    assert(after[j] == before[j]);
                } else {
                    assert(before.contains(after[i]));
                    let o = choose|o: int| 0 <= o < rest.len() && rest[o] == after[i];
                    assert(platforms[o] == after[i]);
                    assert(platforms[platforms.len() - 1] == after[j]);
                }
            }
        }
    }
}

} // verus!
