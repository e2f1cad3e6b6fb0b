//! What marking and downloading is for.

use vstd::prelude::*;

use crate::account_laws;
use crate::app::NoticeKind;
use crate::app_laws;
use crate::app_model;
use crate::app_model::{AppModel, ItemModel, Marked, Message, StateModel};
use crate::music::{Platform, SongModel, SongQuality};
use crate::text;

verus! {

/// The key of a song, spelled out.
pub open spec fn spelled(platform: Platform, id: Seq<char>) -> Seq<char> {
    match platform {
        Platform::Netease => seq!['N', ':'] + id,
        Platform::Tencent => seq!['Q', ':'] + id,
    }
}

/// Keys are spelled out from the platform and the number of a song.
pub proof fn law_keys_are_spelled_out(song: Marked)
    ensures
        song.key() == spelled(song.platform, song.song.id),
{
}

/// Each request is for its own song: on the platform that the song was marked
/// on, with the login and the cookie of that platform, in the quality that is
/// selected, and under the number of the download that is queued with it.
pub proof fn law_requests_are_for_their_songs(app: AppModel, now: int, i: int)
    requires
        app.can_queue(),
        0 <= app.next_job_id,
        0 <= i < app.fresh_candidates().len(),
    ensures
        ({
            let song = app.fresh_candidates()[i];
            let request = app.requests(now)[i];
            let item = app.queued().downloads[app.downloads.len() + i];
            &&& app.requests(now).len() == app.fresh_candidates().len()
            &&& app.queued().downloads.len() == app.downloads.len() + app.fresh_candidates().len()
            &&& request.platform == song.platform
            &&& request.song == song.song
            &&& request.quality == app.quality
            &&& request.directory == app.paths.download_dir
            &&& request.job_id == app.next_job_id + i
            &&& match app.cookies.stored(song.platform) {
                Some(login) => if account_laws::in_force(login, now) {
                    request.login == Some(login) && request.media_cookie == Some(login.cookie())
                } else {
                    request.login is None && request.media_cookie is None
                },
                None => request.login is None && request.media_cookie is None,
            }
            &&& item == (ItemModel {
                job_id: request.job_id,
                key: spelled(song.platform, song.song.id),
                platform: request.platform,
                song: request.song,
                requested_quality: request.quality,
                actual_quality: None,
                received: 0,
                total: None,
                state: StateModel::Queued,
            })
        }),
{
    app_laws::lemma_fresh(app.downloads, app.candidates());
}

/// What is downloaded are the marked songs, in the order in which they were
/// marked, or the current one if none is marked.
pub proof fn law_marked_songs_are_downloaded(app: AppModel)
    ensures
        app.marked.len() > 0 ==> app.candidates() == app.marked,
        app.marked.len() == 0 && 0 <= app.selected_row < app.results.len() ==> app.candidates()
            == seq![Marked { platform: app.platform, song: app.results[app.selected_row] }],
        app.marked.len() == 0 && !(0 <= app.selected_row < app.results.len())
            ==> app.candidates().len() == 0,
{
}

/// Whether a song is not among the downloads.
pub open spec fn not_downloaded(downloads: Seq<ItemModel>) -> spec_fn(Marked) -> bool {
    |song: Marked|
        forall|i: int|
            0 <= i < downloads.len() ==> (#[trigger] downloads[i]).key != spelled(
                song.platform,
                song.song.id,
            )
}

/// All songs that are not among the downloads yet are queued, in their order,
/// and no others.
pub proof fn law_new_songs_are_queued(downloads: Seq<ItemModel>, candidates: Seq<Marked>)
    requires
        app_laws::marked_once(candidates),
    ensures
        app_model::fresh(downloads, candidates) == candidates.filter(not_downloaded(downloads)),
    decreases candidates.len(),
{
    reveal(Seq::filter);
    if candidates.len() > 0 {
        let rest = candidates.drop_last();
        let last = candidates.last();
        assert forall|i: int, j: int| 0 <= i < j < rest.len() implies (#[trigger] rest[i]).key()
            != (#[trigger] rest[j]).key() by {
            assert(rest[i] == candidates[i] && rest[j] == candidates[j]);
        }
        law_new_songs_are_queued(downloads, rest);
        let before = app_model::fresh(downloads, rest);
        lemma_fresh_from(downloads, rest);
        assert(!app_model::has_mark(before, last.key())) by {
            if app_model::has_mark(before, last.key()) {
                let i = choose|i: int|
                    0 <= i < before.len() && (#[trigger] before[i]).key() == last.key();
                let j = choose|j: int| 0 <= j < rest.len() && rest[j] == before[i];
                assert(candidates[j] == rest[j]);
                assert(candidates[candidates.len() - 1] == last);
            }
        }
    }
}

/// What is queued was among the candidates.
proof fn lemma_fresh_from(downloads: Seq<ItemModel>, candidates: Seq<Marked>)
    ensures
        forall|i: int|
            0 <= i < app_model::fresh(downloads, candidates).len() ==> candidates.contains(
                #[trigger] app_model::fresh(downloads, candidates)[i],
            ),
    decreases candidates.len(),
{
    if candidates.len() > 0 {
        let rest = candidates.drop_last();
        lemma_fresh_from(downloads, rest);
        let before = app_model::fresh(downloads, rest);
        let after = app_model::fresh(downloads, candidates);
        assert forall|i: int| 0 <= i < after.len() implies candidates.contains(
            #[trigger] after[i],
        ) by {
            if i < before.len() {
                assert(after[i] == before[i]);
                let j = choose|j: int| 0 <= j < rest.len() && rest[j] == before[i];
                assert(candidates[j] == after[i]);
            } else {
                assert(candidates[candidates.len() - 1] == after[i]);
            }
        }
    }
}

/// Queueing takes all marks away and numbers the new downloads on; downloads
/// that are there, and all else, stay. What was queued or skipped is said.
pub proof fn law_queueing_changes_only_the_queue(app: AppModel)
    requires
        app.can_queue(),
    ensures
        ({
            let after = app.queued();
            let new = app.fresh_candidates().len();
            let all = app.candidates().len();
            &&& after == (AppModel {
                marked: after.marked,
                downloads: after.downloads,
                next_job_id: app.next_job_id + new,
                notice: after.notice,
                ..app
            })
            &&& after.marked.len() == 0
            &&& after.downloads.take(app.downloads.len() as int) == app.downloads
            &&& all == 0 ==> {
                &&& after.downloads == app.downloads
                &&& after.notice.kind == NoticeKind::Warning
                &&& after.notice.text == "请先搜索并选择要下载的歌曲"@
            }
            &&& all > 0 && new == 0 ==> {
                &&& after.downloads == app.downloads
                &&& after.notice.kind == NoticeKind::Info
                &&& after.notice.text == "所选歌曲已在下载列表中"@
            }
            &&& new > 0 ==> after.notice.kind == NoticeKind::Success
            &&& new > 0 && new == all ==> after.notice.text == "已加入 "@ + text::decimal(new)
                + " 个下载任务(最多 "@ + text::decimal(3) + " 路并发)"@
            &&& 0 < new < all ==> after.notice.text == "已加入 "@ + text::decimal(new)
                + " 个下载任务(最多 "@ + text::decimal(3) + " 路并发)"@ + (",跳过 "@ + text::decimal(
                (all - new) as nat,
            ) + " 首重复歌曲"@)
        }),
{
    app_laws::lemma_fresh(app.downloads, app.candidates());
    let after = app.queued();
    assert(after.downloads.take(app.downloads.len() as int) =~= app.downloads);
    if app.candidates().len() == 0 {
        assert(app.marked =~= seq![]);
    }
    let text = "已加入 "@ + text::decimal(app.fresh_candidates().len()) + " 个下载任务(最多 "@
        + text::decimal(3) + " 路并发)"@;
    assert(text + Seq::<char>::empty() =~= text);
}

/// The current song is marked as it is, behind the others, or loses its mark;
/// nothing else changes but what is said.
pub proof fn law_marks_hold_the_song(app: AppModel)
    requires
        app.valid(),
        app.results.len() > 0,
    ensures
        ({
            let song = Marked { platform: app.platform, song: app.results[app.selected_row] };
            let key = spelled(app.platform, app.results[app.selected_row].id);
            let after = app.mark_toggled();
            let was_marked = exists|i: int|
                0 <= i < app.marked.len() && (#[trigger] app.marked[i]).key() == key;
            &&& !was_marked ==> after.marked == app.marked.push(song)
            &&& was_marked ==> {
                &&& after.marked.len() == app.marked.len() - 1
                &&& forall|i: int| 0 <= i < after.marked.len() ==> (#[trigger] after.marked[i]).key() != key
                &&& forall|m: Marked| m.key() != key ==> #[trigger] after.marked.contains(m)
                    == app.marked.contains(m)
            }
            &&& after == (AppModel { marked: after.marked, notice: after.notice, ..app })
            &&& after.notice.kind == NoticeKind::Info
            &&& after.notice.text == "已选择 "@ + text::decimal(after.marked.len())
                + " 首歌曲"@
        }),
{
    let song = Marked { platform: app.platform, song: app.results[app.selected_row] };
    app_laws::lemma_mark_position(app.marked, song.key());
    app_laws::lemma_unmark(app.marked, song.key());
    let after = app.mark_toggled();
    if app_model::has_mark(app.marked, song.key()) {
        assert forall|m: Marked| m.key() != song.key() implies #[trigger] after.marked.contains(m)
            == app.marked.contains(m) by {
            app_laws::lemma_other_marks(app.marked, song, m);
        }
        assert forall|i: int| 0 <= i < after.marked.len() implies (
        #[trigger] after.marked[i]).key() != song.key() by {
            assert(app_model::has_mark(after.marked, after.marked[i].key()));
        }
    }
}

/// Without a song in the selected row nothing is marked.
pub proof fn law_nothing_is_marked_without_a_song(app: AppModel)
    requires
        !(0 <= app.selected_row < app.results.len()),
    ensures
        app.mark_toggled() == (AppModel { notice: app.mark_toggled().notice, ..app }),
        app.mark_toggled().notice.text == "当前没有可选择的歌曲"@,
{
}

/// If some song of the page was not marked, every song of the page is marked
/// afterwards, as it stands on the page.
pub proof fn law_page_marks_hold_the_songs(app: AppModel, i: int)
    requires
        app.valid(),
        0 <= i < app.results.len(),
        forall|j: int|
            i < j < app.results.len() ==> (#[trigger] app.results[j]).id != app.results[i].id,
        exists|j: int|
            #![trigger app.results[j]]
            0 <= j < app.results.len() && !app_model::has_mark(
                app.marked,
                spelled(app.platform, app.results[j].id),
            ),
    ensures
        app.page_toggled().marked.contains(
            Marked { platform: app.platform, song: app.results[i] },
        ),
{
    let j = choose|j: int|
        #![trigger app.results[j]]
        0 <= j < app.results.len() && !app_model::has_mark(
            app.marked,
            spelled(app.platform, app.results[j].id),
        );
    assert(!app_model::all_marked(app.marked, app.platform, app.results)) by {
        assert(!app_model::has_mark(
            app.marked,
            crate::music::key_of(app.platform, app.results[j].id),
        ));
    }
    lemma_marked_last(app.marked, app.platform, app.results, i);
}

/// Of songs with the same number the last one is marked.
proof fn lemma_marked_last(
    marked: Seq<Marked>,
    platform: Platform,
    songs: Seq<SongModel>,
    i: int,
)
    requires
        0 <= i < songs.len(),
        forall|j: int| i < j < songs.len() ==> (#[trigger] songs[j]).id != songs[i].id,
    ensures
        app_model::mark_all(marked, platform, songs).contains(Marked { platform, song: songs[i] }),
    decreases songs.len(),
{
    let rest = songs.drop_last();
    let before = app_model::mark_all(marked, platform, rest);
    let last = Marked { platform, song: songs.last() };
    let mine = Marked { platform, song: songs[i] };
    app_laws::lemma_mark_position(before, last.key());
    if i < songs.len() - 1 {
        assert forall|j: int| i < j < rest.len() implies (#[trigger] rest[j]).id
            != rest[i].id by {
            assert(rest[j] == songs[j]);
        }
        lemma_marked_last(marked, platform, rest, i);
        assert(songs[songs.len() - 1].id != songs[i].id);
        crate::music::law_keys_tell_songs_apart(
            platform,
            songs.last().id,
            platform,
            songs[i].id,
        );
        app_laws::lemma_other_marks(before, last, mine);
    } else {
        let p = app_model::mark_position(before, last.key());
        assert(app_model::mark(before, last)[p] == last);
    }
}

/// Toggling the marks of a page changes nothing but marks and what is said.
pub proof fn law_page_marks_change_only_marks(app: AppModel)
    ensures
        ({
            let after = app.page_toggled();
            &&& after == (AppModel { marked: after.marked, notice: after.notice, ..app })
            &&& app.results.len() == 0 ==> after.marked == app.marked && after.notice.text
                == "当前页没有歌曲"@
            &&& app.results.len() > 0 ==> after.notice.text == "已选择 "@ + text::decimal(
                after.marked.len(),
            ) + " 首歌曲"@
        }),
{
}

/// Whether a download has not come to its end.
pub open spec fn active() -> spec_fn(ItemModel) -> bool {
    |item: ItemModel| !(item.state is Completed) && !(item.state is Failed)
}

/// Clearing the list keeps the downloads that have not come to their end, in
/// their order, and says how many are gone.
pub proof fn law_clearing_removes_the_finished(app: AppModel)
    ensures
        ({
            let after = app.cleared();
            &&& after.downloads == app.downloads.filter(active())
            &&& after == (AppModel { downloads: after.downloads, notice: after.notice, ..app })
            &&& after.notice.kind == NoticeKind::Info
            &&& after.notice.text == "已清理 "@ + text::decimal(
                (app.downloads.len() - after.downloads.len()) as nat,
            ) + " 条完成/失败记录"@
        }),
{
    lemma_unfinished_are_active(app.downloads);
}

/// The downloads that have not come to their end are the active ones.
proof fn lemma_unfinished_are_active(downloads: Seq<ItemModel>)
    ensures
        app_model::unfinished(downloads) == downloads.filter(active()),
    decreases downloads.len(),
{
    reveal(Seq::filter);
    if downloads.len() > 0 {
        lemma_unfinished_are_active(downloads.drop_last());
    }
}

/// A request to leave is refused, with the number of downloads under way, or
/// followed; nothing else changes.
pub proof fn law_leaving_counts_the_active(app: AppModel)
    ensures
        ({
            let after = app.quit_requested();
            let count = app.downloads.filter(active()).len();
            &&& count == 0 ==> after == (AppModel { should_quit: true, ..app })
            &&& count > 0 ==> {
                &&& after == (AppModel { notice: after.notice, ..app })
                &&& after.notice.kind == NoticeKind::Warning
                &&& after.notice.text == "还有 "@ + text::decimal(count)
                    + " 个下载任务未完成;请等待完成,或按 Ctrl+C 强制退出"@
            }
        }),
{
    lemma_unfinished_are_active(app.downloads);
}

/// A message moves its download just as it says, and leaves all else of it as
/// it was; how a download ended, and a quality that was not asked for, is said.
pub proof fn law_messages_move_their_download(app: AppModel, i: int, state: StateModel)
    requires
        app.valid(),
        0 <= i < app.downloads.len(),
    ensures
        ({
            let item = app.downloads[i];
            let after = app.received(Message::DownloadStage(item.job_id, state));
            &&& after.downloads == app.downloads.update(i, ItemModel { state, ..item })
            &&& after == (AppModel { downloads: after.downloads, notice: after.notice, ..app })
            &&& !(state is Completed) && !(state is Failed) ==> after.notice == app.notice
            &&& state matches StateModel::Completed(path, _) ==> after.notice.kind
                == NoticeKind::Success && after.notice.text == "<"@ + item.song.name
                + "> 下载完成:"@ + path
            &&& state matches StateModel::Failed(error) ==> after.notice.kind == NoticeKind::Error
                && after.notice.text == "<"@ + item.song.name + "> 下载失败:"@ + error
        }),
{
    app_laws::lemma_job_position(app.downloads, app.downloads[i].job_id);
}

/// The quality that the platform gave is recorded, and said if it is another
/// than was asked for.
pub proof fn law_other_qualities_are_reported(app: AppModel, i: int, quality: SongQuality)
    requires
        app.valid(),
        0 <= i < app.downloads.len(),
    ensures
        ({
            let item = app.downloads[i];
            let after = app.received(Message::DownloadResolved(item.job_id, quality));
            &&& after.downloads == app.downloads.update(
                i,
                ItemModel { actual_quality: Some(quality), ..item },
            )
            &&& after == (AppModel { downloads: after.downloads, notice: after.notice, ..app })
            &&& quality == item.requested_quality ==> after.notice == app.notice
            &&& quality != item.requested_quality ==> after.notice.kind == NoticeKind::Warning
                && after.notice.text == "<"@ + item.song.name + "> 请求音质为 "@
                + item.requested_quality.label() + ",平台实际返回 "@ + quality.label()
        }),
{
    app_laws::lemma_job_position(app.downloads, app.downloads[i].job_id);
}

/// Progress is recorded just as it is reported.
pub proof fn law_progress_is_recorded(app: AppModel, i: int, received: u64, total: Option<u64>)
    requires
        app.valid(),
        0 <= i < app.downloads.len(),
    ensures
        ({
            let item = app.downloads[i];
            app.received(Message::DownloadProgress(item.job_id, received, total)) == (AppModel {
                downloads: app.downloads.update(
                    i,
                    ItemModel { received, total, state: StateModel::Downloading, ..item },
                ),
                ..app
            })
        }),
{
    app_laws::lemma_job_position(app.downloads, app.downloads[i].job_id);
}

/// Messages about a download that is not in the list change nothing.
pub proof fn law_unknown_downloads_are_ignored(
    app: AppModel,
    job_id: u64,
    state: StateModel,
    quality: SongQuality,
    received: u64,
    total: Option<u64>,
)
    requires
        forall|i: int| 0 <= i < app.downloads.len() ==> (#[trigger] app.downloads[i]).job_id
            != job_id,
    ensures
        app.received(Message::DownloadStage(job_id, state)) == app,
        app.received(Message::DownloadResolved(job_id, quality)) == app,
        app.received(Message::DownloadProgress(job_id, received, total)) == app,
{
    app_laws::lemma_job_position(app.downloads, job_id);
}

} // verus!
