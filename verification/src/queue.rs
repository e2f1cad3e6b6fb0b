//! Marking songs, and the list of downloads.

use vstd::prelude::*;

use crate::app::{
    App, DownloadItem, DownloadRequest, DownloadState, MarkedSong, NoticeKind,
    MAX_CONCURRENT_DOWNLOADS,
};
use crate::app_laws;
use crate::app_model;
use crate::app_model::{ItemModel, Marked};
use crate::keys::Command;
use crate::model;
use crate::music;
use crate::music::{song_key, Song, SongQuality};
use crate::storage::unix_now;
use crate::text;

verus! {

/// Where the song with the given key stands among marked songs; their number
/// if it is not among them.
fn mark_index(marked: &Vec<MarkedSong>, key: &str) -> (r: usize)
    ensures
        r == app_model::mark_position(model::views(marked@), key@),
        r <= marked@.len(),
        r < marked@.len() <==> app_model::has_mark(model::views(marked@), key@),
{
    let ghost all = model::views(marked@);
    let ghost p = |m: Marked| m.key() == key@;
    let mut i: usize = 0;
    while i < marked.len()
        invariant
            all == model::views(marked@),
            p == (|m: Marked| m.key() == key@),
            i <= marked.len(),
            forall|j: int| 0 <= j < i ==> (#[trigger] all[j]).key() != key@,
        decreases marked.len() - i,
    {
        let other = song_key(marked[i].platform, marked[i].song.id.as_str());
        proof {
            assert(all[i as int] == marked@[i as int]@);
        }
        if text::same(other.as_str(), key) {
            proof {
                model::lemma_first_where(all, p, i as int);
            }
            return i;
        }
        i = i + 1;
    }
    proof {
        model::lemma_first_where(all, p, i as int);
    }
    i
}

/// Takes a song from the marked ones.
fn remove_mark(marked: &mut Vec<MarkedSong>, key: &str)
    ensures
        model::views(final(marked)@) == app_model::unmark(model::views(old(marked)@), key@),
{
    let i: usize = mark_index(marked, key);
    if i < marked.len() {
        marked.remove(i);
        proof {
            assert(model::views(marked@) =~= model::views(old(marked)@).remove(i as int));
        }
    }
}

/// Puts a song among the marked ones, in place of the one with the same key.
fn insert_mark(marked: &mut Vec<MarkedSong>, song: MarkedSong)
    ensures
        model::views(final(marked)@) == app_model::mark(model::views(old(marked)@), song@),
{
    let key = song_key(song.platform, song.song.id.as_str());
    let i: usize = mark_index(marked, key.as_str());
    let ghost view = song@;
    if i < marked.len() {
        marked.set(i, song);
        proof {
            assert(model::views(marked@) =~= model::views(old(marked)@).update(i as int, view));
        }
    } else {
        marked.push(song);
        proof {
            assert(model::views(marked@) =~= model::views(old(marked)@).push(view));
        }
    }
}

/// Whether the song with the given key is being downloaded, or was.
fn is_downloaded(downloads: &Vec<DownloadItem>, key: &str) -> (r: bool)
    ensures
        r == app_model::has_download(model::views(downloads@), key@),
{
    let ghost all = model::views(downloads@);
    let mut i: usize = 0;
    while i < downloads.len()
        invariant
            all == model::views(downloads@),
            i <= downloads.len(),
            forall|j: int| 0 <= j < i ==> (#[trigger] all[j]).key != key@,
        decreases downloads.len() - i,
    {
        proof {
            assert(all[i as int] == downloads@[i as int]@);
        }
        if text::same(downloads[i].key.as_str(), key) {
            return true;
        }
        i = i + 1;
    }
    false
}

/// The notice on how many songs are marked.
fn marked_notice(count: usize) -> (r: String)
    ensures
        r@ == app_model::marked_text(count as nat),
{
    "已选择 ".to_owned().concat(text::decimal_text(count as u64).as_str()).concat(" 首歌曲")
}

impl DownloadState {
    /// Whether a download has come to its end.
    pub fn is_finished(&self) -> (r: bool)
        ensures
            r == self@.finished(),
    {
        match self {
            DownloadState::Completed(_) => true,
            DownloadState::Failed(_) => true,
            _ => false,
        }
    }
}

impl App {
    /// Whether a song of the current platform is marked.
    pub fn is_marked(&self, song: &Song) -> (r: bool)
        ensures
            r == app_model::has_mark(
                self@.marked,
                music::key_of(self@.platform, song@.id),
            ),
    {
        let key = song_key(self.platform, song.id.as_str());
        mark_index(&self.marked, key.as_str()) < self.marked.len()
    }

    /// The song in the selected row.
    fn current_song(&self) -> (r: Option<MarkedSong>)
        ensures
            model::view_of(r) == self@.current(),
    {
        if self.selected_row < self.results.len() {
            Some(
                MarkedSong {
                    platform: self.platform,
                    song: self.results[self.selected_row].clone(),
                },
            )
        } else {
            None
        }
    }

    /// Sets the mark of the current song, or takes it away.
    pub fn toggle_mark(&mut self)
        ensures
            final(self)@ == old(self)@.mark_toggled().dated(final(self).notice.changed_at),
            old(self)@.valid() ==> final(self)@.valid(),
    {
        proof {
            if self@.valid() {
                app_laws::law_commands_keep_validity(self@, Command::Mark);
            }
        }
        let song = match self.current_song() {
            Some(song) => song,
            None => {
                self.set_notice(NoticeKind::Info, "当前没有可选择的歌曲");
                return;
            },
        };
        let key = song_key(song.platform, song.song.id.as_str());
        let i: usize = mark_index(&self.marked, key.as_str());
        let ghost view = song@;
        if i < self.marked.len() {
            remove_mark(&mut self.marked, key.as_str());
        } else {
            self.marked.push(song);
            proof {
                assert(model::views(self.marked@) =~= old(self)@.marked.push(view));
            }
        }
        let text = marked_notice(self.marked.len());
        self.set_notice(NoticeKind::Info, text.as_str());
    }

    /// Whether all songs on the page are marked.
    fn page_is_marked(&self) -> (r: bool)
        ensures
            r == app_model::all_marked(self@.marked, self@.platform, self@.results),
    {
        let mut i: usize = 0;
        while i < self.results.len()
            invariant
                i <= self.results.len(),
                forall|j: int|
                    0 <= j < i ==> app_model::has_mark(
                        self@.marked,
                        music::key_of(self@.platform, (#[trigger] self@.results[j]).id),
                    ),
            decreases self.results.len() - i,
        {
            proof {
                assert(self@.results[i as int] == self.results@[i as int]@);
            }
            if !self.is_marked(&self.results[i]) {
                return false;
            }
            i = i + 1;
        }
        true
    }

    /// Sets the marks of all songs on the page, or takes them away if all are
    /// set.
    pub fn toggle_mark_page(&mut self)
        ensures
            final(self)@ == old(self)@.page_toggled().dated(final(self).notice.changed_at),
            old(self)@.valid() ==> final(self)@.valid(),
    {
        proof {
            if self@.valid() {
                app_laws::law_commands_keep_validity(self@, Command::MarkPage);
            }
        }
        if self.results.len() == 0 {
            self.set_notice(NoticeKind::Info, "当前页没有歌曲");
            return;
        }
        let all = self.page_is_marked();
        let platform = self.platform;
        let ghost before = self@;
        let mut i: usize = 0;
        proof {
            assert(before.results.take(0) =~= seq![]);
        }
        while i < self.results.len()
            invariant
                i <= self.results.len(),
                platform == before.platform,
                self@ == (app_model::AppModel { marked: self@.marked, ..before }),
                self@.marked == if all {
                    app_model::unmark_all(before.marked, platform, before.results.take(i as int))
                } else {
                    app_model::mark_all(before.marked, platform, before.results.take(i as int))
                },
            decreases self.results.len() - i,
        {
            let song = self.results[i].clone();
            proof {
                let prefix = before.results.take(i + 1);
                assert(prefix.drop_last() =~= before.results.take(i as int));
                assert(prefix.last() == before.results[i as int]);
                assert(before.results[i as int] == self.results@[i as int]@);
            }
            if all {
                let key = song_key(platform, song.id.as_str());
                remove_mark(&mut self.marked, key.as_str());
            } else {
                insert_mark(&mut self.marked, MarkedSong { platform, song });
            }
            i = i + 1;
        }
        proof {
            assert(before.results.take(i as int) =~= before.results);
        }
        let text = marked_notice(self.marked.len());
        self.set_notice(NoticeKind::Info, text.as_str());
    }

    /// Queues the marked songs, or the current one if none is marked, for
    /// download, with the logins that can be used at the given time.
    pub fn queue_downloads_at(&mut self, now: i64) -> (r: Vec<DownloadRequest>)
        requires
            old(self)@.can_queue(),
        ensures
            final(self)@ == old(self)@.queued().dated(final(self).notice.changed_at),
            model::views(r@) == old(self)@.requests(now as int),
            old(self)@.valid() ==> final(self)@.valid(),
    {
        proof {
            if self@.valid() {
                app_laws::lemma_queue(self@);
            }
        }
        self.queue_candidates(now)
    }

    /// Queues the songs that a download would be of.
    fn queue_candidates(&mut self, now: i64) -> (r: Vec<DownloadRequest>)
        requires
            old(self)@.can_queue(),
        ensures
            final(self)@ == old(self)@.queued().dated(final(self).notice.changed_at),
            model::views(r@) == old(self)@.requests(now as int),
    {
        let ghost start = self@;
        let mut candidates: Vec<MarkedSong> = Vec::new();
        if self.marked.len() == 0 {
            if let Some(song) = self.current_song() {
                candidates.push(song);
            }
        } else {
            std::mem::swap(&mut self.marked, &mut candidates);
        }
        let ghost all = start.candidates();
        let mut requests: Vec<DownloadRequest> = Vec::new();
        proof {
            assert(model::views(candidates@) =~= all);
            assert(self@.marked =~= seq![]);
        }
        if candidates.len() == 0 {
            self.set_notice(NoticeKind::Warning, "请先搜索并选择要下载的歌曲");
            proof {
                assert(start.marked =~= seq![]);
                assert(model::views(requests@) =~= start.requests(now as int));
            }
            return requests;
        }
        let mut skipped: usize = 0;
        let mut i: usize = 0;
        proof {
            assert(all.take(0) =~= seq![]);
            assert(start.downloads + app_model::new_items(start.next_job_id, seq![], start.quality)
                =~= start.downloads);
        }
        while i < candidates.len()
            invariant
                model::views(candidates@) == all,
                all == start.candidates(),
                start.can_queue(),
                i <= candidates.len(),
                self@ == (app_model::AppModel {
                    marked: seq![],
                    downloads: start.downloads + app_model::new_items(
                        start.next_job_id,
                        app_model::fresh(start.downloads, all.take(i as int)),
                        start.quality,
                    ),
                    next_job_id: start.next_job_id + app_model::fresh(
                        start.downloads,
                        all.take(i as int),
                    ).len(),
                    ..start
                }),
                skipped + requests.len() == i,
                requests.len() == app_model::fresh(start.downloads, all.take(i as int)).len(),
                forall|j: int|
                    0 <= j < requests.len() ==> (#[trigger] requests@[j])@ == start.request(
                        start.next_job_id + j,
                        app_model::fresh(start.downloads, all.take(i as int))[j],
                        now as int,
                    ),
            decreases candidates.len() - i,
        {
            let selected = &candidates[i];
            let key = song_key(selected.platform, selected.song.id.as_str());
            let ghost new = app_model::fresh(start.downloads, all.take(i as int));
            let ghost items = self@.downloads;
            proof {
                let prefix = all.take(i + 1);
                assert(prefix.drop_last() =~= all.take(i as int));
                assert(prefix.last() == all[i as int]);
                assert(all[i as int] == selected@);
                lemma_known(start.downloads, start.next_job_id, new, start.quality, key@);
                lemma_fresh_grows(start.downloads, all, i + 1);
            }
            if is_downloaded(&self.downloads, key.as_str()) {
                skipped = skipped + 1;
            } else {
                let job_id: u64 = self.next_job_id;
                self.next_job_id = self.next_job_id + 1;
                let item = DownloadItem {
                    job_id,
                    key,
                    platform: selected.platform,
                    song: selected.song.clone(),
                    requested_quality: self.quality,
                    actual_quality: None,
                    received: 0,
                    total: None,
                    state: DownloadState::Queued,
                };
                let ghost item_view = item@;
                self.downloads.push(item);
                requests.push(
                    DownloadRequest {
                        job_id,
                        platform: selected.platform,
                        song: selected.song.clone(),
                        quality: self.quality,
                        token: self.cookies.token_for_at(selected.platform, now),
                        media_cookie: self.cookies.cookie_header_for_at(selected.platform, now),
                        directory: self.paths.download_dir.clone(),
                    },
                );
                proof {
                    let newer = new.push(all[i as int]);
                    assert(self@.downloads =~= items.push(item_view));
                    assert(start.downloads + app_model::new_items(
                        start.next_job_id,
                        newer,
                        start.quality,
                    ) =~= self@.downloads);
                }
            }
            i = i + 1;
        }
        proof {
            assert(all.take(i as int) =~= all);
            assert(model::views(requests@) =~= start.requests(now as int));
            assert(start.downloads + app_model::new_items(start.next_job_id, seq![], start.quality)
                =~= start.downloads);
        }
        if requests.len() == 0 {
            self.set_notice(NoticeKind::Info, "所选歌曲已在下载列表中");
        } else {
            let mut text = "已加入 ".to_owned().concat(
                text::decimal_text(requests.len() as u64).as_str(),
            ).concat(" 个下载任务(最多 ").concat(
                text::decimal_text(MAX_CONCURRENT_DOWNLOADS as u64).as_str(),
            ).concat(" 路并发)");
            let suffix = if skipped > 0 {
                ",跳过 ".to_owned().concat(text::decimal_text(skipped as u64).as_str()).concat(
                    " 首重复歌曲",
                )
            } else {
                String::new()
            };
            text.append(suffix.as_str());
            self.set_notice(NoticeKind::Success, text.as_str());
        }
        requests
    }

    /// Queues the marked songs, or the current one if none is marked, for
    /// download.
    pub fn queue_downloads(&mut self) -> (r: Vec<DownloadRequest>)
        requires
            old(self)@.can_queue(),
        ensures
            final(self)@ == old(self)@.queued().dated(final(self).notice.changed_at),
            exists|now: i64|
                now >= 0 && model::views(r@) == #[trigger] old(self)@.requests(now as int),
            old(self)@.valid() ==> final(self)@.valid(),
    {
        self.queue_downloads_at(unix_now())
    }

    /// Takes away the downloads that have come to their end.
    pub fn clear_finished_downloads(&mut self)
        ensures
            final(self)@ == old(self)@.cleared().dated(final(self).notice.changed_at),
            old(self)@.valid() ==> final(self)@.valid(),
    {
        proof {
            if self@.valid() {
                app_laws::law_commands_keep_validity(self@, Command::ClearFinished);
            }
        }
        let before: usize = self.downloads.len();
        let ghost all = self@.downloads;
        let ghost start = self@;
        let mut i: usize = 0;
        let mut seen: usize = 0;
        proof {
            assert(all.take(0) =~= seq![]);
            assert(all.take(0) =~= self@.downloads.take(0));
            assert(all.skip(0) =~= all);
            assert(self@.downloads.skip(0) =~= all);
        }
        while seen < before
            invariant
                i <= seen <= before == all.len(),
                all == start.downloads,
                self@ == (app_model::AppModel { downloads: self@.downloads, ..start }),
                self.downloads@.len() == i + before - seen,
                self@.downloads.skip(i as int) == all.skip(seen as int),
                self@.downloads.take(i as int) == app_model::unfinished(all.take(seen as int)),
            decreases before - seen,
        {
            let ghost items = self@.downloads;
            proof {
                let prefix = all.take(seen + 1);
                assert(prefix.drop_last() =~= all.take(seen as int));
                assert(prefix.last() == all.skip(seen as int)[0]);
                assert(items.skip(i as int)[0] == self.downloads@[i as int]@);
                assert(all.skip(seen as int).skip(1) =~= all.skip(seen + 1));
                assert(items.skip(i as int).skip(1) =~= items.skip(i + 1));
            }
            if self.downloads[i].state.is_finished() {
                self.downloads.remove(i);
                proof {
                    assert(self@.downloads =~= items.remove(i as int));
                    assert(self@.downloads.take(i as int) =~= items.take(i as int));
                    assert(self@.downloads.skip(i as int) =~= items.skip(i + 1));
                }
            } else {
                proof {
                    assert(items.take(i + 1) =~= items.take(i as int).push(items[i as int]));
                }
                i = i + 1;
            }
            seen = seen + 1;
        }
        proof {
            assert(all.take(seen as int) =~= all);
            assert(self@.downloads.take(i as int) =~= self@.downloads);
        }
        let removed: usize = before - self.downloads.len();
        let text = "已清理 ".to_owned().concat(text::decimal_text(removed as u64).as_str()).concat(
            " 条完成/失败记录",
        );
        self.set_notice(NoticeKind::Info, text.as_str());
    }

    /// Leaves the application, unless downloads are under way.
    pub fn request_quit(&mut self)
        ensures
            final(self)@ == old(self)@.quit_requested().dated(final(self).notice.changed_at),
    {
        let ghost all = self@.downloads;
        let mut active: usize = 0;
        let mut i: usize = 0;
        proof {
            assert(all.take(0) =~= seq![]);
        }
        while i < self.downloads.len()
            invariant
                all == self@.downloads,
                i <= self.downloads.len(),
                active <= i,
                active == app_model::unfinished(all.take(i as int)).len(),
            decreases self.downloads.len() - i,
        {
            proof {
                let prefix = all.take(i + 1);
                assert(prefix.drop_last() =~= all.take(i as int));
                assert(prefix.last() == self.downloads@[i as int]@);
            }
            if !self.downloads[i].state.is_finished() {
                active = active + 1;
            }
            i = i + 1;
        }
        proof {
            assert(all.take(i as int) =~= all);
        }
        if active > 0 {
            let text = "还有 ".to_owned().concat(
                text::decimal_text(active as u64).as_str(),
            ).concat(" 个下载任务未完成;请等待完成,或按 Ctrl+C 强制退出");
            self.set_notice(NoticeKind::Warning, text.as_str());
        } else {
            self.should_quit = true;
        }
    }
}

/// A song is among the downloads and the new ones exactly if it is among
/// either.
proof fn lemma_known(
    downloads: Seq<ItemModel>,
    first: int,
    new: Seq<Marked>,
    quality: SongQuality,
    key: Seq<char>,
)
    ensures
        app_model::has_download(downloads + app_model::new_items(first, new, quality), key) <==> (
        app_model::has_download(downloads, key) || app_model::has_mark(new, key)),
{
    let items = app_model::new_items(first, new, quality);
    let all = downloads + items;
    if app_model::has_download(all, key) {
        let i = choose|i: int| 0 <= i < all.len() && (#[trigger] all[i]).key == key;
        if i < downloads.len() {
            assert(downloads[i].key == key);
        } else {
            assert(new[i - downloads.len()].key() == key);
        }
    }
    if app_model::has_download(downloads, key) {
        let i = choose|i: int| 0 <= i < downloads.len() && (#[trigger] downloads[i]).key == key;
        assert(all[i].key == key);
    }
    if app_model::has_mark(new, key) {
        let i = choose|i: int| 0 <= i < new.len() && (#[trigger] new[i]).key() == key;
        assert(all[downloads.len() + i].key == key);
    }
}

/// More candidates do not make for fewer new ones.
proof fn lemma_fresh_grows(downloads: Seq<ItemModel>, candidates: Seq<Marked>, k: int)
    requires
        0 <= k <= candidates.len(),
    ensures
        app_model::fresh(downloads, candidates.take(k)).len() <= app_model::fresh(
            downloads,
            candidates,
        ).len(),
    decreases candidates.len() - k,
{
    if k == candidates.len() {
        assert(candidates.take(k) =~= candidates);
    } else {
        assert(candidates.take(k + 1).drop_last() =~= candidates.take(k));
        lemma_fresh_grows(downloads, candidates, k + 1);
    }
}

} // verus!
