//! The application's state as mathematics: what it holds, and what each
//! operation makes of it.

use std::time::Instant;
use vstd::prelude::*;

use crate::app::{
    InputMode, LoginPhase, NoticeKind, SaveReason, MAX_CONCURRENT_DOWNLOADS, PAGE_SIZE,
};
use crate::model;
use crate::music;
use crate::music::{Login, Platform, SongModel, SongQuality};
use crate::qr;
use crate::qr::{QrFailure, ReadingModel, StepModel};
use crate::storage;
use crate::storage::{CookieFile, Cookies, Paths};
use crate::text;

verus! {

/// What the last operation has to say, and since when: `None` stands for the
/// moment at which the operation puts it up.
pub struct NoticeModel {
    pub kind: NoticeKind,
    pub text: Seq<char>,
    pub changed_at: Option<Instant>,
}

/// What is shown while a login is under way.
pub struct OverlayModel {
    pub request_id: u64,
    pub phase: LoginPhase,
    pub qr_lines: Seq<Seq<char>>,
    pub detail: Seq<char>,
}

/// A song that was marked for download.
pub struct Marked {
    pub platform: Platform,
    pub song: SongModel,
}

/// How far a download has come.
pub enum StateModel {
    Queued,
    Resolving,
    Downloading,
    Completed(Seq<char>, Option<Seq<char>>),
    Failed(Seq<char>),
}

/// A download.
pub struct ItemModel {
    pub job_id: u64,
    pub key: Seq<char>,
    pub platform: Platform,
    pub song: SongModel,
    pub requested_quality: SongQuality,
    pub actual_quality: Option<SongQuality>,
    pub received: u64,
    pub total: Option<u64>,
    pub state: StateModel,
}

/// News from work that was done in the background.
pub enum Message {
    SearchFinished(u64, Result<(Seq<SongModel>, bool), Seq<char>>),
    LoginQr(u64, Seq<char>),
    LoginPhase(u64, LoginPhase, Seq<char>),
    LoginSuccess(u64, Login),
    CookieRefreshFinished(Platform, u64, Result<Login, Seq<char>>),
    DownloadStage(u64, StateModel),
    DownloadResolved(u64, SongQuality),
    DownloadProgress(u64, u64, Option<u64>),
}

/// A file that is to be read for the code of a login attempt.
pub struct CodeModel {
    pub request_id: u64,
    pub payload: Seq<char>,
    pub file: Seq<u8>,
    pub bare: bool,
}

/// What is to be done after a message.
pub enum ReactionModel {
    Nothing,
    ReadCode(CodeModel),
    CancelLogin(u64),
    Save(SaveReason),
}

/// A search that is to be made.
pub struct SearchModel {
    pub request_id: u64,
    pub keyword: Seq<char>,
    pub platform: Platform,
    pub offset: u64,
    pub limit: u64,
    pub login: Option<Login>,
}

/// A login that is to be refreshed.
pub struct RefreshModel {
    pub platform: Platform,
    pub cookie_revision: u64,
    pub login: Login,
}

/// A download that is to be made.
pub struct RequestModel {
    pub job_id: u64,
    pub platform: Platform,
    pub song: SongModel,
    pub quality: SongQuality,
    pub login: Option<Login>,
    pub media_cookie: Option<Seq<char>>,
    pub directory: Seq<char>,
}

/// The application's state.
pub struct AppModel {
    pub paths: Paths,
    pub cookies: Cookies,
    pub platform: Platform,
    pub quality: SongQuality,
    pub query: Seq<char>,
    pub input: Seq<char>,
    pub input_mode: InputMode,
    pub results: Seq<SongModel>,
    pub selected_row: int,
    pub marked: Seq<Marked>,
    pub page: int,
    pub more: bool,
    pub loading: bool,
    pub search_request_id: int,
    pub downloads: Seq<ItemModel>,
    pub show_help: bool,
    pub login_overlay: Option<OverlayModel>,
    pub should_quit: bool,
    pub notice: NoticeModel,
    pub next_job_id: int,
    pub login_request_id: int,
    pub login_cancel: Option<u64>,
    pub cookie_refresh_pending: int,
    pub cookie_refresh_failed: Seq<Platform>,
    pub cookie_revisions: Seq<u64>,
}

impl Marked {
    /// The key of the song.
    pub open spec fn key(self) -> Seq<char> {
        music::key_of(self.platform, self.song.id)
    }
}

impl StateModel {
    /// Whether a download has come to its end.
    pub open spec fn finished(self) -> bool {
        self is Completed || self is Failed
    }
}

/// Where the song with the given key stands among marked songs.
pub open spec fn mark_position(marked: Seq<Marked>, key: Seq<char>) -> int {
    model::first_where(marked, |m: Marked| m.key() == key)
}

/// Whether the song with the given key is marked.
pub open spec fn has_mark(marked: Seq<Marked>, key: Seq<char>) -> bool {
    exists|i: int| 0 <= i < marked.len() && (#[trigger] marked[i]).key() == key
}

/// Marked songs without the one with the given key.
pub open spec fn unmark(marked: Seq<Marked>, key: Seq<char>) -> Seq<Marked> {
    let i = mark_position(marked, key);
    if i < marked.len() {
        marked.remove(i)
    } else {
        marked
    }
}

/// Marked songs with one more, in place of the one with the same key if there
/// is one.
pub open spec fn mark(marked: Seq<Marked>, song: Marked) -> Seq<Marked> {
    let i = mark_position(marked, song.key());
    if i < marked.len() {
        marked.update(i, song)
    } else {
        marked.push(song)
    }
}

/// Marked songs with all of some songs.
pub open spec fn mark_all(marked: Seq<Marked>, platform: Platform, songs: Seq<SongModel>) -> Seq<
    Marked,
>
    decreases songs.len(),
{
    if songs.len() == 0 {
        marked
    } else {
        mark(
            mark_all(marked, platform, songs.drop_last()),
            Marked { platform, song: songs.last() },
        )
    }
}

/// Marked songs without any of some songs.
pub open spec fn unmark_all(marked: Seq<Marked>, platform: Platform, songs: Seq<SongModel>) -> Seq<
    Marked,
>
    decreases songs.len(),
{
    if songs.len() == 0 {
        marked
    } else {
        unmark(
            unmark_all(marked, platform, songs.drop_last()),
            music::key_of(platform, songs.last().id),
        )
    }
}

/// Whether all of some songs are marked.
pub open spec fn all_marked(marked: Seq<Marked>, platform: Platform, songs: Seq<SongModel>) -> bool {
    forall|i: int|
        0 <= i < songs.len() ==> has_mark(marked, music::key_of(platform, (#[trigger] songs[i]).id))
}

/// Where a download stands.
pub open spec fn job_position(downloads: Seq<ItemModel>, job_id: u64) -> int {
    model::first_where(downloads, |item: ItemModel| item.job_id == job_id)
}

/// Whether the song with the given key is being downloaded, or was.
pub open spec fn has_download(downloads: Seq<ItemModel>, key: Seq<char>) -> bool {
    exists|i: int| 0 <= i < downloads.len() && (#[trigger] downloads[i]).key == key
}

/// The downloads that have not come to their end.
pub open spec fn unfinished(downloads: Seq<ItemModel>) -> Seq<ItemModel>
    decreases downloads.len(),
{
    if downloads.len() == 0 {
        downloads
    } else if downloads.last().state.finished() {
        unfinished(downloads.drop_last())
    } else {
        unfinished(downloads.drop_last()).push(downloads.last())
    }
}

/// Of some candidates those that are new: not among the downloads, and not
/// among the candidates before.
pub open spec fn fresh(downloads: Seq<ItemModel>, candidates: Seq<Marked>) -> Seq<Marked>
    decreases candidates.len(),
{
    if candidates.len() == 0 {
        candidates
    } else {
        let before = fresh(downloads, candidates.drop_last());
        let key = candidates.last().key();
        if has_download(downloads, key) || has_mark(before, key) {
            before
        } else {
            before.push(candidates.last())
        }
    }
}

/// A new download.
pub open spec fn new_item(job_id: int, selected: Marked, quality: SongQuality) -> ItemModel {
    ItemModel {
        job_id: job_id as u64,
        key: selected.key(),
        platform: selected.platform,
        song: selected.song,
        requested_quality: quality,
        actual_quality: None,
        received: 0,
        total: None,
        state: StateModel::Queued,
    }
}

/// New downloads with consecutive job numbers.
pub open spec fn new_items(first: int, selected: Seq<Marked>, quality: SongQuality) -> Seq<
    ItemModel,
> {
    Seq::new(selected.len(), |i: int| new_item(first + i, selected[i], quality))
}

/// The index of a platform.
pub open spec fn index(platform: Platform) -> int {
    match platform {
        Platform::Netease => 0,
        Platform::Tencent => 1,
    }
}

/// Platforms without one of them.
pub open spec fn without(platforms: Seq<Platform>, platform: Platform) -> Seq<Platform>
    decreases platforms.len(),
{
    if platforms.len() == 0 {
        platforms
    } else if platforms.last() == platform {
        without(platforms.drop_last(), platform)
    } else {
        without(platforms.drop_last(), platform).push(platforms.last())
    }
}

/// Whether a login that has come to this phase can still succeed.
pub open spec fn open_phase(phase: LoginPhase) -> bool {
    phase != LoginPhase::Failed && phase != LoginPhase::Expired
}

/// The notice on how many songs are marked.
pub open spec fn marked_text(count: nat) -> Seq<char> {
    "已选择 "@ + text::decimal(count) + " 首歌曲"@
}

/// The first notice.
pub open spec fn welcome(path: Seq<char>, file: CookieFile) -> NoticeModel {
    match storage::loaded(path, file) {
        Ok(_) => NoticeModel {
            kind: NoticeKind::Info,
            text: "直接输入关键词后按 Enter 搜索;按 F1 或 Ctrl+H 查看帮助"@,
            changed_at: None,
        },
        Err(error) => NoticeModel {
            kind: NoticeKind::Warning,
            text: "登录信息读取失败,将以未登录状态启动:"@ + error,
            changed_at: None,
        },
    }
}

/// The state at the start.
pub open spec fn initial(paths: Paths, file: CookieFile) -> AppModel {
    AppModel {
        paths,
        cookies: match storage::loaded(paths.cookie_file, file) {
            Ok(cookies) => cookies,
            Err(_) => Cookies::none(),
        },
        platform: Platform::Netease,
        quality: SongQuality::Lossless,
        query: seq![],
        input: seq![],
        input_mode: InputMode::Editing,
        results: seq![],
        selected_row: 0,
        marked: seq![],
        page: 1,
        more: false,
        loading: false,
        search_request_id: 0,
        downloads: seq![],
        show_help: false,
        login_overlay: None,
        should_quit: false,
        notice: welcome(paths.cookie_file, file),
        next_job_id: 1,
        login_request_id: 0,
        login_cancel: None,
        cookie_refresh_pending: 0,
        cookie_refresh_failed: seq![],
        cookie_revisions: seq![0u64, 0u64],
    }
}

impl AppModel {
    /// The state with another notice, which has just come up.
    pub open spec fn noticed(self, kind: NoticeKind, text: Seq<char>) -> AppModel {
        AppModel { notice: NoticeModel { kind, text, changed_at: None }, ..self }
    }

    /// The state with the time of its notice: the given one if the notice has
    /// just come up, and else the one that it has.
    pub open spec fn dated(self, at: Instant) -> AppModel {
        let changed_at = match self.notice.changed_at {
            Some(since) => since,
            None => at,
        };
        AppModel {
            notice: NoticeModel { changed_at: Some(changed_at), ..self.notice },
            ..self
        }
    }

    /// What is shown of the login for a platform.
    pub open spec fn login_text(self, platform: Platform, now: int) -> Seq<char> {
        if self.cookies.expired(platform, now) {
            "登录已过期"@
        } else if self.cookie_refresh_failed.contains(platform) {
            "登录待确认"@
        } else {
            self.cookies.state_text(platform, now)
        }
    }

    /// The warning on the login for a platform.
    pub open spec fn warning(self, platform: Platform, now: int) -> Option<Seq<char>> {
        let action = if platform == self.platform {
            "Ctrl+L 重新登录"@
        } else {
            "Ctrl+P 切换后 Ctrl+L 登录"@
        };
        if self.cookies.expired(platform, now) {
            Some(platform.short_name() + " "@ + "Cookie 已过期"@ + ";"@ + action)
        } else if self.cookie_refresh_failed.contains(platform) {
            Some(platform.short_name() + " "@ + "Cookie 刷新失败"@ + ";"@ + action)
        } else {
            None
        }
    }

    /// The warnings on logins.
    pub open spec fn warnings(self, now: int) -> Seq<Seq<char>> {
        (match self.warning(Platform::Netease, now) {
            Some(warning) => seq![warning],
            None => seq![],
        }) + (match self.warning(Platform::Tencent, now) {
            Some(warning) => seq![warning],
            None => seq![],
        })
    }

    /// The state once the logins were looked at for some that are to be
    /// refreshed.
    pub open spec fn refreshing(self, deadline: int) -> AppModel {
        let due = self.cookies.due_logins(deadline).len();
        if self.cookie_refresh_pending > 0 || self.cookies.count() == 0 {
            self
        } else if due == 0 {
            self.noticed(
                NoticeKind::Success,
                "已检查 "@ + text::decimal(self.cookies.count())
                    + " 个登录 Cookie,均在有效期内"@,
            )
        } else {
            AppModel { cookie_refresh_pending: due as int, ..self }.noticed(
                NoticeKind::Info,
                "正在自动更新 "@ + text::decimal(due)
                    + " 个已过期,即将过期或有效期未知的 Cookie..."@,
            )
        }
    }

    /// The logins that are to be refreshed, each with the revision that it
    /// has now.
    pub open spec fn refreshes(self, deadline: int) -> Seq<RefreshModel> {
        if self.cookie_refresh_pending > 0 {
            seq![]
        } else {
            self.cookies.due_logins(deadline).map_values(
                |due: (Platform, Login)|
                    RefreshModel {
                        platform: due.0,
                        cookie_revision: self.cookie_revisions[index(due.0)],
                        login: due.1,
                    },
            )
        }
    }

    /// The state with the next quality.
    pub open spec fn quality_cycled(self) -> AppModel {
        AppModel { quality: self.quality.next(), ..self }.noticed(
            NoticeKind::Info,
            "下载音质已切换为 "@ + self.quality.next().label(),
        )
    }

    /// The page that a search for the input would give.
    pub open spec fn search_page(self) -> int {
        if text::trimmed(self.input) != self.query {
            1
        } else {
            self.page
        }
    }

    /// The state once a search for the input was asked for.
    pub open spec fn searched(self) -> AppModel {
        let keyword = text::trimmed(self.input);
        if keyword.len() == 0 {
            AppModel { input_mode: InputMode::Editing, ..self }.noticed(
                NoticeKind::Warning,
                "请输入搜索关键词"@,
            )
        } else {
            AppModel {
                page: self.search_page(),
                query: keyword,
                input: keyword,
                loading: true,
                input_mode: InputMode::Normal,
                search_request_id: self.search_request_id + 1,
                ..self
            }.noticed(
                NoticeKind::Info,
                "正在搜索\""@ + keyword + "\"第 "@ + text::decimal(self.search_page() as nat)
                    + " 页..."@,
            )
        }
    }

    /// The search for the input: under a new number, for the songs of one
    /// page, with the login of the platform.
    pub open spec fn search(self, now: int) -> Option<SearchModel> {
        let keyword = text::trimmed(self.input);
        if keyword.len() == 0 {
            None
        } else {
            Some(
                SearchModel {
                    request_id: (self.search_request_id + 1) as u64,
                    keyword,
                    platform: self.platform,
                    offset: ((self.search_page() - 1) * PAGE_SIZE) as u64,
                    limit: PAGE_SIZE,
                    login: self.cookies.usable(self.platform, now),
                },
            )
        }
    }

    /// Whether a search for the input can be numbered and its offset computed.
    pub open spec fn can_search(self) -> bool {
        text::trimmed(self.input).len() > 0 ==> {
            &&& self.search_request_id < u64::MAX
            &&& 1 <= self.search_page()
            &&& (self.search_page() - 1) * PAGE_SIZE <= u64::MAX
        }
    }

    /// The state right after a switch to the other platform, before any
    /// search there. Searches under way count no more.
    pub open spec fn switched(self) -> AppModel {
        AppModel {
            search_request_id: self.search_request_id + 1,
            loading: false,
            platform: self.platform.other(),
            page: 1,
            selected_row: 0,
            results: seq![],
            more: false,
            ..self
        }.noticed(NoticeKind::Info, "已切换到 "@ + self.platform.other().label())
    }

    /// The state after a switch to the other platform.
    pub open spec fn toggled(self) -> AppModel {
        if text::blank(self.query) {
            self.switched()
        } else {
            self.switched().searched()
        }
    }

    /// The search that follows a switch to the other platform.
    pub open spec fn toggle_search(self, now: int) -> Option<SearchModel> {
        if text::blank(self.query) {
            None
        } else {
            self.switched().search(now)
        }
    }

    /// Whether a switch to the other platform can be numbered.
    pub open spec fn can_toggle(self) -> bool {
        &&& self.search_request_id < u64::MAX
        &&& !text::blank(self.query) ==> self.switched().can_search()
    }

    /// The state with another page number.
    pub open spec fn at_page(self, page: int) -> AppModel {
        AppModel { page, ..self }
    }

    /// The state once the previous page was asked for.
    pub open spec fn paged_back(self) -> AppModel {
        if self.loading {
            self.noticed(NoticeKind::Info, "搜索仍在进行,请稍候"@)
        } else if self.page > 1 {
            self.at_page(self.page - 1).searched()
        } else {
            self.noticed(NoticeKind::Info, "已经是第一页"@)
        }
    }

    /// The search for the previous page.
    pub open spec fn search_back(self, now: int) -> Option<SearchModel> {
        if !self.loading && self.page > 1 {
            self.at_page(self.page - 1).search(now)
        } else {
            None
        }
    }

    /// The state once the next page was asked for.
    pub open spec fn paged_on(self) -> AppModel {
        if self.loading {
            self.noticed(NoticeKind::Info, "搜索仍在进行,请稍候"@)
        } else if self.more {
            self.at_page(self.page + 1).searched()
        } else {
            self.noticed(NoticeKind::Info, "已经是最后一页"@)
        }
    }

    /// The search for the next page.
    pub open spec fn search_on(self, now: int) -> Option<SearchModel> {
        if !self.loading && self.more {
            self.at_page(self.page + 1).search(now)
        } else {
            None
        }
    }

    /// Whether the previous page can be asked for.
    pub open spec fn can_page_back(self) -> bool {
        !self.loading && self.page > 1 ==> self.at_page(self.page - 1).can_search()
    }

    /// Whether the next page can be asked for.
    pub open spec fn can_page_on(self) -> bool {
        !self.loading && self.more ==> {
            &&& self.page < u64::MAX
            &&& self.at_page(self.page + 1).can_search()
        }
    }

    /// The state with the row above selected.
    pub open spec fn selected_up(self) -> AppModel {
        if self.results.len() == 0 || self.selected_row == 0 {
            self
        } else {
            AppModel { selected_row: self.selected_row - 1, ..self }
        }
    }

    /// The state with the row below selected.
    pub open spec fn selected_down(self) -> AppModel {
        if self.results.len() == 0 {
            self
        } else if self.selected_row + 1 < self.results.len() {
            AppModel { selected_row: self.selected_row + 1, ..self }
        } else {
            AppModel { selected_row: self.results.len() - 1, ..self }
        }
    }

    /// The song in the selected row.
    pub open spec fn current(self) -> Option<Marked> {
        if 0 <= self.selected_row < self.results.len() {
            Some(Marked { platform: self.platform, song: self.results[self.selected_row] })
        } else {
            None
        }
    }

    /// The state with the mark of the current song set or taken away.
    pub open spec fn mark_toggled(self) -> AppModel {
        match self.current() {
            None => self.noticed(NoticeKind::Info, "当前没有可选择的歌曲"@),
            Some(song) => {
                let marked = if has_mark(self.marked, song.key()) {
                    unmark(self.marked, song.key())
                } else {
                    self.marked.push(song)
                };
                AppModel { marked, ..self }.noticed(NoticeKind::Info, marked_text(marked.len()))
            },
        }
    }

    /// The state with the marks of all songs on the page set, or taken away if
    /// all were set.
    pub open spec fn page_toggled(self) -> AppModel {
        if self.results.len() == 0 {
            self.noticed(NoticeKind::Info, "当前页没有歌曲"@)
        } else {
            let marked = if all_marked(self.marked, self.platform, self.results) {
                unmark_all(self.marked, self.platform, self.results)
            } else {
                mark_all(self.marked, self.platform, self.results)
            };
            AppModel { marked, ..self }.noticed(NoticeKind::Info, marked_text(marked.len()))
        }
    }

    /// The songs that a download would be of: the marked ones, or the current
    /// one if none is marked.
    pub open spec fn candidates(self) -> Seq<Marked> {
        if self.marked.len() > 0 {
            self.marked
        } else {
            match self.current() {
                Some(song) => seq![song],
                None => seq![],
            }
        }
    }

    /// The songs that a download would be of and that are new.
    pub open spec fn fresh_candidates(self) -> Seq<Marked> {
        fresh(self.downloads, self.candidates())
    }

    /// The state once a download was asked for.
    pub open spec fn queued(self) -> AppModel {
        let new = self.fresh_candidates();
        let skipped = (self.candidates().len() - new.len()) as nat;
        if self.candidates().len() == 0 {
            self.noticed(NoticeKind::Warning, "请先搜索并选择要下载的歌曲"@)
        } else if new.len() == 0 {
            AppModel { marked: seq![], ..self }.noticed(
                NoticeKind::Info,
                "所选歌曲已在下载列表中"@,
            )
        } else {
            AppModel {
                marked: seq![],
                downloads: self.downloads + new_items(self.next_job_id, new, self.quality),
                next_job_id: self.next_job_id + new.len(),
                ..self
            }.noticed(
                NoticeKind::Success,
                "已加入 "@ + text::decimal(new.len()) + " 个下载任务(最多 "@ + text::decimal(
                    MAX_CONCURRENT_DOWNLOADS as nat,
                )
                    + " 路并发)"@ + (if skipped > 0 {
                    ",跳过 "@ + text::decimal(skipped) + " 首重复歌曲"@
                } else {
                    seq![]
                }),
            )
        }
    }

    /// Whether the downloads can be numbered.
    pub open spec fn can_queue(self) -> bool {
        self.next_job_id + self.fresh_candidates().len() <= u64::MAX
    }

    /// The downloads that are to be made: of the new songs, each under a new
    /// number, with the login of its platform.
    pub open spec fn requests(self, now: int) -> Seq<RequestModel> {
        let new = self.fresh_candidates();
        Seq::new(new.len(), |i: int| self.request(self.next_job_id + i, new[i], now))
    }

    /// The download that is to be made of a song.
    pub open spec fn request(self, job_id: int, selected: Marked, now: int) -> RequestModel {
        RequestModel {
            job_id: job_id as u64,
            platform: selected.platform,
            song: selected.song,
            quality: self.quality,
            login: self.cookies.usable(selected.platform, now),
            media_cookie: self.cookies.header(selected.platform, now),
            directory: self.paths.download_dir,
        }
    }

    /// The state without the downloads that have come to their end.
    pub open spec fn cleared(self) -> AppModel {
        let kept = unfinished(self.downloads);
        AppModel { downloads: kept, ..self }.noticed(
            NoticeKind::Info,
            "已清理 "@ + text::decimal((self.downloads.len() - kept.len()) as nat)
                + " 条完成/失败记录"@,
        )
    }

    /// The state once the user asked to leave.
    pub open spec fn quit_requested(self) -> AppModel {
        let active = unfinished(self.downloads).len();
        if active > 0 {
            self.noticed(
                NoticeKind::Warning,
                "还有 "@ + text::decimal(active)
                    + " 个下载任务未完成;请等待完成,或按 Ctrl+C 强制退出"@,
            )
        } else {
            AppModel { should_quit: true, ..self }
        }
    }

    /// The state without a login under way.
    pub open spec fn login_cancelled(self) -> AppModel {
        AppModel { login_overlay: None, login_cancel: None, ..self }
    }

    /// The state at the start of a login.
    pub open spec fn login_started(self) -> AppModel {
        let request_id = (self.login_request_id + 1) as u64;
        AppModel {
            login_request_id: self.login_request_id + 1,
            login_cancel: Some(request_id),
            login_overlay: Some(
                OverlayModel {
                    request_id,
                    phase: LoginPhase::Creating,
                    qr_lines: seq![],
                    detail: "正在向平台申请登录二维码..."@,
                },
            ),
            ..self
        }
    }

    /// Whether news of the given login attempt still count.
    pub open spec fn awaits_login(self, request_id: u64) -> bool {
        match self.login_overlay {
            Some(overlay) => overlay.request_id == request_id && open_phase(overlay.phase),
            None => false,
        }
    }

    /// The state once the code of a login attempt was prepared or not.
    pub open spec fn qr_shown(
        self,
        request_id: u64,
        prepared: Result<Seq<Seq<char>>, QrFailure>,
    ) -> AppModel {
        let overlay = self.login_overlay->Some_0;
        if !self.awaits_login(request_id) {
            self
        } else {
            match prepared {
                Ok(lines) => AppModel {
                    login_overlay: Some(
                        OverlayModel {
                            qr_lines: lines,
                            phase: LoginPhase::WaitingScan,
                            detail: "请扫描终端中的二维码登录"@,
                            ..overlay
                        },
                    ),
                    ..self
                },
                Err(failure) => AppModel {
                    login_overlay: Some(
                        OverlayModel {
                            phase: LoginPhase::Failed,
                            detail: "二维码处理失败:"@ + failure.text(),
                            ..overlay
                        },
                    ),
                    login_cancel: None,
                    ..self
                },
            }
        }
    }

    /// The login attempt to be ended once its code was prepared or not.
    pub open spec fn qr_cancels(
        self,
        request_id: u64,
        prepared: Result<Seq<Seq<char>>, QrFailure>,
    ) -> Option<u64> {
        if self.awaits_login(request_id) && prepared is Err {
            self.login_cancel
        } else {
            None
        }
    }

    /// The state once the code of a login attempt has come to the given step.
    pub open spec fn code_advanced(self, request_id: u64, step: StepModel) -> AppModel {
        match step {
            StepModel::Read(_, _) => self,
            StepModel::Done(prepared) => self.qr_shown(request_id, prepared),
        }
    }

    /// What is to be done once the code of a login attempt has come to the
    /// given step. An attempt that counts no more has nothing done for it.
    pub open spec fn code_reaction(
        self,
        request_id: u64,
        payload: Seq<char>,
        step: StepModel,
    ) -> ReactionModel {
        if !self.awaits_login(request_id) {
            ReactionModel::Nothing
        } else {
            match step {
                StepModel::Read(file, bare) => ReactionModel::ReadCode(
                    CodeModel { request_id, payload, file, bare },
                ),
                StepModel::Done(prepared) => match self.qr_cancels(request_id, prepared) {
                    Some(id) => ReactionModel::CancelLogin(id),
                    None => ReactionModel::Nothing,
                },
            }
        }
    }

    /// The step that follows on the reading of a file for a code.
    pub open spec fn step_after(request: CodeModel, reading: ReadingModel) -> StepModel {
        qr::next_step(request.payload, request.bare, reading)
    }

    /// The state once a search has come to its end.
    pub open spec fn search_finished(
        self,
        request_id: u64,
        result: Result<(Seq<SongModel>, bool), Seq<char>>,
    ) -> AppModel {
        if request_id != self.search_request_id {
            self
        } else {
            match result {
                Ok((songs, more)) => AppModel {
                    loading: false,
                    results: songs,
                    more,
                    selected_row: 0,
                    ..self
                }.noticed(
                    if songs.len() == 0 {
                        NoticeKind::Warning
                    } else {
                        NoticeKind::Success
                    },
                    if songs.len() == 0 {
                        "没有找到歌曲,请尝试其他关键词"@
                    } else {
                        "第 "@ + text::decimal(self.page as nat) + " 页找到 "@ + text::decimal(
                            songs.len(),
                        ) + " 首歌曲"@
                    },
                ),
                Err(error) => AppModel {
                    loading: false,
                    results: seq![],
                    more: false,
                    ..self
                }.noticed(NoticeKind::Error, "搜索失败:"@ + error),
            }
        }
    }

    /// The state once a login attempt has come to another phase.
    pub open spec fn login_moved(
        self,
        request_id: u64,
        phase: LoginPhase,
        detail: Seq<char>,
    ) -> AppModel {
        if !self.awaits_login(request_id) {
            self
        } else {
            AppModel {
                login_overlay: Some(
                    OverlayModel { phase, detail, ..self.login_overlay->Some_0 },
                ),
                login_cancel: if open_phase(phase) {
                    self.login_cancel
                } else {
                    None
                },
                ..self
            }
        }
    }

    /// The state with a new login of a platform, in a new revision, and no
    /// failure to refresh it on record.
    pub open spec fn renewed(self, platform: Platform, login: Login) -> AppModel {
        AppModel {
            cookies: self.cookies.with(login),
            cookie_revisions: self.cookie_revisions.update(
                index(platform),
                (self.cookie_revisions[index(platform)] + 1) as u64,
            ),
            cookie_refresh_failed: without(self.cookie_refresh_failed, platform),
            ..self
        }
    }

    /// The state once a login attempt has succeeded, before its token is
    /// stored.
    pub open spec fn logged_in(self, request_id: u64, login: Login) -> AppModel {
        if !self.awaits_login(request_id) {
            self
        } else {
            self.renewed(login.platform(), login).login_cancelled()
        }
    }

    /// The state once a refresh has come to its end, before a token is stored.
    pub open spec fn refresh_finished(
        self,
        platform: Platform,
        cookie_revision: u64,
        result: Result<Login, Seq<char>>,
    ) -> AppModel {
        let counted = AppModel {
            cookie_refresh_pending: if self.cookie_refresh_pending > 0 {
                self.cookie_refresh_pending - 1
            } else {
                0
            },
            ..self
        };
        if cookie_revision != self.cookie_revisions[index(platform)] {
            counted
        } else {
            match result {
                Ok(login) => counted.renewed(platform, login),
                Err(error) => AppModel {
                    cookie_refresh_failed: if self.cookie_refresh_failed.contains(platform) {
                        self.cookie_refresh_failed
                    } else {
                        self.cookie_refresh_failed.push(platform)
                    },
                    ..counted
                }.noticed(
                    NoticeKind::Warning,
                    platform.label() + " Cookie 自动更新失败:"@ + error
                        + ";请按 Ctrl+L 重新登录"@,
                ),
            }
        }
    }

    /// The state with one download replaced.
    pub open spec fn with_item(self, i: int, item: ItemModel) -> AppModel {
        AppModel { downloads: self.downloads.update(i, item), ..self }
    }

    /// The state once a download has come to another stage.
    pub open spec fn stage_reached(self, job_id: u64, state: StateModel) -> AppModel {
        let i = job_position(self.downloads, job_id);
        if i >= self.downloads.len() {
            self
        } else {
            let item = self.downloads[i];
            let moved = self.with_item(i, ItemModel { state, ..item });
            match state {
                StateModel::Completed(path, _) => moved.noticed(
                    NoticeKind::Success,
                    "<"@ + item.song.name + "> 下载完成:"@ + path,
                ),
                StateModel::Failed(error) => moved.noticed(
                    NoticeKind::Error,
                    "<"@ + item.song.name + "> 下载失败:"@ + error,
                ),
                _ => moved,
            }
        }
    }

    /// The state once the quality of a download is known.
    pub open spec fn resolved(self, job_id: u64, quality: SongQuality) -> AppModel {
        let i = job_position(self.downloads, job_id);
        if i >= self.downloads.len() {
            self
        } else {
            let item = self.downloads[i];
            let moved = self.with_item(i, ItemModel { actual_quality: Some(quality), ..item });
            if quality != item.requested_quality {
                moved.noticed(
                    NoticeKind::Warning,
                    "<"@ + item.song.name + "> 请求音质为 "@ + item.requested_quality.label()
                        + ",平台实际返回 "@ + quality.label(),
                )
            } else {
                moved
            }
        }
    }

    /// The state once some of a download has arrived.
    pub open spec fn progressed(self, job_id: u64, received: u64, total: Option<u64>) -> AppModel {
        let i = job_position(self.downloads, job_id);
        if i >= self.downloads.len() {
            self
        } else {
            self.with_item(
                i,
                ItemModel { received, total, state: StateModel::Downloading, ..self.downloads[i] },
            )
        }
    }

    /// The state after a message.
    pub open spec fn received(self, message: Message) -> AppModel {
        match message {
            Message::SearchFinished(request_id, result) => self.search_finished(request_id, result),
            Message::LoginQr(request_id, payload) => self.code_advanced(
                request_id,
                qr::first_step(payload),
            ),
            Message::LoginPhase(request_id, phase, detail) => self.login_moved(
                request_id,
                phase,
                detail,
            ),
            Message::LoginSuccess(request_id, login) => self.logged_in(request_id, login),
            Message::CookieRefreshFinished(platform, revision, result) => self.refresh_finished(
                platform,
                revision,
                result,
            ),
            Message::DownloadStage(job_id, state) => self.stage_reached(job_id, state),
            Message::DownloadResolved(job_id, quality) => self.resolved(job_id, quality),
            Message::DownloadProgress(job_id, received, total) => self.progressed(
                job_id,
                received,
                total,
            ),
        }
    }

    /// Whether the login that a message brings can be given a revision.
    pub open spec fn can_receive(self, message: Message) -> bool {
        match message {
            Message::LoginSuccess(request_id, login) => self.awaits_login(request_id)
                ==> self.cookie_revisions[index(login.platform())] < u64::MAX,
            Message::CookieRefreshFinished(platform, revision, result) => revision
                == self.cookie_revisions[index(platform)] && result is Ok ==> revision < u64::MAX,
            _ => true,
        }
    }

    /// What is to be done after a message.
    pub open spec fn reaction(self, message: Message) -> ReactionModel {
        match message {
            Message::LoginQr(request_id, payload) => self.code_reaction(
                request_id,
                payload,
                qr::first_step(payload),
            ),
            Message::LoginSuccess(request_id, login) => if self.awaits_login(request_id) {
                ReactionModel::Save(SaveReason::Login(login.platform()))
            } else {
                ReactionModel::Nothing
            },
            Message::CookieRefreshFinished(platform, revision, result) => if revision
                == self.cookie_revisions[index(platform)] && result is Ok {
                ReactionModel::Save(SaveReason::Refresh(platform))
            } else {
                ReactionModel::Nothing
            },
            _ => ReactionModel::Nothing,
        }
    }

    /// The state once the logins were stored, or could not be.
    pub open spec fn saved(self, reason: SaveReason, result: Result<(), Seq<char>>) -> AppModel {
        match (reason, result) {
            (SaveReason::Login(platform), Ok(_)) => self.noticed(
                NoticeKind::Success,
                platform.label() + " 登录成功,登录信息已保存"@,
            ),
            (SaveReason::Login(_), Err(error)) => self.noticed(
                NoticeKind::Warning,
                "登录成功,但保存登录信息失败:"@ + error,
            ),
            (SaveReason::Refresh(platform), Ok(_)) => self.noticed(
                NoticeKind::Success,
                platform.label() + " Cookie 已自动更新并立即保存"@,
            ),
            (SaveReason::Refresh(platform), Err(error)) => self.noticed(
                NoticeKind::Warning,
                platform.label() + " Cookie 已更新,但写入 "@ + self.paths.cookie_file + " 失败:"@
                    + error,
            ),
        }
    }
}

} // verus!
