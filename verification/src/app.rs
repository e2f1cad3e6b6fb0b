//! The application's state and what the user and the background work do to
//! it. What has to be done outside is handed back as a request.

use std::time::Instant;
use vstd::prelude::*;

use crate::app_laws;
use crate::app_model;
use crate::app_model::{
    AppModel, CodeModel, ItemModel, Marked, Message, NoticeModel, OverlayModel, ReactionModel,
    RefreshModel, RequestModel, SearchModel, StateModel,
};
use crate::model;
use crate::music::{LoginToken, Platform, SearchSongResult, Song, SongQuality};
use crate::storage::{AppPaths, CookieFile, CookieStore};

verus! {

/// The number of songs on a page of search results.
pub const PAGE_SIZE: u64 = 20;

/// The number of downloads that can run at the same time.
pub const MAX_CONCURRENT_DOWNLOADS: usize = 3;

/// How many seconds before it expires a login is refreshed.
pub const COOKIE_REFRESH_BEFORE: u64 = 24 * 60 * 60;

/// Whether typing edits the search text from where it is.
#[derive(Clone, Copy, Debug, PartialEq, Eq, Structural)]
pub enum InputMode {
    Normal,
    Editing,
}

/// How important a notice is.
#[derive(Clone, Copy, Debug, PartialEq, Eq, Structural)]
pub enum NoticeKind {
    Info,
    Success,
    Warning,
    Error,
}

/// What the last operation has to say, and since when.
#[derive(Debug)]
pub struct Notice {
    pub text: String,
    pub kind: NoticeKind,
    pub changed_at: Instant,
}

/// How far a login attempt has come.
#[derive(Clone, Copy, Debug, PartialEq, Eq, Structural)]
pub enum LoginPhase {
    Creating,
    WaitingScan,
    WaitingConfirm,
    Expired,
    Failed,
}

/// What is shown while a login is under way.
#[derive(Debug)]
pub struct LoginOverlay {
    pub request_id: u64,
    pub phase: LoginPhase,
    pub qr_lines: Vec<String>,
    pub detail: String,
}

/// A song that was marked for download.
#[derive(Debug)]
pub struct MarkedSong {
    pub platform: Platform,
    pub song: Song,
}

/// A file that a download was saved to: its path as it is shown, and its name
/// if that is text.
#[derive(Debug)]
pub struct SavedFile {
    pub path: String,
    pub file_name: Option<String>,
}

/// How far a download has come.
#[derive(Debug)]
pub enum DownloadState {
    Queued,
    Resolving,
    Downloading,
    Completed(SavedFile),
    Failed(String),
}

/// A download.
#[derive(Debug)]
pub struct DownloadItem {
    pub job_id: u64,
    pub key: String,
    pub platform: Platform,
    pub song: Song,
    pub requested_quality: SongQuality,
    pub actual_quality: Option<SongQuality>,
    pub received: u64,
    pub total: Option<u64>,
    pub state: DownloadState,
}

/// News from work that was done in the background.
#[allow(inconsistent_fields)]
#[derive(Debug)]
pub enum AppMessage {
    SearchFinished { request_id: u64, result: Result<SearchSongResult, String> },
    LoginQr { request_id: u64, payload: String },
    LoginPhase { request_id: u64, phase: LoginPhase, detail: String },
    LoginSuccess { request_id: u64, token: LoginToken },
    CookieRefreshFinished {
        platform: Platform,
        cookie_revision: u64,
        result: Result<LoginToken, String>,
    },
    DownloadStage { job_id: u64, state: DownloadState },
    DownloadResolved { job_id: u64, actual_quality: SongQuality },
    DownloadProgress { job_id: u64, received: u64, total: Option<u64> },
}

/// A search that is to be made. Its result comes back under its number.
#[derive(Debug)]
pub struct SearchRequest {
    pub request_id: u64,
    pub keyword: String,
    pub platform: Platform,
    pub offset: u64,
    pub limit: u64,
    pub token: Option<LoginToken>,
}

/// A login that is to be refreshed. Its result comes back with its revision.
#[derive(Debug)]
pub struct RefreshRequest {
    pub platform: Platform,
    pub cookie_revision: u64,
    pub token: LoginToken,
}

/// A download that is to be made.
#[derive(Debug)]
pub struct DownloadRequest {
    pub job_id: u64,
    pub platform: Platform,
    pub song: Song,
    pub quality: SongQuality,
    pub token: Option<LoginToken>,
    pub media_cookie: Option<String>,
    pub directory: String,
}

/// A login that is to be attempted, once the attempt before it is ended.
#[derive(Clone, Copy, Debug, PartialEq, Eq, Structural)]
pub struct LoginRequest {
    pub cancelled: Option<u64>,
    pub request_id: u64,
    pub platform: Platform,
}

/// Why the logins are stored.
#[derive(Clone, Copy, Debug, PartialEq, Eq, Structural)]
pub enum SaveReason {
    Login(Platform),
    Refresh(Platform),
}

/// A file that is to be read for the code of a login attempt.
#[derive(Debug)]
pub struct CodeRequest {
    pub request_id: u64,
    pub payload: String,
    pub file: Vec<u8>,
    /// Whether the file is the payload itself as Base64.
    pub bare: bool,
}

/// What is to be done after a message.
#[derive(Debug)]
pub enum Reaction {
    Nothing,
    /// Read a file, and tell what was found.
    ReadCode(CodeRequest),
    /// End the login attempt with this number.
    CancelLogin(u64),
    /// Store the logins, and tell how that went.
    Save(SaveReason),
}

/// The application's state.
#[derive(Debug)]
pub struct App {
    pub paths: AppPaths,
    pub cookies: CookieStore,
    pub platform: Platform,
    pub quality: SongQuality,
    pub query: String,
    pub input: String,
    pub input_mode: InputMode,
    pub results: Vec<Song>,
    pub selected_row: usize,
    pub marked: Vec<MarkedSong>,
    pub page: u64,
    pub more: bool,
    pub loading: bool,
    pub search_request_id: u64,
    pub downloads: Vec<DownloadItem>,
    pub show_help: bool,
    pub login_overlay: Option<LoginOverlay>,
    pub should_quit: bool,
    pub notice: Notice,
    pub next_job_id: u64,
    pub login_request_id: u64,
    /// The login attempt that can still be ended.
    pub login_cancel: Option<u64>,
    pub cookie_refresh_pending: usize,
    pub cookie_refresh_failed: Vec<Platform>,
    pub cookie_revisions: [u64; 2],
}

impl View for Notice {
    type V = NoticeModel;

    open spec fn view(&self) -> NoticeModel {
        NoticeModel {
            kind: self.kind,
            text: self.text@,
            changed_at: Some(self.changed_at),
        }
    }
}

impl View for LoginOverlay {
    type V = OverlayModel;

    open spec fn view(&self) -> OverlayModel {
        OverlayModel {
            request_id: self.request_id,
            phase: self.phase,
            qr_lines: model::views(self.qr_lines@),
            detail: self.detail@,
        }
    }
}

impl View for MarkedSong {
    type V = Marked;

    open spec fn view(&self) -> Marked {
        Marked { platform: self.platform, song: self.song@ }
    }
}

impl View for DownloadState {
    type V = StateModel;

    open spec fn view(&self) -> StateModel {
        match self {
            DownloadState::Queued => StateModel::Queued,
            DownloadState::Resolving => StateModel::Resolving,
            DownloadState::Downloading => StateModel::Downloading,
            DownloadState::Completed(file) => StateModel::Completed(
                file.path@,
                model::view_of(file.file_name),
            ),
            DownloadState::Failed(error) => StateModel::Failed(error@),
        }
    }
}

impl View for DownloadItem {
    type V = ItemModel;

    open spec fn view(&self) -> ItemModel {
        ItemModel {
            job_id: self.job_id,
            key: self.key@,
            platform: self.platform,
            song: self.song@,
            requested_quality: self.requested_quality,
            actual_quality: self.actual_quality,
            received: self.received,
            total: self.total,
            state: self.state@,
        }
    }
}

impl View for AppMessage {
    type V = Message;

    open spec fn view(&self) -> Message {
        match self {
            AppMessage::SearchFinished { request_id, result } => Message::SearchFinished(
                *request_id,
                match result {
                    Ok(page) => Ok((model::views(page.songs@), page.more)),
                    Err(error) => Err(error@),
                },
            ),
            AppMessage::LoginQr { request_id, payload } => Message::LoginQr(*request_id, payload@),
            AppMessage::LoginPhase { request_id, phase, detail } => Message::LoginPhase(
                *request_id,
                *phase,
                detail@,
            ),
            AppMessage::LoginSuccess { request_id, token } => Message::LoginSuccess(
                *request_id,
                token@,
            ),
            AppMessage::CookieRefreshFinished {
                platform,
                cookie_revision,
                result,
            } => Message::CookieRefreshFinished(
                *platform,
                *cookie_revision,
                match result {
                    Ok(token) => Ok(token@),
                    Err(error) => Err(error@),
                },
            ),
            AppMessage::DownloadStage { job_id, state } => Message::DownloadStage(*job_id, state@),
            AppMessage::DownloadResolved { job_id, actual_quality } => Message::DownloadResolved(
                *job_id,
                *actual_quality,
            ),
            AppMessage::DownloadProgress { job_id, received, total } => Message::DownloadProgress(
                *job_id,
                *received,
                *total,
            ),
        }
    }
}

impl View for CodeRequest {
    type V = CodeModel;

    open spec fn view(&self) -> CodeModel {
        CodeModel {
            request_id: self.request_id,
            payload: self.payload@,
            file: self.file@,
            bare: self.bare,
        }
    }
}

impl View for Reaction {
    type V = ReactionModel;

    open spec fn view(&self) -> ReactionModel {
        match self {
            Reaction::Nothing => ReactionModel::Nothing,
            Reaction::ReadCode(request) => ReactionModel::ReadCode(request@),
            Reaction::CancelLogin(id) => ReactionModel::CancelLogin(*id),
            Reaction::Save(reason) => ReactionModel::Save(*reason),
        }
    }
}

impl View for SearchRequest {
    type V = SearchModel;

    open spec fn view(&self) -> SearchModel {
        SearchModel {
            request_id: self.request_id,
            keyword: self.keyword@,
            platform: self.platform,
            offset: self.offset,
            limit: self.limit,
            login: model::view_of(self.token),
        }
    }
}

impl View for RefreshRequest {
    type V = RefreshModel;

    open spec fn view(&self) -> RefreshModel {
        RefreshModel {
            platform: self.platform,
            cookie_revision: self.cookie_revision,
            login: self.token@,
        }
    }
}

impl View for DownloadRequest {
    type V = RequestModel;

    open spec fn view(&self) -> RequestModel {
        RequestModel {
            job_id: self.job_id,
            platform: self.platform,
            song: self.song@,
            quality: self.quality,
            login: model::view_of(self.token),
            media_cookie: model::view_of(self.media_cookie),
            directory: self.directory@,
        }
    }
}

impl View for App {
    type V = AppModel;

    open spec fn view(&self) -> AppModel {
        AppModel {
            paths: self.paths@,
            cookies: self.cookies@,
            platform: self.platform,
            quality: self.quality,
            query: self.query@,
            input: self.input@,
            input_mode: self.input_mode,
            results: model::views(self.results@),
            selected_row: self.selected_row as int,
            marked: model::views(self.marked@),
            page: self.page as int,
            more: self.more,
            loading: self.loading,
            search_request_id: self.search_request_id as int,
            downloads: model::views(self.downloads@),
            show_help: self.show_help,
            login_overlay: model::view_of(self.login_overlay),
            should_quit: self.should_quit,
            notice: self.notice@,
            next_job_id: self.next_job_id as int,
            login_request_id: self.login_request_id as int,
            login_cancel: self.login_cancel,
            cookie_refresh_pending: self.cookie_refresh_pending as int,
            cookie_refresh_failed: self.cookie_refresh_failed@,
            cookie_revisions: self.cookie_revisions@,
        }
    }
}

#[verifier::external_type_specification]
#[verifier::external_body]
pub struct ExInstant(Instant);

/// `Instant::now` reads the monotonic clock. Nothing is claimed of the result.
pub assume_specification[ Instant::now ]() -> Instant
;

/// The index of a platform.
pub fn platform_index(platform: Platform) -> (r: usize)
    ensures
        r == app_model::index(platform),
        r < 2,
{
    match platform {
        Platform::Netease => 0,
        Platform::Tencent => 1,
    }
}

/// A notice that comes up now.
fn new_notice(kind: NoticeKind, text: String) -> (r: Notice)
    ensures
        r.kind == kind,
        r.text@ == text@,
{
    Notice { text, kind, changed_at: Instant::now() }
}

impl App {
    /// The state at the start, given what was found where the logins are
    /// stored.
    pub fn new(paths: AppPaths, cookie_file: CookieFile) -> (r: App)
        ensures
            r@ == app_model::initial(paths@, cookie_file).dated(r.notice.changed_at),
            r@.valid(),
    {
        let (cookies, notice) = match CookieStore::load(paths.cookie_file.as_str(), cookie_file) {
            Ok(cookies) => (
                cookies,
                new_notice(
                    NoticeKind::Info,
                    "直接输入关键词后按 Enter 搜索;按 F1 或 Ctrl+H 查看帮助".to_owned(),
                ),
            ),
            Err(error) => (
                CookieStore::default(),
                new_notice(
                    NoticeKind::Warning,
                    "登录信息读取失败,将以未登录状态启动:".to_owned().concat(error.as_str()),
                ),
            ),
        };
        let app = App {
            paths,
            cookies,
            platform: Platform::Netease,
            quality: SongQuality::Lossless,
            query: String::new(),
            input: String::new(),
            input_mode: InputMode::Editing,
            results: Vec::new(),
            selected_row: 0,
            marked: Vec::new(),
            page: 1,
            more: false,
            loading: false,
            search_request_id: 0,
            downloads: Vec::new(),
            show_help: false,
            login_overlay: None,
            should_quit: false,
            notice,
            next_job_id: 1,
            login_request_id: 0,
            login_cancel: None,
            cookie_refresh_pending: 0,
            cookie_refresh_failed: Vec::new(),
            cookie_revisions: [0, 0],
        };
        proof {
            assert(app@.results =~= seq![]);
            assert(app@.marked =~= seq![]);
            assert(app@.downloads =~= seq![]);
            assert(app@.cookie_revisions =~= seq![0u64, 0u64]);
            app_laws::law_initial_state_is_valid(paths@, cookie_file);
            app_laws::lemma_dated(
                app_model::initial(paths@, cookie_file),
                app.notice.changed_at,
            );
        }
        app
    }

    /// Puts up another notice, from the given moment on.
    pub fn set_notice_at(&mut self, kind: NoticeKind, text: &str, changed_at: Instant)
        ensures
            final(self)@ == old(self)@.noticed(kind, text@).dated(changed_at),
    {
        self.notice = Notice { text: text.to_owned(), kind, changed_at };
    }

    /// Puts up another notice, from now on.
    pub fn set_notice(&mut self, kind: NoticeKind, text: &str)
        ensures
            final(self)@ == old(self)@.noticed(kind, text@).dated(final(self).notice.changed_at),
    {
        self.set_notice_at(kind, text, Instant::now());
    }
}

} // verus!
