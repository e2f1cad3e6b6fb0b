//! What is shown: the texts of the views and how they look.

use std::time::Instant;
use vstd::prelude::*;

use crate::app::{
    App, DownloadItem, DownloadState, InputMode, LoginOverlay, LoginPhase, NoticeKind, PAGE_SIZE,
};
use crate::app_model;
use crate::app_model::{AppModel, ItemModel, OverlayModel, StateModel};
use crate::download;
use crate::download::artists_text;
use crate::layout;
use crate::layout::LoginLayout;
use crate::model;
use crate::music;
use crate::music::Platform;
use crate::sizes;
use crate::sizes::human_bytes;
use crate::storage::{clock_milliseconds, milliseconds_read, unix_now};
use crate::text;

verus! {

/// How many seconds a notice keeps its colour.
pub const NOTICE_SECONDS: u64 = 15;

/// How many downloads are shown.
pub const SHOWN_DOWNLOADS: usize = 4;

/// How many milliseconds each frame of the spinner is shown.
pub const SPINNER_MILLISECONDS: u128 = 150;

/// What a colour says.
#[derive(Clone, Copy, Debug, PartialEq, Eq, Structural)]
pub enum Tone {
    Accent,
    Success,
    Warning,
    Error,
    Muted,
}

/// How a text looks.
#[derive(Clone, Copy, Debug, PartialEq, Eq, Structural)]
pub enum Look {
    Plain,
    /// Bold and black on the accent colour.
    Badge,
    Toned(Tone),
    Bold(Tone),
    /// Black on white, as a code has to be.
    Code,
}

/// A text and how it looks.
#[derive(Debug)]
pub struct Piece {
    pub text: String,
    pub look: Look,
}

/// A text and how it looks.
pub struct PieceModel {
    pub text: Seq<char>,
    pub look: Look,
}

impl View for Piece {
    type V = PieceModel;

    open spec fn view(&self) -> PieceModel {
        PieceModel { text: self.text@, look: self.look }
    }
}

/// A row of the list of downloads.
#[derive(Debug)]
pub struct DownloadRow {
    pub icon: &'static str,
    pub title: String,
    pub status: String,
    pub progress: String,
    pub tone: Tone,
}

/// A row of the list of downloads.
pub struct DownloadRowModel {
    pub icon: Seq<char>,
    pub title: Seq<char>,
    pub status: Seq<char>,
    pub progress: Seq<char>,
    pub tone: Tone,
}

impl View for DownloadRow {
    type V = DownloadRowModel;

    open spec fn view(&self) -> DownloadRowModel {
        DownloadRowModel {
            icon: self.icon@,
            title: self.title@,
            status: self.status@,
            progress: self.progress@,
            tone: self.tone,
        }
    }
}

/// A row of the search results.
#[derive(Debug)]
pub struct ResultRow {
    pub mark: &'static str,
    pub number: String,
    pub name: String,
    pub artists: String,
    pub album: String,
}

/// A row of the search results.
pub struct ResultRowModel {
    pub mark: Seq<char>,
    pub number: Seq<char>,
    pub name: Seq<char>,
    pub artists: Seq<char>,
    pub album: Seq<char>,
}

impl View for ResultRow {
    type V = ResultRowModel;

    open spec fn view(&self) -> ResultRowModel {
        ResultRowModel {
            mark: self.mark@,
            number: self.number@,
            name: self.name@,
            artists: self.artists@,
            album: self.album@,
        }
    }
}

/// A text and how it looks.
pub open spec fn piece_of(text: Seq<char>, look: Look) -> PieceModel {
    PieceModel { text, look }
}

/// A text and how it looks.
fn piece(text: &str, look: Look) -> (r: Piece)
    ensures
        r@ == piece_of(text@, look),
{
    Piece { text: text.to_owned(), look }
}

/// How far a download has come in percent, as far as the product can be
/// represented.
pub open spec fn percent(received: nat, total: nat) -> nat {
    let share = layout::at_most(received as int * 100, u64::MAX as int) / total as int;
    layout::at_most(share, 100) as nat
}

/// A number in three columns, or more if it needs them.
pub open spec fn padded(n: nat) -> Seq<char> {
    if n < 10 {
        "  "@ + text::decimal(n)
    } else if n < 100 {
        " "@ + text::decimal(n)
    } else {
        text::decimal(n)
    }
}

/// What is shown of how much of a download has arrived.
pub open spec fn progress_of(item: ItemModel) -> Seq<char> {
    match item.total {
        Some(total) if total > 0 => padded(percent(item.received as nat, total as nat)) + "% "@
            + sizes::bytes_text(item.received as nat),
        _ => if item.received > 0 {
            sizes::bytes_text(item.received as nat)
        } else {
            "-"@
        },
    }
}

/// A number in three columns, or more if it needs them.
fn padded_text(n: u64) -> (r: String)
    ensures
        r@ == padded(n as nat),
{
    if n < 10 {
        "  ".to_owned().concat(text::decimal_text(n).as_str())
    } else if n < 100 {
        " ".to_owned().concat(text::decimal_text(n).as_str())
    } else {
        text::decimal_text(n)
    }
}

/// What is shown of how much of a download has arrived.
pub fn progress_text(item: &DownloadItem) -> (r: String)
    ensures
        r@ == progress_of(item@),
{
    match item.total {
        Some(total) => if total > 0 {
            let product: u128 = item.received as u128 * 100;
            let capped: u64 = if product <= u64::MAX as u128 {
                product as u64
            } else {
                u64::MAX
            };
            let share: u64 = capped / total;
            let percent: u64 = if share < 100 {
                share
            } else {
                100
            };
            return padded_text(percent).concat("% ").concat(human_bytes(item.received).as_str());
        },
        None => {},
    }
    if item.received > 0 {
        human_bytes(item.received)
    } else {
        "-".to_owned()
    }
}

/// The row for a download.
pub open spec fn row_of(item: ItemModel) -> DownloadRowModel {
    let quality = match item.actual_quality {
        Some(quality) => quality,
        None => item.requested_quality,
    }.label();
    let (icon, status, tone) = match item.state {
        StateModel::Queued => ("."@, "等待并发槽位 - 请求"@ + quality, Tone::Muted),
        StateModel::Resolving => (">"@, "正在获取播放链接 - 请求"@ + quality, Tone::Warning),
        StateModel::Downloading => ("v"@, "正在下载 - 实际"@ + quality, Tone::Accent),
        StateModel::Completed(_, file_name) => (
            "*"@,
            "完成 - "@ + quality + " - "@ + match file_name {
                Some(name) => name,
                None => "文件"@,
            },
            Tone::Success,
        ),
        StateModel::Failed(error) => ("!"@, "失败 - "@ + error, Tone::Error),
    };
    DownloadRowModel {
        icon,
        title: "["@ + (match item.platform {
            Platform::Netease => "网"@,
            Platform::Tencent => "Q"@,
        }) + "] "@ + item.song.name,
        status,
        progress: progress_of(item),
        tone,
    }
}

/// The row for a download.
pub fn download_row(item: &DownloadItem) -> (r: DownloadRow)
    ensures
        r@ == row_of(item@),
{
    let quality = App::quality_name(
        match &item.actual_quality {
            Some(quality) => quality,
            None => &item.requested_quality,
        },
    );
    let (icon, status, tone): (&'static str, String, Tone) = match &item.state {
        DownloadState::Queued => (
            ".",
            "等待并发槽位 - 请求".to_owned().concat(quality),
            Tone::Muted,
        ),
        DownloadState::Resolving => (
            ">",
            "正在获取播放链接 - 请求".to_owned().concat(quality),
            Tone::Warning,
        ),
        DownloadState::Downloading => (
            "v",
            "正在下载 - 实际".to_owned().concat(quality),
            Tone::Accent,
        ),
        DownloadState::Completed(file) => (
            "*",
            "完成 - ".to_owned().concat(quality).concat(" - ").concat(
                match &file.file_name {
                    Some(name) => name.as_str(),
                    None => "文件",
                },
            ),
            Tone::Success,
        ),
        DownloadState::Failed(error) => (
            "!",
            "失败 - ".to_owned().concat(error.as_str()),
            Tone::Error,
        ),
    };
    let platform = match item.platform {
        Platform::Netease => "网",
        Platform::Tencent => "Q",
    };
    DownloadRow {
        icon,
        title: "[".to_owned().concat(platform).concat("] ").concat(item.song.name.as_str()),
        status,
        progress: progress_text(item),
        tone,
    }
}

/// The rows for the last downloads, the newest first.
pub open spec fn rows_of(downloads: Seq<ItemModel>) -> Seq<DownloadRowModel> {
    Seq::new(
        layout::at_most(downloads.len() as int, SHOWN_DOWNLOADS as int) as nat,
        |i: int| row_of(downloads[downloads.len() - 1 - i]),
    )
}

/// The rows for the last downloads, the newest first.
pub fn download_rows(app: &App) -> (r: Vec<DownloadRow>)
    ensures
        model::views(r@) == rows_of(app@.downloads),
{
    let n: usize = app.downloads.len();
    let mut rows: Vec<DownloadRow> = Vec::new();
    while rows.len() < SHOWN_DOWNLOADS && rows.len() < n
        invariant
            n == app.downloads.len(),
            rows.len() <= n,
            rows.len() <= SHOWN_DOWNLOADS,
            forall|i: int|
                0 <= i < rows.len() ==> (#[trigger] rows@[i])@ == row_of(
                    app@.downloads[n - 1 - i],
                ),
        decreases n - rows.len(),
    {
        let i: usize = n - 1 - rows.len();
        proof {
            assert(app@.downloads[i as int] == app.downloads@[i as int]@);
        }
        rows.push(download_row(&app.downloads[i]));
    }
    proof {
        assert(model::views(rows@) =~= rows_of(app@.downloads));
    }
    rows
}

/// The title of the list of downloads.
pub fn downloads_title(app: &App) -> (r: String)
    ensures
        r@ == app@.downloads_title(),
{
    " 下载任务 ".to_owned().concat(
        text::decimal_text(app.downloads.len() as u64).as_str(),
    ).concat(" - 保存到 ").concat(app.paths.download_dir.as_str()).concat(" ")
}

impl AppModel {
    /// The row for a search result.
    pub open spec fn result_row(self, i: int) -> ResultRowModel {
        let song = self.results[i];
        ResultRowModel {
            mark: if app_model::has_mark(self.marked, music::key_of(self.platform, song.id)) {
                "*"@
            } else {
                " "@
            },
            number: text::decimal(((self.page - 1) * PAGE_SIZE + i + 1) as nat),
            name: song.name,
            artists: download::artist_list(song),
            album: song.album.name,
        }
    }

    /// The title of the search results.
    pub open spec fn results_title(self) -> Seq<char> {
        let end = if self.results.len() == 0 {
            0
        } else {
            (self.page - 1) * PAGE_SIZE + self.results.len()
        };
        " 搜索结果 - 第 "@ + text::decimal(self.page as nat) + " 页 - 至 "@ + text::decimal(
            end as nat,
        ) + (if self.more {
            " - 还有下一页"@
        } else {
            " - 已到末页"@
        }) + " "@
    }

    /// The row of the search results that is selected, if there are any.
    pub open spec fn shown_selection(self) -> Option<int> {
        if self.results.len() > 0 {
            Some(self.selected_row)
        } else {
            None
        }
    }

    /// The title of the list of downloads.
    pub open spec fn downloads_title(self) -> Seq<char> {
        " 下载任务 "@ + text::decimal(self.downloads.len()) + " - 保存到 "@
            + self.paths.download_dir + " "@
    }

    /// The title of a login attempt.
    pub open spec fn login_title(self) -> Seq<char> {
        " "@ + self.platform.label() + " 扫码登录 "@
    }

    /// Whether the rows of the search results can be numbered.
    pub open spec fn can_number(self) -> bool {
        &&& self.page >= 1
        &&& self.results.len() > 0 ==> (self.page - 1) * PAGE_SIZE + self.results.len() <= u64::MAX
    }

    /// The line at the top.
    pub open spec fn header(self, now: int) -> Seq<PieceModel> {
        let netease = self.login_text(Platform::Netease, now);
        let tencent = self.login_text(Platform::Tencent, now);
        seq![
            piece_of(" dqn "@, Look::Badge),
            piece_of("  平台 "@, Look::Plain),
            piece_of(self.platform.label(), Look::Bold(Tone::Accent)),
            piece_of("  登录 网:"@, Look::Plain),
            piece_of(netease, Look::Toned(login_tone(netease))),
            piece_of(" Q:"@, Look::Plain),
            piece_of(tencent, Look::Toned(login_tone(tencent))),
            piece_of("  音质 "@, Look::Plain),
            piece_of(self.quality.label(), Look::Toned(Tone::Warning)),
            piece_of("  已选 "@ + text::decimal(self.marked.len()) + " 首"@, Look::Plain),
        ]
    }

    /// The search text, as it is shown at the given time of the clock.
    pub open spec fn search_line(self, milliseconds: nat) -> Seq<PieceModel> {
        let look = if self.input_mode == InputMode::Editing {
            Look::Bold(Tone::Accent)
        } else {
            Look::Toned(Tone::Muted)
        };
        seq![
            piece_of("> "@, look),
            piece_of(self.input, look),
            piece_of(
                if self.loading {
                    "  "@ + frame_of(milliseconds) + " 搜索中..."@
                } else {
                    seq![]
                },
                Look::Toned(Tone::Warning),
            ),
        ]
    }

    /// The title of the search text.
    pub open spec fn search_title(self) -> Seq<char> {
        if self.input_mode == InputMode::Editing {
            " 搜索(输入后 Enter,Esc 取消) "@
        } else {
            " 搜索(直接输入文字即可修改) "@
        }
    }

    /// How the notice looks after so many seconds.
    pub open spec fn notice_tone(self, age: int) -> Tone {
        if age > NOTICE_SECONDS {
            Tone::Muted
        } else {
            match self.notice.kind {
                NoticeKind::Info => Tone::Accent,
                NoticeKind::Success => Tone::Success,
                NoticeKind::Warning => Tone::Warning,
                NoticeKind::Error => Tone::Error,
            }
        }
    }

    /// The lines at the bottom: the warnings, the shortcuts and the notice.
    pub open spec fn footer(self, now: int, age: int) -> Seq<Seq<PieceModel>> {
        self.warnings(now).map_values(
            |warning: Seq<char>| seq![piece_of(warning, Look::Bold(Tone::Warning))],
        ).push(shortcuts()).push(
            seq![
                piece_of("提示:"@, Look::Toned(Tone::Muted)),
                piece_of(self.notice.text, Look::Toned(self.notice_tone(age))),
            ],
        )
    }
}

/// The footer has a row for each of its lines within its frame, and there are
/// never more warnings than platforms.
pub proof fn law_footer_has_room_for_all_warnings(app: AppModel, now: int, age: int)
    ensures
        app.warnings(now).len() <= 2,
        app.footer(now, age).len() + 2 == layout::footer_height(app.warnings(now).len() as int),
        forall|i: int|
            0 <= i < app.warnings(now).len() ==> (#[trigger] app.footer(now, age)[i]) == seq![
                piece_of(app.warnings(now)[i], Look::Bold(Tone::Warning)),
            ],
{
}

/// How the state of a login looks.
pub open spec fn login_tone(state: Seq<char>) -> Tone {
    if state == "已登录"@ {
        Tone::Success
    } else if state == "登录已过期"@ || state == "登录待确认"@ {
        Tone::Warning
    } else {
        Tone::Muted
    }
}

/// How the state of a login looks.
fn tone_of_login(state: &str) -> (r: Tone)
    ensures
        r == login_tone(state@),
{
    if text::same(state, "已登录") {
        Tone::Success
    } else if text::same(state, "登录已过期") || text::same(state, "登录待确认") {
        Tone::Warning
    } else {
        Tone::Muted
    }
}

/// The rows for the search results.
pub fn result_rows(app: &App) -> (r: Vec<ResultRow>)
    requires
        app@.can_number(),
    ensures
        r@.len() == app@.results.len(),
        forall|i: int| 0 <= i < r@.len() ==> (#[trigger] r@[i])@ == app@.result_row(i),
{
    let mut rows: Vec<ResultRow> = Vec::new();
    let mut i: usize = 0;
    while i < app.results.len()
        invariant
            app@.can_number(),
            i <= app.results.len(),
            rows.len() == i,
            forall|j: int| 0 <= j < i ==> (#[trigger] rows@[j])@ == app@.result_row(j),
        decreases app.results.len() - i,
    {
        let song = &app.results[i];
        proof {
            assert(app@.results[i as int] == app.results@[i as int]@);
        }
        let number: u64 = (app.page - 1) * PAGE_SIZE + i as u64 + 1;
        rows.push(
            ResultRow {
                mark: if app.is_marked(song) {
                    "*"
                } else {
                    " "
                },
                number: text::decimal_text(number),
                name: song.name.clone(),
                artists: artists_text(song),
                album: song.album.name.clone(),
            },
        );
        i = i + 1;
    }
    rows
}

/// The title of the search results.
pub fn results_title(app: &App) -> (r: String)
    requires
        app@.can_number(),
    ensures
        r@ == app@.results_title(),
{
    let end: u64 = if app.results.len() == 0 {
        0
    } else {
        (app.page - 1) * PAGE_SIZE + app.results.len() as u64
    };
    let next = if app.more {
        " - 还有下一页"
    } else {
        " - 已到末页"
    };
    " 搜索结果 - 第 ".to_owned().concat(text::decimal_text(app.page).as_str()).concat(
        " 页 - 至 ",
    ).concat(text::decimal_text(end).as_str()).concat(next).concat(" ")
}

/// The row of the search results that is selected.
pub fn selected_result(app: &App) -> (r: Option<usize>)
    ensures
        match r {
            Some(row) => app@.shown_selection() == Some(row as int),
            None => app@.shown_selection() is None,
        },
{
    if app.results.len() > 0 {
        Some(app.selected_row)
    } else {
        None
    }
}

/// The line at the top at the given time.
pub fn header_line_at(app: &App, now: i64) -> (r: Vec<Piece>)
    ensures
        model::views(r@) == app@.header(now as int),
{
    let netease = app.login_state_at(Platform::Netease, now);
    let tencent = app.login_state_at(Platform::Tencent, now);
    let count = "  已选 ".to_owned().concat(
        text::decimal_text(app.marked.len() as u64).as_str(),
    ).concat(" 首");
    let mut line: Vec<Piece> = Vec::new();
    line.push(piece(" dqn ", Look::Badge));
    line.push(piece("  平台 ", Look::Plain));
    line.push(piece(App::platform_label(app.platform), Look::Bold(Tone::Accent)));
    line.push(piece("  登录 网:", Look::Plain));
    line.push(piece(netease, Look::Toned(tone_of_login(netease))));
    line.push(piece(" Q:", Look::Plain));
    line.push(piece(tencent, Look::Toned(tone_of_login(tencent))));
    line.push(piece("  音质 ", Look::Plain));
    line.push(piece(app.quality_label(), Look::Toned(Tone::Warning)));
    line.push(piece(count.as_str(), Look::Plain));
    proof {
        assert(model::views(line@) =~= app@.header(now as int));
    }
    line
}

/// The line at the top.
pub fn header_line(app: &App) -> (r: Vec<Piece>)
    ensures
        exists|now: i64| now >= 0 && model::views(r@) == #[trigger] app@.header(now as int),
{
    header_line_at(app, unix_now())
}

/// The frame of the spinner at the given time of the clock.
pub open spec fn frame_of(milliseconds: nat) -> Seq<char> {
    let frame = milliseconds as int / SPINNER_MILLISECONDS as int % 4;
    if frame == 0 {
        "|"@
    } else if frame == 1 {
        "/"@
    } else if frame == 2 {
        "-"@
    } else {
        "\\"@
    }
}

/// The frame of the spinner at the given time of the clock.
pub fn spinner_at(milliseconds: u128) -> (r: &'static str)
    ensures
        r@ == frame_of(milliseconds as nat),
{
    let frame: u128 = milliseconds / SPINNER_MILLISECONDS % 4;
    if frame == 0 {
        "|"
    } else if frame == 1 {
        "/"
    } else if frame == 2 {
        "-"
    } else {
        "\\"
    }
}

/// The milliseconds that the clock shows; 0 if it is before the Unix epoch.
fn milliseconds_now() -> (r: u128) {
    milliseconds_read(clock_milliseconds())
}

/// The frame of the spinner.
pub fn spinner() -> (r: &'static str)
    ensures
        exists|milliseconds: u128| r@ == #[trigger] frame_of(milliseconds as nat),
{
    spinner_at(milliseconds_now())
}

/// The search text, as it is shown at the given time of the clock.
pub fn search_line_at(app: &App, milliseconds: u128) -> (r: Vec<Piece>)
    ensures
        model::views(r@) == app@.search_line(milliseconds as nat),
{
    let look = if app.input_mode == InputMode::Editing {
        Look::Bold(Tone::Accent)
    } else {
        Look::Toned(Tone::Muted)
    };
    let loading = if app.loading {
        "  ".to_owned().concat(spinner_at(milliseconds)).concat(" 搜索中...")
    } else {
        String::new()
    };
    let mut line: Vec<Piece> = Vec::new();
    line.push(piece("> ", look));
    line.push(piece(app.input.as_str(), look));
    line.push(piece(loading.as_str(), Look::Toned(Tone::Warning)));
    proof {
        assert(model::views(line@) =~= app@.search_line(milliseconds as nat));
    }
    line
}

/// The search text, as it is shown.
pub fn search_line(app: &App) -> (r: Vec<Piece>)
    ensures
        exists|milliseconds: u128|
            model::views(r@) == #[trigger] app@.search_line(milliseconds as nat),
{
    search_line_at(app, milliseconds_now())
}

/// The title of the search text.
pub fn search_title(app: &App) -> (r: &'static str)
    ensures
        r@ == app@.search_title(),
{
    if app.input_mode == InputMode::Editing {
        " 搜索(输入后 Enter,Esc 取消) "
    } else {
        " 搜索(直接输入文字即可修改) "
    }
}

/// The keys that are always in view.
pub open spec fn shortcuts() -> Seq<PieceModel> {
    seq![
        piece_of("Ins"@, Look::Bold(Tone::Accent)),
        piece_of("选择 "@, Look::Plain),
        piece_of("^A"@, Look::Bold(Tone::Accent)),
        piece_of("全选 "@, Look::Plain),
        piece_of("<>"@, Look::Bold(Tone::Accent)),
        piece_of("翻页 "@, Look::Plain),
        piece_of("^D"@, Look::Bold(Tone::Success)),
        piece_of("下载 "@, Look::Plain),
        piece_of("^P"@, Look::Bold(Tone::Accent)),
        piece_of("平台 "@, Look::Plain),
        piece_of("^T"@, Look::Bold(Tone::Warning)),
        piece_of("音质 "@, Look::Plain),
        piece_of("^L"@, Look::Bold(Tone::Warning)),
        piece_of("登录 "@, Look::Plain),
        piece_of("^H"@, Look::Bold(Tone::Accent)),
        piece_of("帮助 "@, Look::Plain),
        piece_of("^Q"@, Look::Bold(Tone::Error)),
        piece_of("退出"@, Look::Plain),
    ]
}

/// The keys that are always in view.
fn shortcut_line() -> (r: Vec<Piece>)
    ensures
        model::views(r@) == shortcuts(),
{
    let mut line: Vec<Piece> = Vec::new();
    line.push(piece("Ins", Look::Bold(Tone::Accent)));
    line.push(piece("选择 ", Look::Plain));
    line.push(piece("^A", Look::Bold(Tone::Accent)));
    line.push(piece("全选 ", Look::Plain));
    line.push(piece("<>", Look::Bold(Tone::Accent)));
    line.push(piece("翻页 ", Look::Plain));
    line.push(piece("^D", Look::Bold(Tone::Success)));
    line.push(piece("下载 ", Look::Plain));
    line.push(piece("^P", Look::Bold(Tone::Accent)));
    line.push(piece("平台 ", Look::Plain));
    line.push(piece("^T", Look::Bold(Tone::Warning)));
    line.push(piece("音质 ", Look::Plain));
    line.push(piece("^L", Look::Bold(Tone::Warning)));
    line.push(piece("登录 ", Look::Plain));
    line.push(piece("^H", Look::Bold(Tone::Accent)));
    line.push(piece("帮助 ", Look::Plain));
    line.push(piece("^Q", Look::Bold(Tone::Error)));
    line.push(piece("退出", Look::Plain));
    proof {
        assert(model::views(line@) =~= shortcuts());
    }
    line
}

/// How the notice looks after so many seconds.
pub fn notice_tone(app: &App, age: u64) -> (r: Tone)
    ensures
        r == app@.notice_tone(age as int),
{
    if age > NOTICE_SECONDS {
        Tone::Muted
    } else {
        match app.notice.kind {
            NoticeKind::Info => Tone::Accent,
            NoticeKind::Success => Tone::Success,
            NoticeKind::Warning => Tone::Warning,
            NoticeKind::Error => Tone::Error,
        }
    }
}

/// Lines, each by the views of its pieces.
pub open spec fn line_views(lines: Seq<Vec<Piece>>) -> Seq<Seq<PieceModel>> {
    lines.map_values(|line: Vec<Piece>| model::views(line@))
}

/// The lines at the bottom at the given time, with a notice of the given age.
pub fn footer_lines_at(app: &App, now: i64, age: u64) -> (r: Vec<Vec<Piece>>)
    ensures
        line_views(r@) == app@.footer(now as int, age as int),
{
    let warnings = app.cookie_warnings_at(now);
    let ghost texts = app@.warnings(now as int);
    let mut lines: Vec<Vec<Piece>> = Vec::new();
    let mut i: usize = 0;
    while i < warnings.len()
        invariant
            model::views(warnings@) == texts,
            i <= warnings.len(),
            lines.len() == i,
            forall|j: int|
                0 <= j < i ==> model::views((#[trigger] lines@[j])@) == seq![
                    piece_of(texts[j], Look::Bold(Tone::Warning)),
                ],
        decreases warnings.len() - i,
    {
        let mut line: Vec<Piece> = Vec::new();
        line.push(piece(warnings[i].as_str(), Look::Bold(Tone::Warning)));
        proof {
            assert(texts[i as int] == warnings@[i as int]@);
            assert(model::views(line@) =~= seq![
                piece_of(texts[i as int], Look::Bold(Tone::Warning)),
            ]);
        }
        lines.push(line);
        i = i + 1;
    }
    lines.push(shortcut_line());
    let mut notice: Vec<Piece> = Vec::new();
    notice.push(piece("提示:", Look::Toned(Tone::Muted)));
    notice.push(piece(app.notice.text.as_str(), Look::Toned(notice_tone(app, age))));
    proof {
        assert(model::views(notice@) =~= app@.footer(now as int, age as int).last());
    }
    lines.push(notice);
    proof {
        assert(line_views(lines@) =~= app@.footer(now as int, age as int));
    }
    lines
}

/// `Instant::elapsed`, in whole seconds: the time since an instant. Nothing is
/// claimed of the result.
#[verifier::external_body]
fn seconds_since(instant: &Instant) -> (r: u64) {
    instant.elapsed().as_secs()
}

/// The lines at the bottom.
pub fn footer_lines(app: &App) -> (r: Vec<Vec<Piece>>)
    ensures
        exists|now: i64, age: u64|
            now >= 0 && line_views(r@) == #[trigger] app@.footer(now as int, age as int),
{
    footer_lines_at(app, unix_now(), seconds_since(&app.notice.changed_at))
}

/// The lines of the help.
pub open spec fn help_of() -> Seq<PieceModel> {
    seq![
        piece_of("dqn 操作帮助"@, Look::Bold(Tone::Accent)),
        piece_of(""@, Look::Plain),
        piece_of("普通文字键     直接编辑搜索词;Enter 搜索;Esc 取消编辑"@, Look::Plain),
        piece_of("Backspace/Del  修改或清空搜索词;Ctrl+U 也可清空"@, Look::Plain),
        piece_of("Up/Down        移动当前行"@, Look::Plain),
        piece_of("Insert         选择/取消当前歌曲"@, Look::Plain),
        piece_of("Ctrl+A         选择/取消当前页全部歌曲"@, Look::Plain),
        piece_of("Left/Right     上一页/下一页;Ctrl+R 刷新当前页"@, Look::Plain),
        piece_of("Ctrl+P / Tab   在网易云音乐与 QQ 音乐间切换"@, Look::Plain),
        piece_of("Ctrl+T / Ctrl+X 循环切换下载音质"@, Look::Plain),
        piece_of("Ctrl+D         下载已选歌曲;未多选时下载当前行"@, Look::Plain),
        piece_of("F8             清理完成和失败的下载记录"@, Look::Plain),
        piece_of("Ctrl+L         为当前平台扫码登录"@, Look::Plain),
        piece_of("Ctrl+Q         安全退出;Ctrl+C 强制退出"@, Look::Plain),
        piece_of(""@, Look::Plain),
        piece_of(
            "下载最多 3 路并发;受版权或会员限制的歌曲可能无可用链接."@,
            Look::Toned(Tone::Warning),
        ),
        piece_of("按 Esc / F1 / Ctrl+H 关闭帮助"@, Look::Plain),
    ]
}

/// The lines of the help.
pub fn help_lines() -> (r: Vec<Piece>)
    ensures
        model::views(r@) == help_of(),
{
    let mut lines: Vec<Piece> = Vec::new();
    lines.push(piece("dqn 操作帮助", Look::Bold(Tone::Accent)));
    lines.push(piece("", Look::Plain));
    lines.push(
        piece("普通文字键     直接编辑搜索词;Enter 搜索;Esc 取消编辑", Look::Plain),
    );
    lines.push(piece("Backspace/Del  修改或清空搜索词;Ctrl+U 也可清空", Look::Plain));
    lines.push(piece("Up/Down        移动当前行", Look::Plain));
    lines.push(piece("Insert         选择/取消当前歌曲", Look::Plain));
    lines.push(piece("Ctrl+A         选择/取消当前页全部歌曲", Look::Plain));
    lines.push(piece("Left/Right     上一页/下一页;Ctrl+R 刷新当前页", Look::Plain));
    lines.push(piece("Ctrl+P / Tab   在网易云音乐与 QQ 音乐间切换", Look::Plain));
    lines.push(piece("Ctrl+T / Ctrl+X 循环切换下载音质", Look::Plain));
    lines.push(piece("Ctrl+D         下载已选歌曲;未多选时下载当前行", Look::Plain));
    lines.push(piece("F8             清理完成和失败的下载记录", Look::Plain));
    lines.push(piece("Ctrl+L         为当前平台扫码登录", Look::Plain));
    lines.push(piece("Ctrl+Q         安全退出;Ctrl+C 强制退出", Look::Plain));
    lines.push(piece("", Look::Plain));
    lines.push(
        piece(
            "下载最多 3 路并发;受版权或会员限制的歌曲可能无可用链接.",
            Look::Toned(Tone::Warning),
        ),
    );
    lines.push(piece("按 Esc / F1 / Ctrl+H 关闭帮助", Look::Plain));
    proof {
        assert(model::views(lines@) =~= help_of());
    }
    lines
}

/// How a login phase looks.
pub open spec fn phase_look(phase: LoginPhase) -> Look {
    match phase {
        LoginPhase::Creating | LoginPhase::WaitingScan => Look::Toned(Tone::Accent),
        LoginPhase::WaitingConfirm => Look::Bold(Tone::Success),
        LoginPhase::Expired => Look::Toned(Tone::Warning),
        LoginPhase::Failed => Look::Toned(Tone::Error),
    }
}

/// How a login phase looks.
fn look_of_phase(phase: LoginPhase) -> (r: Look)
    ensures
        r == phase_look(phase),
{
    match phase {
        LoginPhase::Creating => Look::Toned(Tone::Accent),
        LoginPhase::WaitingScan => Look::Toned(Tone::Accent),
        LoginPhase::WaitingConfirm => Look::Bold(Tone::Success),
        LoginPhase::Expired => Look::Toned(Tone::Warning),
        LoginPhase::Failed => Look::Toned(Tone::Error),
    }
}

/// The lines of a code.
pub open spec fn code_pieces(lines: Seq<Seq<char>>) -> Seq<PieceModel> {
    lines.map_values(|line: Seq<char>| piece_of(line, Look::Code))
}

/// What is said if a code does not fit.
pub open spec fn too_small_pieces() -> Seq<PieceModel> {
    seq![
        piece_of(
            "当前终端不足以完整显示二维码,请放大终端窗口后重试."@,
            Look::Toned(Tone::Warning),
        ),
        piece_of("为保证可扫描,不会显示残缺或缩放后的二维码."@, Look::Plain),
    ]
}

/// The lines that show a login attempt in the given way.
pub open spec fn login_pieces(overlay: OverlayModel, shown: LoginLayout) -> Seq<PieceModel> {
    let code = match shown {
        LoginLayout::Compact(_) | LoginLayout::WithCode(_) => code_pieces(overlay.qr_lines),
        LoginLayout::WithoutCode(_) => if overlay.qr_lines.len() > 0 {
            too_small_pieces()
        } else {
            seq![]
        },
    };
    if shown is Compact {
        code
    } else {
        seq![
            piece_of(overlay.detail, phase_look(overlay.phase)),
            piece_of(""@, Look::Plain),
        ] + code + seq![
            piece_of(""@, Look::Plain),
            piece_of("Esc 关闭 - Ctrl+L 重新生成"@, Look::Toned(Tone::Muted)),
        ]
    }
}

/// The lines that show a login attempt in the given way.
pub fn login_lines(overlay: &LoginOverlay, shown: LoginLayout) -> (r: Vec<Piece>)
    ensures
        model::views(r@) == login_pieces(overlay@, shown),
{
    let mut lines: Vec<Piece> = Vec::new();
    let (framed, code): (bool, bool) = match shown {
        LoginLayout::Compact(_) => (false, true),
        LoginLayout::WithCode(_) => (true, true),
        LoginLayout::WithoutCode(_) => (true, false),
    };
    if framed {
        lines.push(piece(overlay.detail.as_str(), look_of_phase(overlay.phase)));
        lines.push(piece("", Look::Plain));
    }
    let ghost start = lines@;
    if code {
        let mut i: usize = 0;
        while i < overlay.qr_lines.len()
            invariant
                i <= overlay.qr_lines.len(),
                lines.len() == start.len() + i,
                forall|j: int| 0 <= j < start.len() ==> #[trigger] lines@[j] == start[j],
                forall|j: int|
                    start.len() <= j < lines.len() ==> (#[trigger] lines@[j])@ == piece_of(
                        overlay@.qr_lines[j - start.len()],
                        Look::Code,
                    ),
            decreases overlay.qr_lines.len() - i,
        {
            proof {
                assert(overlay@.qr_lines[i as int] == overlay.qr_lines@[i as int]@);
            }
            lines.push(piece(overlay.qr_lines[i].as_str(), Look::Code));
            i = i + 1;
        }
        proof {
            assert(model::views(lines@) =~= model::views(start) + code_pieces(overlay@.qr_lines));
        }
    } else if overlay.qr_lines.len() > 0 {
        lines.push(
            piece(
                "当前终端不足以完整显示二维码,请放大终端窗口后重试.",
                Look::Toned(Tone::Warning),
            ),
        );
        lines.push(piece("为保证可扫描,不会显示残缺或缩放后的二维码.", Look::Plain));
        proof {
            assert(model::views(lines@) =~= model::views(start) + too_small_pieces());
        }
    }
    if framed {
        lines.push(piece("", Look::Plain));
        lines.push(piece("Esc 关闭 - Ctrl+L 重新生成", Look::Toned(Tone::Muted)));
    }
    proof {
        assert(model::views(lines@) =~= login_pieces(overlay@, shown));
    }
    lines
}

/// The title of a login attempt.
pub fn login_title(app: &App) -> (r: String)
    ensures
        r@ == app@.login_title(),
{
    " ".to_owned().concat(App::platform_label(app.platform)).concat(" 扫码登录 ")
}

/// What is said if the screen is too small for the main view.
pub fn too_small_text() -> (r: &'static str)
    ensures
        r@ == "终端窗口太小\n请调整到至少 58 x 18 后继续"@,
{
    "终端窗口太小\n请调整到至少 58 x 18 后继续"
}

} // verus!
