//! What is shown.

use std::time::{Duration, Instant};

use ratatui::text::Line;

use dqn::app::{
    App, AppMessage, DownloadItem, DownloadState, InputMode, LoginOverlay, LoginPhase, NoticeKind,
    Reaction, SavedFile,
};
use dqn::layout::{
    centered, login_layout, row_heights, screen, Area, LoginLayout, Screen,
};
use dqn::music::{
    LoginToken, NeteaseLoginToken, Platform, Song, SongAlbum, SongArtist, SongQuality,
    TencentLoginToken,
};
use dqn::sizes::human_bytes;
use dqn::storage::{AppPaths, CookieFile, SaveFailure};
use dqn::ui::{
    download_row, download_rows, downloads_title, footer_lines, footer_lines_at, header_line,
    help_lines, login_lines, login_title, notice_tone, progress_text, result_rows, results_title,
    search_line, search_line_at, search_title, selected_result, spinner, spinner_at,
    too_small_text, Look, Piece, Tone,
};

fn cookie_test_app() -> App {
    App::new(
        AppPaths {
            cookie_file: "__dqn_ui_test_cookie.json".to_owned(),
            download_dir: "test-downloads".to_owned(),
        },
        CookieFile::Missing,
    )
}

fn area(width: u16, height: u16) -> Area {
    Area {
        x: 0,
        y: 0,
        width,
        height,
    }
}

fn text_of(pieces: &[Piece]) -> String {
    pieces.iter().map(|piece| piece.text.as_str()).collect()
}

/// What fits of a text between the two sides of a frame.
fn clipped(text: String, width: u16) -> String {
    let mut shown = String::new();
    let mut columns = 0;
    for c in text.chars() {
        columns += Line::from(c.to_string()).width();
        if columns > width as usize - 2 {
            break;
        }
        shown.push(c);
    }
    shown
}

/// The texts of a screen, line by line, each as far as it fits.
fn render_text(app: &App, width: u16, height: u16) -> String {
    let mut lines = Vec::new();
    match screen(app, area(width, height)) {
        Screen::Login => {
            let overlay = app.login_overlay.as_ref().unwrap();
            let layout = login_layout(overlay, area(width, height));
            for piece in login_lines(overlay, layout) {
                lines.push(piece.text);
            }
        }
        Screen::TooSmall => lines.push(too_small_text().to_owned()),
        Screen::Main => {
            lines.push(text_of(&header_line(app)));
            lines.push(search_title(app).to_owned());
            lines.push(text_of(&search_line(app)));
            lines.push(results_title(app));
            for row in result_rows(app) {
                lines.push(format!("{}{}{}", row.mark, row.number, row.name));
            }
            lines.push(downloads_title(app));
            for row in download_rows(app) {
                lines.push(format!("{}{}{}", row.icon, row.title, row.status));
            }
            for line in footer_lines(app) {
                lines.push(text_of(&line));
            }
        }
    }
    lines
        .into_iter()
        .map(|line| clipped(line, width))
        .collect::<Vec<_>>()
        .join("\n")
}

fn set_test_cookie(app: &mut App, expires_at: i64) {
    app.cookies.set(LoginToken::Netease(NeteaseLoginToken::new(
        "test",
        "test",
        "test",
        Some(expires_at),
    )));
}

/// Takes in a message; logins cannot be stored.
fn deliver(app: &mut App, message: AppMessage) {
    if let Reaction::Save(reason) = app.handle_message(message) {
        let error = SaveFailure::NotWritten.message(&app.paths.cookie_file);
        app.finish_save(reason, Err(error));
    }
}

#[test]
fn expired_cookie_warning_survives_other_notices_and_redraws() {
    let mut app = cookie_test_app();
    set_test_cookie(&mut app, i64::MAX);
    assert!(app.cookie_warnings().is_empty());

    // The next redraw must detect expiry without a startup refresh or an API error.
    set_test_cookie(&mut app, 1);
    app.set_notice(NoticeKind::Success, "搜索成功");
    app.notice.changed_at = Instant::now() - Duration::from_secs(60);
    let screen = render_text(&app, 80, 24);
    assert!(screen.contains("Cookie 已过期"));
    assert!(screen.contains("Ctrl+L"));
    assert!(screen.contains("搜索成功"));
    assert!(app.cookies.token_for(Platform::Netease).is_none());
    assert_eq!(
        footer_lines(&app).last().unwrap()[1].look,
        Look::Toned(Tone::Muted)
    );
}

#[test]
fn refresh_failure_is_persistent_without_claiming_network_failure_is_expiry() {
    let mut app = cookie_test_app();
    set_test_cookie(&mut app, i64::MAX);
    deliver(
        &mut app,
        AppMessage::CookieRefreshFinished {
            platform: Platform::Netease,
            cookie_revision: 0,
            result: Err("连接超时".to_owned()),
        },
    );
    assert_eq!(
        app.notice.text,
        "网易云音乐 Cookie 自动更新失败:连接超时;请按 Ctrl+L 重新登录"
    );
    app.set_notice(NoticeKind::Success, "下载完成");
    assert_eq!(app.login_state(Platform::Netease), "登录待确认");
    assert!(app.cookies.token_for(Platform::Netease).is_some());
    let screen = render_text(&app, 80, 24);
    assert!(screen.contains("Cookie 刷新失败"));
    assert!(!screen.contains("Cookie 已过期"));
}

#[test]
fn both_platform_warnings_fit_and_explain_how_to_switch_platform() {
    let mut app = cookie_test_app();
    set_test_cookie(&mut app, 1);
    app.cookies.set(LoginToken::Tencent(TencentLoginToken::new(
        1,
        "test",
        "test",
        "test",
        Some(1),
        1,
    )));
    for (width, height) in [(58, 18), (58, 24), (80, 24)] {
        let screen = render_text(&app, width, height);
        assert_eq!(screen.matches("Cookie 已过期").count(), 2);
        assert!(screen.contains("Ctrl+P"));
        assert_eq!(screen.matches("Ctrl+L").count(), 2);
    }
    for platform in [Platform::Netease, Platform::Tencent] {
        app.platform = platform;
        for warning in app.cookie_warnings() {
            assert!(Line::from(warning).width() <= 56);
        }
    }
    app.platform = Platform::Netease;
    // The frame takes two rows of the footer.
    assert_eq!(row_heights(2), (3, 3, 7, 6));
    assert_eq!(footer_lines(&app).len(), 4);
    assert_eq!(
        app.cookie_warnings(),
        [
            "网易云 Cookie 已过期;Ctrl+L 重新登录",
            "QQ音乐 Cookie 已过期;Ctrl+P 切换后 Ctrl+L 登录"
        ]
    );
}

#[test]
fn successful_refresh_clears_only_its_platform_warning() {
    let mut app = cookie_test_app();
    for platform in [Platform::Netease, Platform::Tencent] {
        deliver(
            &mut app,
            AppMessage::CookieRefreshFinished {
                platform,
                cookie_revision: 0,
                result: Err("刷新失败".to_owned()),
            },
        );
    }
    deliver(
        &mut app,
        AppMessage::CookieRefreshFinished {
            platform: Platform::Netease,
            cookie_revision: 0,
            result: Ok(LoginToken::Netease(NeteaseLoginToken::new(
                "new",
                "new",
                "new",
                Some(i64::MAX),
            ))),
        },
    );
    assert_eq!(app.login_state(Platform::Netease), "已登录");
    let warnings = app.cookie_warnings();
    assert_eq!(warnings.len(), 1);
    assert!(warnings[0].contains("QQ音乐"));
}

#[test]
fn successful_login_clears_expiry_and_refresh_failure_warning() {
    let mut app = cookie_test_app();
    set_test_cookie(&mut app, 1);
    deliver(
        &mut app,
        AppMessage::CookieRefreshFinished {
            platform: Platform::Netease,
            cookie_revision: 0,
            result: Err("刷新失败".to_owned()),
        },
    );
    app.login_overlay = Some(LoginOverlay {
        request_id: 1,
        phase: LoginPhase::WaitingConfirm,
        qr_lines: Vec::new(),
        detail: String::new(),
    });
    deliver(
        &mut app,
        AppMessage::LoginSuccess {
            request_id: 1,
            token: LoginToken::Netease(NeteaseLoginToken::new(
                "new",
                "new",
                "new",
                Some(i64::MAX),
            )),
        },
    );
    assert!(app.cookie_warnings().is_empty());
    assert_eq!(app.login_state(Platform::Netease), "已登录");
}

fn code_overlay(lines: usize, phase: LoginPhase) -> LoginOverlay {
    LoginOverlay {
        request_id: 1,
        phase,
        qr_lines: vec!["████".to_owned(); lines],
        detail: "等待扫码".to_owned(),
    }
}

#[test]
fn compact_qr_keeps_its_first_and_last_rows_on_an_80_by_24_terminal() {
    let overlay = code_overlay(21, LoginPhase::WaitingScan);
    let layout = login_layout(&overlay, area(80, 24));
    let x = (80 - 4) / 2;
    let first_y = (24 - 21) / 2;
    let last_y = first_y + 20;

    let LoginLayout::Compact(shown) = layout else {
        panic!("{layout:?}");
    };
    let lines = login_lines(&overlay, layout);
    assert_eq!((shown.x, shown.y), (x, first_y));
    assert_eq!(shown.y + shown.height - 1, last_y);
    assert_eq!(lines.len(), 21);
    assert_eq!(lines[0].text.chars().next(), Some('█'));
    assert_eq!(lines[20].text.chars().next(), Some('█'));
    assert_eq!(lines[0].look, Look::Code);
}

#[test]
fn login_qr_has_priority_over_the_minimum_main_window_size() {
    let mut app = cookie_test_app();
    assert!(render_text(&app, 50, 17).contains('终'));

    app.login_overlay = Some(code_overlay(15, LoginPhase::WaitingScan));

    let content = render_text(&app, 50, 17);
    assert!(content.contains('█'));
    assert!(!content.contains('终'));
}

#[test]
fn code_is_framed_where_there_is_room() {
    let overlay = code_overlay(10, LoginPhase::WaitingScan);
    let layout = login_layout(&overlay, area(100, 40));
    assert_eq!(
        layout,
        LoginLayout::WithCode(Area {
            x: 16,
            y: 11,
            width: 68,
            height: 18
        })
    );
    let lines = login_lines(&overlay, layout);
    assert_eq!(lines.len(), 14);
    assert_eq!(lines[0].text, "等待扫码");
    assert_eq!(lines[0].look, Look::Toned(Tone::Accent));
    assert_eq!(lines[2].text, "████");
    assert_eq!(lines[13].text, "Esc 关闭 - Ctrl+L 重新生成");
}

#[test]
fn code_that_does_not_fit_is_not_shown() {
    let overlay = code_overlay(30, LoginPhase::WaitingScan);
    let layout = login_layout(&overlay, area(80, 24));
    assert_eq!(
        layout,
        LoginLayout::WithoutCode(Area {
            x: 6,
            y: 6,
            width: 68,
            height: 12
        })
    );
    let text: Vec<String> = login_lines(&overlay, layout)
        .into_iter()
        .map(|piece| piece.text)
        .collect();
    assert!(!text.concat().contains('█'));
    assert!(text.contains(&"当前终端不足以完整显示二维码,请放大终端窗口后重试.".to_owned()));
    assert!(text.contains(&"为保证可扫描,不会显示残缺或缩放后的二维码.".to_owned()));
    // Only while a scan is waited for is the code shown alone.
    let overlay = code_overlay(21, LoginPhase::Expired);
    assert!(matches!(
        login_layout(&overlay, area(80, 24)),
        LoginLayout::WithoutCode(_)
    ));
    for (phase, look) in [
        (LoginPhase::Creating, Look::Toned(Tone::Accent)),
        (LoginPhase::WaitingConfirm, Look::Bold(Tone::Success)),
        (LoginPhase::Expired, Look::Toned(Tone::Warning)),
        (LoginPhase::Failed, Look::Toned(Tone::Error)),
    ] {
        let overlay = code_overlay(0, phase);
        let lines = login_lines(&overlay, login_layout(&overlay, area(80, 24)));
        assert_eq!(lines[0].look, look);
        assert_eq!(lines.len(), 4);
    }
    let mut app = cookie_test_app();
    app.platform = Platform::Tencent;
    assert_eq!(login_title(&app), " QQ 音乐 扫码登录 ");
}

#[test]
fn popups_stay_inside_their_area() {
    for (width, height) in [(1, 1), (2, 3), (72, 22), (80, 24), (200, 60)] {
        let outer = Area {
            x: 3,
            y: 4,
            width,
            height,
        };
        let popup = centered(outer, 72, 22);
        assert!(popup.width >= 1 && popup.height >= 1);
        assert!(popup.x >= 3 && popup.x + popup.width <= 3 + width);
        assert!(popup.y >= 4 && popup.y + popup.height <= 4 + height);
    }
    assert_eq!(
        centered(area(80, 24), 72, 22),
        Area {
            x: 4,
            y: 1,
            width: 72,
            height: 22
        }
    );
}

#[test]
fn main_view_needs_room() {
    let app = cookie_test_app();
    assert_eq!(screen(&app, area(58, 18)), Screen::Main);
    assert_eq!(screen(&app, area(57, 18)), Screen::TooSmall);
    assert_eq!(screen(&app, area(58, 17)), Screen::TooSmall);
}

fn reference_bytes(bytes: u64) -> String {
    let units = ["B", "KiB", "MiB", "GiB"];
    let mut value = bytes as f64;
    let mut unit = 0usize;
    while value >= 1024.0 && unit < units.len() - 1 {
        value /= 1024.0;
        unit += 1;
    }
    if unit == 0 {
        format!("{bytes} B")
    } else {
        format!("{value:.1} {}", units[unit])
    }
}

#[test]
fn sizes_are_those_of_floating_point_arithmetic() {
    let mut numbers: Vec<u64> = (0..70_000).collect();
    for shift in 0..64 {
        let base = 1u64 << shift;
        for offset in 0..200 {
            numbers.push(base.wrapping_add(offset));
            numbers.push(base.wrapping_sub(offset));
            numbers.push(base.wrapping_add(base / 20 * (offset % 20)));
            numbers.push(base.wrapping_mul(offset));
        }
    }
    let mut state = 1u64;
    for step in 0..200_000u32 {
        state = state
            .wrapping_mul(6_364_136_223_846_793_005)
            .wrapping_add(1_442_695_040_888_963_407);
        numbers.push(state >> (step % 60));
    }
    for bytes in numbers {
        assert_eq!(human_bytes(bytes), reference_bytes(bytes), "{bytes}");
    }
    assert_eq!(human_bytes(0), "0 B");
    assert_eq!(human_bytes(1023), "1023 B");
    assert_eq!(human_bytes(1024), "1.0 KiB");
    assert_eq!(human_bytes(1536), "1.5 KiB");
    assert_eq!(human_bytes(5 * 1024 * 1024), "5.0 MiB");
    assert_eq!(human_bytes(u64::MAX), "17179869184.0 GiB");
}

fn item(state: DownloadState, received: u64, total: Option<u64>) -> DownloadItem {
    DownloadItem {
        job_id: 1,
        key: "N:1".to_owned(),
        platform: Platform::Netease,
        song: Song {
            id: "1".to_owned(),
            name: "歌".to_owned(),
            pic_url: String::new(),
            artists: vec![
                SongArtist {
                    id: "1".to_owned(),
                    name: "甲".to_owned(),
                },
                SongArtist {
                    id: "2".to_owned(),
                    name: "乙".to_owned(),
                },
            ],
            album: SongAlbum {
                id: "3".to_owned(),
                name: "专辑".to_owned(),
            },
        },
        requested_quality: SongQuality::Lossless,
        actual_quality: None,
        received,
        total,
        state,
    }
}

#[test]
fn progress_is_a_share_where_the_size_is_known() {
    let text = |received, total| progress_text(&item(DownloadState::Downloading, received, total));
    assert_eq!(text(0, None), "-");
    assert_eq!(text(0, Some(0)), "-");
    assert_eq!(text(2048, None), "2.0 KiB");
    assert_eq!(text(2048, Some(0)), "2.0 KiB");
    assert_eq!(text(0, Some(10)), "  0% 0 B");
    assert_eq!(text(5, Some(10)), " 50% 5 B");
    assert_eq!(text(10, Some(10)), "100% 10 B");
    assert_eq!(text(99, Some(10)), "100% 99 B");
    assert_eq!(text(u64::MAX, Some(u64::MAX)), "  1% 17179869184.0 GiB");
}

#[test]
fn downloads_are_shown_by_state() {
    let row = |state| download_row(&item(state, 0, None));
    let shown = row(DownloadState::Queued);
    assert_eq!(
        (shown.icon, shown.status.as_str(), shown.tone),
        (".", "等待并发槽位 - 请求无损", Tone::Muted)
    );
    assert_eq!(shown.title, "[网] 歌");
    let shown = row(DownloadState::Resolving);
    assert_eq!(
        (shown.icon, shown.status.as_str(), shown.tone),
        (">", "正在获取播放链接 - 请求无损", Tone::Warning)
    );
    let mut actual = item(DownloadState::Downloading, 0, None);
    actual.actual_quality = Some(SongQuality::Hires);
    actual.platform = Platform::Tencent;
    let shown = download_row(&actual);
    assert_eq!(
        (shown.icon, shown.status.as_str(), shown.tone),
        ("v", "正在下载 - 实际Hi-Res", Tone::Accent)
    );
    assert_eq!(shown.title, "[Q] 歌");
    let shown = row(DownloadState::Completed(SavedFile {
        path: "dir/f.mp3".to_owned(),
        file_name: Some("f.mp3".to_owned()),
    }));
    assert_eq!(
        (shown.icon, shown.status.as_str(), shown.tone),
        ("*", "完成 - 无损 - f.mp3", Tone::Success)
    );
    let shown = row(DownloadState::Completed(SavedFile {
        path: "dir".to_owned(),
        file_name: None,
    }));
    assert_eq!(shown.status, "完成 - 无损 - 文件");
    let shown = row(DownloadState::Failed("why".to_owned()));
    assert_eq!(
        (shown.icon, shown.status.as_str(), shown.tone),
        ("!", "失败 - why", Tone::Error)
    );
}

#[test]
fn last_downloads_are_shown_newest_first() {
    let mut app = cookie_test_app();
    for id in 1..=6 {
        let mut download = item(DownloadState::Queued, 0, None);
        download.job_id = id;
        download.song.name = id.to_string();
        app.downloads.push(download);
    }
    let titles: Vec<String> = download_rows(&app)
        .into_iter()
        .map(|row| row.title)
        .collect();
    assert_eq!(titles, ["[网] 6", "[网] 5", "[网] 4", "[网] 3"]);
    assert_eq!(downloads_title(&app), " 下载任务 6 - 保存到 test-downloads ");
    app.downloads.truncate(1);
    assert_eq!(download_rows(&app).len(), 1);
}

#[test]
fn results_are_numbered_across_pages() {
    let mut app = cookie_test_app();
    assert_eq!(
        results_title(&app),
        " 搜索结果 - 第 1 页 - 至 0 - 已到末页 "
    );
    assert_eq!(selected_result(&app), None);
    let song = item(DownloadState::Queued, 0, None).song;
    let mut other = song.clone();
    other.id = "2".to_owned();
    app.results = vec![song, other];
    app.page = 3;
    app.more = true;
    app.selected_row = 1;
    app.toggle_mark();
    assert_eq!(
        results_title(&app),
        " 搜索结果 - 第 3 页 - 至 42 - 还有下一页 "
    );
    assert_eq!(selected_result(&app), Some(1));
    let rows = result_rows(&app);
    assert_eq!((rows[0].mark, rows[0].number.as_str()), (" ", "41"));
    assert_eq!((rows[1].mark, rows[1].number.as_str()), ("*", "42"));
    assert_eq!(rows[0].name, "歌");
    assert_eq!(rows[0].artists, "甲,乙");
    assert_eq!(rows[0].album, "专辑");
}

#[test]
fn header_shows_the_choices() {
    let mut app = cookie_test_app();
    set_test_cookie(&mut app, i64::MAX);
    let line = header_line(&app);
    assert_eq!(
        text_of(&line),
        " dqn   平台 网易云音乐  登录 网:已登录 Q:未登录  音质 无损  已选 0 首"
    );
    assert_eq!(line[4].look, Look::Toned(Tone::Success));
    assert_eq!(line[6].look, Look::Toned(Tone::Muted));
    set_test_cookie(&mut app, 1);
    assert_eq!(header_line(&app)[4].look, Look::Toned(Tone::Warning));
}

#[test]
fn search_box_shows_what_is_under_way() {
    let mut app = cookie_test_app();
    app.input = "歌".to_owned();
    assert_eq!(text_of(&search_line(&app)), "> 歌");
    assert_eq!(search_title(&app), " 搜索(输入后 Enter,Esc 取消) ");
    app.loading = true;
    app.input_mode = InputMode::Normal;
    assert_eq!(search_title(&app), " 搜索(直接输入文字即可修改) ");
    let frames: Vec<String> = [0, 149, 150, 300, 450, 600]
        .into_iter()
        .map(|milliseconds| text_of(&search_line_at(&app, milliseconds)))
        .collect();
    assert_eq!(
        frames,
        [
            "> 歌  | 搜索中...",
            "> 歌  | 搜索中...",
            "> 歌  / 搜索中...",
            "> 歌  - 搜索中...",
            "> 歌  \\ 搜索中...",
            "> 歌  | 搜索中..."
        ]
    );
    assert_eq!(spinner_at(450), "\\");
    assert!(["|", "/", "-", "\\"].contains(&spinner()));
}

#[test]
fn notices_fade() {
    let mut app = cookie_test_app();
    for (kind, tone) in [
        (NoticeKind::Info, Tone::Accent),
        (NoticeKind::Success, Tone::Success),
        (NoticeKind::Warning, Tone::Warning),
        (NoticeKind::Error, Tone::Error),
    ] {
        app.set_notice(kind, "x");
        assert_eq!(notice_tone(&app, 0), tone);
        assert_eq!(notice_tone(&app, 15), tone);
        assert_eq!(notice_tone(&app, 16), Tone::Muted);
    }
    let lines = footer_lines_at(&app, 0, 0);
    assert_eq!(lines.len(), 2);
    assert_eq!(
        text_of(&lines[0]),
        "Ins选择 ^A全选 <>翻页 ^D下载 ^P平台 ^T音质 ^L登录 ^H帮助 ^Q退出"
    );
    assert_eq!(text_of(&lines[1]), "提示:x");
}

#[test]
fn help_names_the_keys() {
    let lines = help_lines();
    assert_eq!(lines.len(), 17);
    assert_eq!(lines[0].text, "dqn 操作帮助");
    assert_eq!(lines[13].text, "Ctrl+Q         安全退出;Ctrl+C 强制退出");
    assert_eq!(lines[15].look, Look::Toned(Tone::Warning));
}
