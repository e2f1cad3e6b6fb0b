//! The application's state: searches, marks, downloads, logins, messages.

use dqn::app::{
    App, AppMessage, DownloadState, InputMode, LoginOverlay, LoginPhase, NoticeKind, Reaction,
    SaveReason, SavedFile, SearchRequest,
};
use dqn::music::{
    song_key, LoginToken, NeteaseLoginToken, Platform, SearchSongResult, Song, SongAlbum,
    SongArtist, SongQuality, TencentLoginToken,
};
use dqn::qr::FileReading;
use dqn::storage::{AppPaths, CookieFile, SaveFailure};

fn new_app(file: CookieFile) -> App {
    App::new(
        AppPaths {
            cookie_file: "__dqn_app_test_cookie.json".to_owned(),
            download_dir: "test-downloads".to_owned(),
        },
        file,
    )
}

fn test_app() -> App {
    new_app(CookieFile::Missing)
}

fn token(platform: Platform, key: &str) -> LoginToken {
    match platform {
        Platform::Netease => {
            LoginToken::Netease(NeteaseLoginToken::new(key, key, key, Some(i64::MAX)))
        }
        Platform::Tencent => {
            LoginToken::Tencent(TencentLoginToken::new(1, key, key, key, Some(i64::MAX), 1))
        }
    }
}

/// What the codes in an image file hold.
fn read_file(file: &[u8]) -> FileReading {
    let Ok(image) = image::load_from_memory(file) else {
        return FileReading::NotAnImage;
    };
    let mut prepared = rqrr::PreparedImage::prepare(image.to_luma8());
    FileReading::Codes(
        prepared
            .detect_grids()
            .into_iter()
            .map(|grid| grid.decode().ok().map(|(_, content)| content))
            .collect(),
    )
}

/// Takes in a message, with files read as they are asked for; logins cannot
/// be stored.
fn deliver(app: &mut App, message: AppMessage) -> Reaction {
    let mut reaction = app.handle_message(message);
    while let Reaction::ReadCode(request) = reaction {
        let reading = read_file(&request.file);
        reaction = app.finish_reading(request, reading);
    }
    if let Reaction::Save(reason) = reaction {
        let error = SaveFailure::NotWritten.message(&app.paths.cookie_file);
        app.finish_save(reason, Err(error));
    }
    reaction
}

fn overlay(request_id: u64, phase: LoginPhase) -> Option<LoginOverlay> {
    Some(LoginOverlay {
        request_id,
        phase,
        qr_lines: Vec::new(),
        detail: String::new(),
    })
}

fn complete_login(app: &mut App, platform: Platform) {
    app.login_overlay = overlay(1, LoginPhase::WaitingConfirm);
    deliver(
        app,
        AppMessage::LoginSuccess {
            request_id: 1,
            token: token(platform, "new"),
        },
    );
}

fn song(id: &str) -> Song {
    Song {
        id: id.to_owned(),
        name: format!("name-{id}"),
        pic_url: String::new(),
        artists: vec![SongArtist {
            id: "1".to_owned(),
            name: "artist".to_owned(),
        }],
        album: SongAlbum {
            id: "2".to_owned(),
            name: "album".to_owned(),
        },
    }
}

fn app_with_results(ids: &[&str]) -> App {
    let mut app = test_app();
    app.results = ids.iter().map(|id| song(id)).collect();
    app
}

fn marks(app: &App) -> Vec<String> {
    let mut keys: Vec<String> = app
        .marked
        .iter()
        .map(|mark| song_key(mark.platform, &mark.song.id))
        .collect();
    keys.sort();
    keys
}

#[test]
fn switching_platform_discards_in_flight_search_when_input_is_empty() {
    for platform in [Platform::Netease, Platform::Tencent] {
        for result in [
            Ok(SearchSongResult {
                songs: Vec::new(),
                more: true,
            }),
            Err("old platform request failed".to_owned()),
        ] {
            let mut app = test_app();
            app.platform = platform;
            app.query = "previous query".to_owned();
            app.input.clear();
            app.search_request_id = 7;
            app.loading = true;

            app.toggle_platform();
            let notice = app.notice.text.clone();
            assert_ne!(app.platform, platform);
            assert!(!app.loading);

            app.handle_message(AppMessage::SearchFinished {
                request_id: 7,
                result,
            });
            assert!(app.results.is_empty());
            assert!(!app.more);
            assert!(!app.loading);
            assert_eq!(app.notice.text, notice);
        }
    }
}

#[test]
fn invalid_qr_cancels_polling_and_keeps_failure_until_a_new_login() {
    let mut app = test_app();
    app.login_cancel = Some(1);
    app.login_overlay = overlay(1, LoginPhase::Creating);
    let reaction = app.handle_message(AppMessage::LoginQr {
        request_id: 1,
        payload: "data:image/png;base64,!!!!".to_owned(),
    });
    assert!(matches!(reaction, Reaction::CancelLogin(1)));
    let failure = app.login_overlay.as_ref().unwrap().detail.clone();

    // Messages already queued before cancellation must not revive the failed session.
    for phase in [
        LoginPhase::WaitingScan,
        LoginPhase::WaitingConfirm,
        LoginPhase::Expired,
    ] {
        app.handle_message(AppMessage::LoginPhase {
            request_id: 1,
            phase,
            detail: "late polling response".to_owned(),
        });
    }
    app.handle_message(AppMessage::LoginSuccess {
        request_id: 1,
        token: token(Platform::Netease, "late"),
    });
    let shown = app.login_overlay.as_ref().unwrap();
    assert_eq!(shown.phase, LoginPhase::Failed);
    assert_eq!(shown.detail, failure);
    assert_eq!(failure, "二维码处理失败:无法解码二维码 Base64 数据");
    assert!(app.cookies.token_for(Platform::Netease).is_none());

    app.login_overlay = overlay(2, LoginPhase::Creating);
    deliver(
        &mut app,
        AppMessage::LoginQr {
            request_id: 2,
            payload: "https://example.com/login".to_owned(),
        },
    );
    let shown = app.login_overlay.as_ref().unwrap();
    assert_eq!(shown.phase, LoginPhase::WaitingScan);
    assert!(!shown.qr_lines.is_empty());
}

#[test]
fn stale_refresh_cannot_replace_new_login_or_raise_a_false_warning() {
    for platform in [Platform::Netease, Platform::Tencent] {
        for result in [
            Ok(token(platform, "old")),
            Err("old request failed".to_owned()),
        ] {
            let mut app = test_app();
            app.cookies.set(token(platform, "old"));
            app.cookie_refresh_pending = 1;
            complete_login(&mut app, platform);
            let new_cookie = app.cookies.cookie_header_for(platform);
            let notice = app.notice.text.clone();

            deliver(
                &mut app,
                AppMessage::CookieRefreshFinished {
                    platform,
                    cookie_revision: 0,
                    result,
                },
            );

            assert_eq!(app.cookies.cookie_header_for(platform), new_cookie);
            assert_eq!(app.notice.text, notice);
            assert!(app.cookie_warnings().is_empty());
            assert_eq!(app.cookie_refresh_pending, 0);
        }
    }
}

#[test]
fn login_on_one_platform_does_not_discard_other_platform_refresh() {
    let mut app = test_app();
    app.cookie_refresh_pending = 1;
    complete_login(&mut app, Platform::Netease);
    deliver(
        &mut app,
        AppMessage::CookieRefreshFinished {
            platform: Platform::Tencent,
            cookie_revision: 0,
            result: Ok(token(Platform::Tencent, "refreshed")),
        },
    );
    assert!(app
        .cookies
        .cookie_header_for(Platform::Netease)
        .unwrap()
        .contains("new"));
    assert!(app
        .cookies
        .cookie_header_for(Platform::Tencent)
        .unwrap()
        .contains("refreshed"));
    assert_eq!(app.cookie_refresh_pending, 0);
}

#[test]
fn start_depends_on_the_stored_logins() {
    let app = test_app();
    assert_eq!(app.notice.kind, NoticeKind::Info);
    assert_eq!(
        app.notice.text,
        "直接输入关键词后按 Enter 搜索;按 F1 或 Ctrl+H 查看帮助"
    );
    assert_eq!(app.platform, Platform::Netease);
    assert_eq!(app.quality, SongQuality::Lossless);
    assert_eq!((app.page, app.next_job_id), (1, 1));

    let app = new_app(CookieFile::Malformed);
    assert_eq!(app.notice.kind, NoticeKind::Warning);
    assert_eq!(
        app.notice.text,
        "登录信息读取失败,将以未登录状态启动:登录信息 JSON 格式无效:__dqn_app_test_cookie.json"
    );
    assert_eq!(app.cookies.stored_count(), 0);
}

#[test]
fn startup_refreshes_what_is_due() {
    let mut app = test_app();
    let notice = app.notice.text.clone();
    assert!(app.check_and_refresh_cookies_at(0).is_empty());
    assert_eq!(app.notice.text, notice);

    app.cookies.set(token(Platform::Netease, "k"));
    assert!(app.check_and_refresh_cookies().is_empty());
    assert_eq!(app.notice.text, "已检查 1 个登录 Cookie,均在有效期内");
    assert_eq!(app.notice.kind, NoticeKind::Success);

    app.cookies
        .set(LoginToken::Tencent(TencentLoginToken::new(
            1,
            "k",
            "r",
            "rk",
            Some(1_000),
            1,
        )));
    app.cookie_revisions = [3, 4];
    let requests = app.check_and_refresh_cookies_at(1_000 - 86_400);
    assert_eq!(requests.len(), 1);
    assert_eq!(requests[0].platform, Platform::Tencent);
    assert_eq!(requests[0].cookie_revision, 4);
    assert_eq!(
        app.notice.text,
        "正在自动更新 1 个已过期,即将过期或有效期未知的 Cookie..."
    );
    assert_eq!(app.cookie_refresh_pending, 1);
    assert!(app.check_and_refresh_cookies_at(1_000).is_empty());
}

#[test]
fn searches_ask_for_one_page_under_a_new_number() {
    let mut app = test_app();
    app.cookies.set(token(Platform::Netease, "k"));
    app.input = "  周杰伦 ".to_owned();
    app.page = 5;
    let request: SearchRequest = app.submit_search().unwrap();
    assert_eq!(request.keyword, "周杰伦");
    assert_eq!((request.offset, request.limit), (0, 20));
    assert_eq!(request.request_id, 1);
    assert_eq!(request.platform, Platform::Netease);
    assert!(request.token.is_some());
    assert_eq!(app.notice.text, "正在搜索\"周杰伦\"第 1 页...");
    assert!(app.loading && app.input_mode == InputMode::Normal);

    // Nothing moves while a search is under way.
    assert!(app.next_page().is_none());
    assert_eq!(app.notice.text, "搜索仍在进行,请稍候");
    app.handle_message(AppMessage::SearchFinished {
        request_id: 1,
        result: Ok(SearchSongResult {
            songs: vec![song("1"), song("2")],
            more: true,
        }),
    });
    assert_eq!(app.notice.text, "第 1 页找到 2 首歌曲");
    let request = app.next_page().unwrap();
    assert_eq!((request.offset, request.request_id), (20, 2));

    // Only the last search counts.
    app.handle_message(AppMessage::SearchFinished {
        request_id: 1,
        result: Err("late".to_owned()),
    });
    assert!(app.loading && app.results.len() == 2);
    app.handle_message(AppMessage::SearchFinished {
        request_id: 2,
        result: Err("offline".to_owned()),
    });
    assert_eq!(app.notice.text, "搜索失败:offline");
    assert!(app.results.is_empty() && !app.more);
    assert!(app.next_page().is_none());
    assert_eq!(app.notice.text, "已经是最后一页");
    assert_eq!(app.previous_page().unwrap().offset, 0);
    app.loading = false;
    assert!(app.previous_page().is_none());
    assert_eq!(app.notice.text, "已经是第一页");

    app.input = " \t".to_owned();
    assert!(app.submit_search().is_none());
    assert_eq!(app.notice.text, "请输入搜索关键词");
    assert_eq!(app.input_mode, InputMode::Editing);
}

#[test]
fn expired_login_is_not_sent_with_a_search() {
    let mut app = test_app();
    app.cookies
        .set(LoginToken::Netease(NeteaseLoginToken::new(
            "u",
            "r",
            "c",
            Some(50),
        )));
    app.input = "x".to_owned();
    assert!(app.submit_search_at(49).unwrap().token.is_some());
    assert!(app.submit_search_at(50).unwrap().token.is_none());
}

#[test]
fn empty_page_of_results_is_a_warning() {
    let mut app = test_app();
    app.handle_message(AppMessage::SearchFinished {
        request_id: 0,
        result: Ok(SearchSongResult {
            songs: Vec::new(),
            more: false,
        }),
    });
    assert_eq!(app.notice.kind, NoticeKind::Warning);
    assert_eq!(app.notice.text, "没有找到歌曲,请尝试其他关键词");
}

#[test]
fn switching_platform_searches_there_again() {
    let mut app = app_with_results(&["1"]);
    app.query = "q".to_owned();
    app.input = "q".to_owned();
    app.page = 4;
    let request = app.toggle_platform().unwrap();
    assert_eq!(request.platform, Platform::Tencent);
    assert_eq!(request.offset, 0);
    assert_eq!(request.request_id, 2);
    assert!(app.results.is_empty() && app.loading);
    app.query = String::new();
    assert!(app.toggle_platform().is_none());
    assert_eq!(app.platform, Platform::Netease);
    assert_eq!(app.notice.text, "已切换到 网易云音乐");
}

#[test]
fn qualities_come_round_after_seven_steps() {
    let mut app = test_app();
    let mut seen = Vec::new();
    for _ in 0..7 {
        app.cycle_quality();
        seen.push(app.quality_label());
    }
    assert_eq!(
        seen,
        ["Hi-Res", "立体声", "环绕声", "母带", "标准", "极高", "无损"]
    );
    assert_eq!(app.notice.text, "下载音质已切换为 无损");
}

#[test]
fn selection_stays_within_the_results() {
    let mut app = app_with_results(&["1", "2"]);
    app.select_previous();
    assert_eq!(app.selected_row, 0);
    app.select_next();
    app.select_next();
    assert_eq!(app.selected_row, 1);
    app.select_previous();
    assert_eq!(app.selected_row, 0);
    let mut empty = test_app();
    empty.select_next();
    assert_eq!(empty.selected_row, 0);
}

#[test]
fn marking_twice_changes_nothing() {
    let mut app = app_with_results(&["1", "2", "3"]);
    app.toggle_mark();
    assert_eq!(marks(&app), ["N:1"]);
    assert_eq!(app.notice.text, "已选择 1 首歌曲");
    app.selected_row = 2;
    app.toggle_mark();
    app.selected_row = 0;
    app.toggle_mark();
    assert_eq!(marks(&app), ["N:3"]);
    app.toggle_mark();
    assert_eq!(marks(&app), ["N:1", "N:3"]);
    assert!(app.is_marked(&song("1")) && !app.is_marked(&song("2")));
    app.platform = Platform::Tencent;
    assert!(!app.is_marked(&song("1")));
    let mut empty = test_app();
    empty.toggle_mark();
    assert_eq!(empty.notice.text, "当前没有可选择的歌曲");
}

#[test]
fn page_is_marked_all_or_none() {
    let mut app = app_with_results(&["1", "2", "2"]);
    app.platform = Platform::Tencent;
    app.selected_row = 1;
    app.toggle_mark();
    app.toggle_mark_page();
    assert_eq!(marks(&app), ["Q:1", "Q:2"]);
    app.results = vec![song("2"), song("3")];
    app.toggle_mark_page();
    assert_eq!(marks(&app), ["Q:1", "Q:2", "Q:3"]);
    app.toggle_mark_page();
    assert_eq!(marks(&app), ["Q:1"]);
    assert_eq!(app.notice.text, "已选择 1 首歌曲");
    app.results.clear();
    app.toggle_mark_page();
    assert_eq!(app.notice.text, "当前页没有歌曲");
}

#[test]
fn marks_of_other_pages_and_platforms_stay() {
    let mut app = app_with_results(&["1", "2"]);
    app.toggle_mark();
    app.marked[0].song.name = "as it was marked".to_owned();
    app.platform = Platform::Tencent;
    app.toggle_mark_page();
    assert_eq!(marks(&app), ["N:1", "Q:1", "Q:2"]);
    app.toggle_mark_page();
    assert_eq!(marks(&app), ["N:1"]);
    assert_eq!(app.marked[0].song.name, "as it was marked");
}

#[test]
fn downloads_are_queued_once() {
    let mut app = app_with_results(&["1", "2"]);
    app.cookies.set(token(Platform::Netease, "k"));
    let requests = app.queue_downloads();
    assert_eq!(requests.len(), 1);
    assert_eq!(requests[0].job_id, 1);
    assert_eq!(requests[0].song.id, "1");
    assert_eq!(requests[0].quality, SongQuality::Lossless);
    assert_eq!(requests[0].directory, "test-downloads");
    assert_eq!(
        requests[0].media_cookie.as_deref(),
        Some("MUSIC_U=k; __csrf=k")
    );
    assert!(requests[0].token.is_some());
    assert_eq!(app.notice.text, "已加入 1 个下载任务(最多 3 路并发)");
    assert_eq!(app.notice.kind, NoticeKind::Success);

    app.toggle_mark_page();
    let requests = app.queue_downloads();
    assert_eq!(requests.len(), 1);
    assert_eq!((requests[0].job_id, requests[0].song.id.as_str()), (2, "2"));
    assert_eq!(
        app.notice.text,
        "已加入 1 个下载任务(最多 3 路并发),跳过 1 首重复歌曲"
    );
    assert!(app.marked.is_empty());
    let keys: Vec<&str> = app.downloads.iter().map(|item| item.key.as_str()).collect();
    assert_eq!(keys, ["N:1", "N:2"]);

    assert!(app.queue_downloads().is_empty());
    assert_eq!(app.notice.text, "所选歌曲已在下载列表中");
    let mut empty = test_app();
    assert!(empty.queue_downloads().is_empty());
    assert_eq!(empty.notice.text, "请先搜索并选择要下载的歌曲");
    assert_eq!(empty.notice.kind, NoticeKind::Warning);
}

#[test]
fn expired_login_is_not_sent_with_a_download() {
    let mut app = app_with_results(&["1"]);
    app.cookies
        .set(LoginToken::Netease(NeteaseLoginToken::new(
            "u",
            "r",
            "c",
            Some(50),
        )));
    let requests = app.queue_downloads_at(50);
    assert!(requests[0].token.is_none() && requests[0].media_cookie.is_none());
}

#[test]
fn download_messages_move_their_item() {
    let mut app = app_with_results(&["1", "2"]);
    app.toggle_mark_page();
    app.queue_downloads();
    app.handle_message(AppMessage::DownloadResolved {
        job_id: 2,
        actual_quality: SongQuality::Standard,
    });
    assert_eq!(app.downloads[1].actual_quality, Some(SongQuality::Standard));
    assert_eq!(app.notice.text, "<name-2> 请求音质为 无损,平台实际返回 标准");
    app.set_notice(NoticeKind::Info, "x");
    app.handle_message(AppMessage::DownloadResolved {
        job_id: 1,
        actual_quality: SongQuality::Lossless,
    });
    assert_eq!(app.notice.text, "x");
    app.handle_message(AppMessage::DownloadProgress {
        job_id: 1,
        received: 10,
        total: Some(20),
    });
    assert_eq!(app.downloads[0].received, 10);
    assert!(matches!(app.downloads[0].state, DownloadState::Downloading));
    app.handle_message(AppMessage::DownloadStage {
        job_id: 1,
        state: DownloadState::Completed(SavedFile {
            path: "dir/f.mp3".to_owned(),
            file_name: Some("f.mp3".to_owned()),
        }),
    });
    assert_eq!(app.notice.text, "<name-1> 下载完成:dir/f.mp3");
    app.handle_message(AppMessage::DownloadStage {
        job_id: 2,
        state: DownloadState::Failed("why".to_owned()),
    });
    assert_eq!(app.notice.text, "<name-2> 下载失败:why");
    assert_eq!(app.notice.kind, NoticeKind::Error);
    app.handle_message(AppMessage::DownloadStage {
        job_id: 9,
        state: DownloadState::Failed("unknown".to_owned()),
    });
    assert_eq!(app.notice.text, "<name-2> 下载失败:why");
}

#[test]
fn quitting_waits_for_active_downloads() {
    let mut app = app_with_results(&["1", "2", "3"]);
    app.toggle_mark_page();
    app.queue_downloads();
    app.request_quit();
    assert!(!app.should_quit);
    assert_eq!(
        app.notice.text,
        "还有 3 个下载任务未完成;请等待完成,或按 Ctrl+C 强制退出"
    );
    app.downloads[0].state = DownloadState::Failed("x".to_owned());
    app.downloads[2].state = DownloadState::Failed("y".to_owned());
    app.clear_finished_downloads();
    assert_eq!(app.notice.text, "已清理 2 条完成/失败记录");
    assert_eq!(app.downloads.len(), 1);
    assert_eq!(app.downloads[0].job_id, 2);
    app.downloads[0].state = DownloadState::Failed("z".to_owned());
    app.request_quit();
    assert!(app.should_quit);
}

#[test]
fn new_login_attempt_ends_the_old_one() {
    let mut app = test_app();
    let first = app.start_login();
    assert_eq!((first.cancelled, first.request_id), (None, 1));
    assert_eq!(
        app.login_overlay.as_ref().unwrap().detail,
        "正在向平台申请登录二维码..."
    );
    let second = app.start_login();
    assert_eq!((second.cancelled, second.request_id), (Some(1), 2));
    let reaction = app.handle_message(AppMessage::LoginSuccess {
        request_id: 1,
        token: token(Platform::Netease, "late"),
    });
    assert!(matches!(reaction, Reaction::Nothing));
    assert_eq!(app.cookies.stored_count(), 0);
    app.handle_message(AppMessage::LoginPhase {
        request_id: 2,
        phase: LoginPhase::Expired,
        detail: "over".to_owned(),
    });
    assert_eq!(app.login_cancel, None);
    assert_eq!(app.cancel_login(), None);
    assert!(app.login_overlay.is_none());
}

#[test]
fn unreadable_code_ends_the_attempt() {
    let mut app = test_app();
    app.start_login();
    let reaction = app.handle_message(AppMessage::LoginQr {
        request_id: 1,
        payload: "https://example.com/login".to_owned(),
    });
    let Reaction::ReadCode(request) = reaction else {
        panic!("{reaction:?}");
    };
    assert_eq!((request.request_id, request.bare), (1, false));
    assert_eq!(request.payload, "https://example.com/login");
    assert_eq!(app.login_overlay.as_ref().unwrap().phase, LoginPhase::Creating);
    let reaction = app.finish_reading(request, FileReading::Codes(Vec::new()));
    assert!(matches!(reaction, Reaction::CancelLogin(1)));
    let shown = app.login_overlay.as_ref().unwrap();
    assert_eq!(shown.phase, LoginPhase::Failed);
    assert_eq!(shown.detail, "二维码处理失败:无法识别平台返回的二维码内容");

    // Nothing is read for an attempt that is over.
    let reaction = app.handle_message(AppMessage::LoginQr {
        request_id: 1,
        payload: "https://example.com/login".to_owned(),
    });
    assert!(matches!(reaction, Reaction::Nothing));
}

#[test]
fn new_login_is_to_be_stored_at_once() {
    let mut app = test_app();
    app.start_login();
    let reaction = app.handle_message(AppMessage::LoginSuccess {
        request_id: 1,
        token: token(Platform::Netease, "new"),
    });
    assert!(matches!(
        reaction,
        Reaction::Save(SaveReason::Login(Platform::Netease))
    ));
    assert!(app.login_overlay.is_none() && app.login_cancel.is_none());
    assert_eq!(app.cookie_revisions, [1, 0]);
    app.finish_save(SaveReason::Login(Platform::Netease), Ok(()));
    assert_eq!(app.notice.text, "网易云音乐 登录成功,登录信息已保存");
    app.finish_save(SaveReason::Login(Platform::Netease), Err("e".to_owned()));
    assert_eq!(app.notice.text, "登录成功,但保存登录信息失败:e");
    app.finish_save(SaveReason::Refresh(Platform::Tencent), Ok(()));
    assert_eq!(app.notice.text, "QQ 音乐 Cookie 已自动更新并立即保存");
    app.finish_save(SaveReason::Refresh(Platform::Tencent), Err("e".to_owned()));
    assert_eq!(
        app.notice.text,
        "QQ 音乐 Cookie 已更新,但写入 __dqn_app_test_cookie.json 失败:e"
    );
}

#[test]
fn only_a_new_notice_changes_its_time() {
    let mut app = app_with_results(&["1"]);
    let before = std::time::Instant::now();
    let old = before - std::time::Duration::from_secs(60);
    app.notice.changed_at = old;
    app.search_request_id = 3;
    app.handle_message(AppMessage::SearchFinished {
        request_id: 2,
        result: Err("late".to_owned()),
    });
    app.handle_message(AppMessage::DownloadStage {
        job_id: 9,
        state: DownloadState::Failed("unknown".to_owned()),
    });
    app.login_overlay = overlay(1, LoginPhase::Failed);
    app.handle_message(AppMessage::LoginPhase {
        request_id: 1,
        phase: LoginPhase::WaitingScan,
        detail: "late".to_owned(),
    });
    app.check_and_refresh_cookies();
    app.select_next();
    assert_eq!(app.notice.changed_at, old);
    app.set_notice(NoticeKind::Info, "x");
    assert!(app.notice.changed_at >= before);
    app.set_notice_at(NoticeKind::Info, "y", old);
    assert_eq!(app.notice.changed_at, old);
}

#[test]
fn songs_of_different_platforms_have_different_keys() {
    assert_eq!(song_key(Platform::Netease, "1"), "N:1");
    assert_eq!(song_key(Platform::Tencent, "1"), "Q:1");
    assert_eq!(song_key(Platform::Tencent, ""), "Q:");
}
