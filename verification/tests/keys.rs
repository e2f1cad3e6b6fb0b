//! What the keys do.

use dqn::app::{
    App, DownloadItem, DownloadState, InputMode, LoginOverlay, LoginPhase, NoticeKind,
};
use dqn::keys::{
    handle_event, handle_key, handle_key_at, Command, Effect, KeyCode, KeyEvent, TerminalEvent,
};
use dqn::music::{Platform, Song, SongAlbum, SongQuality};
use dqn::storage::{AppPaths, CookieFile};

fn test_app() -> App {
    App::new(
        AppPaths {
            cookie_file: "__dqn_test_cookie_does_not_exist.json".to_owned(),
            download_dir: "test-downloads".to_owned(),
        },
        CookieFile::Missing,
    )
}

fn plain(code: KeyCode) -> KeyEvent {
    KeyEvent {
        code,
        control: false,
        alt: false,
    }
}

fn control(letter: char) -> KeyEvent {
    KeyEvent {
        code: KeyCode::Char(letter),
        control: true,
        alt: false,
    }
}

fn song(id: &str) -> Song {
    Song {
        id: id.to_owned(),
        name: id.to_owned(),
        pic_url: String::new(),
        artists: Vec::new(),
        album: SongAlbum {
            id: String::new(),
            name: String::new(),
        },
    }
}

#[test]
fn ordinary_letters_always_edit_the_search_query() {
    let mut app = test_app();
    app.input = "周杰伦".to_owned();
    app.input_mode = InputMode::Normal;

    handle_key(&mut app, plain(KeyCode::Char('d')));
    handle_key(&mut app, plain(KeyCode::Char('q')));

    assert_eq!(app.input, "周杰伦dq");
    assert_eq!(app.input_mode, InputMode::Editing);
    assert!(!app.should_quit);
    assert!(app.downloads.is_empty());
}

#[test]
fn control_q_remains_an_explicit_exit_shortcut() {
    let mut app = test_app();
    app.input_mode = InputMode::Normal;

    handle_key(&mut app, control('q'));

    assert!(app.should_quit);
}

#[test]
fn help_shortcuts_work_while_search_is_being_edited() {
    let mut app = test_app();
    assert_eq!(app.input_mode, InputMode::Editing);

    handle_key(&mut app, plain(KeyCode::F(1)));
    assert!(app.show_help);

    handle_key(&mut app, control('h'));
    assert!(!app.show_help);
}

#[test]
fn platform_and_quality_shortcuts_are_global() {
    let mut app = test_app();
    assert_eq!(app.platform, Platform::Netease);
    assert_eq!(app.quality, SongQuality::Lossless);

    handle_key(&mut app, control('p'));
    handle_key(&mut app, control('t'));

    assert_eq!(app.platform, Platform::Tencent);
    assert_eq!(app.quality, SongQuality::Hires);
    assert_eq!(app.input_mode, InputMode::Editing);
}

#[test]
fn keys_have_their_commands_while_browsing() {
    let mut app = test_app();
    app.input_mode = InputMode::Normal;
    for (key, command) in [
        (plain(KeyCode::Enter), Command::Search),
        (plain(KeyCode::Backspace), Command::Erase),
        (plain(KeyCode::Delete), Command::Clear),
        (plain(KeyCode::Up), Command::SelectPrevious),
        (plain(KeyCode::Down), Command::SelectNext),
        (plain(KeyCode::Home), Command::SelectFirst),
        (plain(KeyCode::End), Command::SelectLast),
        (plain(KeyCode::Insert), Command::Mark),
        (control('a'), Command::MarkPage),
        (control('u'), Command::Nothing),
        (plain(KeyCode::Left), Command::PreviousPage),
        (plain(KeyCode::PageUp), Command::PreviousPage),
        (plain(KeyCode::Right), Command::NextPage),
        (plain(KeyCode::PageDown), Command::NextPage),
        (plain(KeyCode::Tab), Command::TogglePlatform),
        (control('P'), Command::TogglePlatform),
        (control('t'), Command::CycleQuality),
        (control('x'), Command::CycleQuality),
        (control('d'), Command::Download),
        (control('l'), Command::Login),
        (control('r'), Command::Search),
        (plain(KeyCode::F(8)), Command::ClearFinished),
        (plain(KeyCode::F(1)), Command::ShowHelp),
        (control('h'), Command::ShowHelp),
        (control('q'), Command::Quit),
        (control('C'), Command::ForceQuit),
        (control('z'), Command::Nothing),
        (plain(KeyCode::Esc), Command::Nothing),
        (plain(KeyCode::F(8)), Command::ClearFinished),
        (plain(KeyCode::F(2)), Command::Nothing),
        (plain(KeyCode::Other), Command::Nothing),
        (plain(KeyCode::Char('歌')), Command::Type('歌')),
    ] {
        assert_eq!(app.command_for(key), command, "{key:?}");
    }
    let alt = KeyEvent {
        code: KeyCode::Char('x'),
        control: false,
        alt: true,
    };
    assert_eq!(app.command_for(alt), Command::Nothing);
}

#[test]
fn keys_have_their_commands_while_editing() {
    let app = test_app();
    for (key, command) in [
        (plain(KeyCode::Enter), Command::Search),
        (plain(KeyCode::Esc), Command::CancelEditing),
        (plain(KeyCode::Backspace), Command::Erase),
        (plain(KeyCode::Delete), Command::Clear),
        (control('u'), Command::Clear),
        (control('a'), Command::Nothing),
        (plain(KeyCode::Up), Command::Nothing),
        (plain(KeyCode::Insert), Command::Nothing),
        (plain(KeyCode::F(8)), Command::Nothing),
        (plain(KeyCode::Tab), Command::TogglePlatform),
        (plain(KeyCode::Char('a')), Command::Type('a')),
    ] {
        assert_eq!(app.command_for(key), command, "{key:?}");
    }
}

#[test]
fn editing_changes_the_input() {
    let mut app = test_app();
    app.query = "旧".to_owned();
    for c in ['歌', 'a', 'b'] {
        handle_key(&mut app, plain(KeyCode::Char(c)));
    }
    handle_key(&mut app, plain(KeyCode::Backspace));
    assert_eq!(app.input, "歌a");
    handle_key(&mut app, plain(KeyCode::Esc));
    assert_eq!(app.input, "旧");
    assert_eq!(app.input_mode, InputMode::Normal);
    assert_eq!(app.notice.text, "已取消编辑搜索词");
    handle_key(&mut app, plain(KeyCode::Delete));
    assert_eq!(app.input, "");
    assert_eq!(app.input_mode, InputMode::Editing);
    handle_key(&mut app, plain(KeyCode::Backspace));
    assert_eq!(app.input, "");
}

#[test]
fn keys_give_back_what_is_to_be_done() {
    let mut app = test_app();
    app.input = "x".to_owned();
    let effect = handle_key(&mut app, plain(KeyCode::Enter));
    assert!(matches!(effect, Effect::Search(request) if request.keyword == "x"));
    app.results = vec![song("1"), song("2"), song("3")];
    handle_key(&mut app, plain(KeyCode::End));
    assert_eq!(app.selected_row, 2);
    let effect = handle_key_at(&mut app, control('d'), 0);
    assert!(
        matches!(effect, Effect::Download(requests) if requests.len() == 1 && requests[0].song.id == "3")
    );
    handle_key(&mut app, plain(KeyCode::Home));
    assert_eq!(app.selected_row, 0);
    let effect = handle_key(&mut app, control('l'));
    assert!(matches!(effect, Effect::Login(request) if request.request_id == 1));
    let effect = handle_key(&mut app, plain(KeyCode::Esc));
    assert!(matches!(effect, Effect::CancelLogin(1)));
    assert_eq!(app.notice.text, "已关闭登录窗口");
    assert!(app.has_room());
}

#[test]
fn login_window_catches_keys() {
    let mut app = test_app();
    for (phase, command) in [
        (LoginPhase::Creating, Command::Nothing),
        (LoginPhase::WaitingScan, Command::Nothing),
        (LoginPhase::WaitingConfirm, Command::Nothing),
        (LoginPhase::Expired, Command::Login),
        (LoginPhase::Failed, Command::Login),
    ] {
        app.login_overlay = Some(LoginOverlay {
            request_id: 1,
            phase,
            qr_lines: Vec::new(),
            detail: String::new(),
        });
        assert_eq!(app.command_for(control('l')), command);
        assert_eq!(app.command_for(plain(KeyCode::Char('x'))), Command::Nothing);
        assert_eq!(app.command_for(control('p')), Command::Nothing);
        assert_eq!(app.command_for(plain(KeyCode::Esc)), Command::CloseLogin);
        assert_eq!(app.command_for(control('c')), Command::ForceQuit);
    }
}

#[test]
fn help_catches_keys() {
    let mut app = test_app();
    app.show_help = true;
    assert_eq!(app.command_for(plain(KeyCode::Esc)), Command::HideHelp);
    assert_eq!(app.command_for(plain(KeyCode::F(1))), Command::HideHelp);
    assert_eq!(app.command_for(plain(KeyCode::Char('x'))), Command::Nothing);
    assert_eq!(app.command_for(control('d')), Command::Nothing);
    assert_eq!(app.command_for(control('q')), Command::Quit);
}

#[test]
fn forced_exit_ignores_downloads() {
    let mut app = test_app();
    app.downloads.push(DownloadItem {
        job_id: 1,
        key: "N:1".to_owned(),
        platform: Platform::Netease,
        song: song("1"),
        requested_quality: SongQuality::Standard,
        actual_quality: None,
        received: 0,
        total: None,
        state: DownloadState::Downloading,
    });
    handle_key(&mut app, control('q'));
    assert!(!app.should_quit);
    handle_key(&mut app, control('c'));
    assert!(app.should_quit);
}

#[test]
fn terminal_events_reach_the_application() {
    let mut app = test_app();
    handle_event(&mut app, TerminalEvent::Key(plain(KeyCode::Char('x'))));
    assert_eq!(app.input, "x");
    handle_event(&mut app, TerminalEvent::Other);
    assert_eq!(app.input, "x");
    handle_event(&mut app, TerminalEvent::Failed("io".to_owned()));
    assert_eq!(app.notice.text, "读取键盘事件失败:io");
    assert_eq!(app.notice.kind, NoticeKind::Error);
    assert!(!app.should_quit);
    handle_event(&mut app, TerminalEvent::Closed);
    assert_eq!(app.notice.text, "终端事件流已关闭");
    assert!(app.should_quit);
}

#[test]
fn counters_near_their_limit_leave_no_room() {
    let mut app = test_app();
    assert!(app.has_room());
    app.search_request_id = u64::MAX - 1;
    assert!(!app.has_room());
    app.search_request_id = 0;
    app.page = u64::MAX / 20 + 1;
    assert!(!app.has_room());
    app.page = 0;
    assert!(!app.has_room());
}
