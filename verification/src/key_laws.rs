//! What the keys are for.

use vstd::prelude::*;

use crate::app::{InputMode, LoginPhase, NoticeKind};
use crate::app_model::{AppModel, Message};
use crate::keys;
use crate::keys::{Command, EffectModel, KeyCode, KeyEvent, TerminalEvent};

verus! {

/// A key without modifiers.
pub open spec fn plain(code: KeyCode) -> KeyEvent {
    KeyEvent { code, control: false, alt: false }
}

/// A letter with the control key.
pub open spec fn ctrl(letter: char) -> KeyEvent {
    KeyEvent { code: KeyCode::Char(letter), control: true, alt: false }
}

/// Quitting works everywhere.
pub proof fn law_quit_keys_work_everywhere(app: AppModel)
    ensures
        app.command(ctrl('c')) == Command::ForceQuit,
        app.command(ctrl('q')) == Command::Quit,
{
}

/// The keys of the main view, in either mode of input.
pub proof fn law_main_view_keys(app: AppModel, c: char)
    requires
        app.login_overlay is None,
        !app.show_help,
    ensures
        app.command(plain(KeyCode::F(1))) == Command::ShowHelp,
        app.command(ctrl('h')) == Command::ShowHelp,
        app.command(plain(KeyCode::Tab)) == Command::TogglePlatform,
        app.command(ctrl('p')) == Command::TogglePlatform,
        app.command(ctrl('t')) == Command::CycleQuality,
        app.command(ctrl('x')) == Command::CycleQuality,
        app.command(ctrl('d')) == Command::Download,
        app.command(ctrl('l')) == Command::Login,
        app.command(ctrl('r')) == Command::Search,
        app.command(plain(KeyCode::Enter)) == Command::Search,
        app.command(plain(KeyCode::Backspace)) == Command::Erase,
        app.command(plain(KeyCode::Delete)) == Command::Clear,
        app.command(plain(KeyCode::Char(c))) == Command::Type(c),
        app.command(KeyEvent { code: KeyCode::Char(c), control: false, alt: true })
            == Command::Nothing,
{
}

/// The keys for moving and marking, while no text is edited.
pub proof fn law_browsing_keys(app: AppModel)
    requires
        app.login_overlay is None,
        !app.show_help,
        app.input_mode == InputMode::Normal,
    ensures
        app.command(plain(KeyCode::Up)) == Command::SelectPrevious,
        app.command(plain(KeyCode::Down)) == Command::SelectNext,
        app.command(plain(KeyCode::Home)) == Command::SelectFirst,
        app.command(plain(KeyCode::End)) == Command::SelectLast,
        app.command(plain(KeyCode::Left)) == Command::PreviousPage,
        app.command(plain(KeyCode::PageUp)) == Command::PreviousPage,
        app.command(plain(KeyCode::Right)) == Command::NextPage,
        app.command(plain(KeyCode::PageDown)) == Command::NextPage,
        app.command(plain(KeyCode::Insert)) == Command::Mark,
        app.command(ctrl('a')) == Command::MarkPage,
        app.command(plain(KeyCode::F(8))) == Command::ClearFinished,
        app.command(ctrl('u')) == Command::Nothing,
        app.command(plain(KeyCode::Esc)) == Command::Nothing,
{
}

/// The keys for editing text, and those that rest meanwhile.
pub proof fn law_editing_keys(app: AppModel)
    requires
        app.login_overlay is None,
        !app.show_help,
        app.input_mode == InputMode::Editing,
    ensures
        app.command(plain(KeyCode::Esc)) == Command::CancelEditing,
        app.command(ctrl('u')) == Command::Clear,
        app.command(ctrl('a')) == Command::Nothing,
        app.command(plain(KeyCode::Up)) == Command::Nothing,
        app.command(plain(KeyCode::Down)) == Command::Nothing,
        app.command(plain(KeyCode::Left)) == Command::Nothing,
        app.command(plain(KeyCode::Right)) == Command::Nothing,
        app.command(plain(KeyCode::Insert)) == Command::Nothing,
        app.command(plain(KeyCode::F(8))) == Command::Nothing,
{
}

/// The keys while the help is shown.
pub proof fn law_help_keys(app: AppModel)
    requires
        app.login_overlay is None,
        app.show_help,
    ensures
        app.command(plain(KeyCode::Esc)) == Command::HideHelp,
        app.command(plain(KeyCode::F(1))) == Command::HideHelp,
        app.command(ctrl('h')) == Command::HideHelp,
{
}

/// The keys while a login is shown.
pub proof fn law_login_keys(app: AppModel)
    requires
        app.login_overlay is Some,
    ensures
        app.command(plain(KeyCode::Esc)) == Command::CloseLogin,
        app.command(ctrl('l')) == if app.login_overlay->Some_0.phase == LoginPhase::Expired
            || app.login_overlay->Some_0.phase == LoginPhase::Failed {
            Command::Login
        } else {
            Command::Nothing
        },
{
}

/// Shortcuts do not tell capital letters from small ones.
pub proof fn law_shortcuts_ignore_case(app: AppModel, c: char)
    ensures
        app.command(ctrl(c)) == app.command(ctrl(keys::lower(c))),
        'A' <= c <= 'Z' ==> 'a' <= keys::lower(c) <= 'z' && keys::lower(c) as u32 == c as u32 + 32,
        !('A' <= c <= 'Z') ==> keys::lower(c) == c,
{
}

/// Letters with the control key that have no meaning do nothing.
pub proof fn law_other_shortcuts_do_nothing(app: AppModel, c: char)
    requires
        !('A' <= c <= 'Z'),
        c != 'c' && c != 'q' && c != 'l' && c != 'h' && c != 'p' && c != 'd' && c != 't' && c != 'x'
            && c != 'r' && c != 'a' && c != 'u',
    ensures
        app.command(ctrl(c)) == Command::Nothing,
{
}

/// What a key stands for depends on nothing but the key, which window is open,
/// whether its login is settled, and the mode of input.
pub proof fn law_keys_depend_on_the_window(a: AppModel, b: AppModel, key: KeyEvent)
    requires
        a.show_help == b.show_help,
        a.input_mode == b.input_mode,
        match (a.login_overlay, b.login_overlay) {
            (Some(x), Some(y)) => x.phase == y.phase,
            (None, None) => true,
            _ => false,
        },
    ensures
        a.command(key) == b.command(key),
{
}

/// Commands that change a single thing change just that.
pub proof fn law_small_commands_do_one_thing(app: AppModel, c: char)
    ensures
        app.performed(Command::Nothing) == app,
        app.performed(Command::ForceQuit) == (AppModel { should_quit: true, ..app }),
        app.performed(Command::ShowHelp) == (AppModel { show_help: true, ..app }),
        app.performed(Command::HideHelp) == (AppModel { show_help: false, ..app }),
        app.performed(Command::SelectFirst) == (AppModel { selected_row: 0, ..app }),
        app.results.len() > 0 ==> app.performed(Command::SelectLast) == (AppModel {
            selected_row: app.results.len() - 1,
            ..app
        }),
        app.results.len() == 0 ==> app.performed(Command::SelectLast) == (AppModel {
            selected_row: 0,
            ..app
        }),
        app.performed(Command::Type(c)) == (AppModel {
            input: app.input.push(c),
            input_mode: InputMode::Editing,
            ..app
        }),
        app.performed(Command::Clear) == (AppModel {
            input: seq![],
            input_mode: InputMode::Editing,
            ..app
        }),
        app.performed(Command::Type(c)).performed(Command::Erase) == (AppModel {
            input_mode: InputMode::Editing,
            ..app
        }),
        app.input.len() == 0 ==> app.performed(Command::Erase) == (AppModel {
            input_mode: InputMode::Editing,
            ..app
        }),
        app.performed(Command::CancelEditing) == (AppModel {
            input: app.query,
            input_mode: InputMode::Normal,
            notice: app.performed(Command::CancelEditing).notice,
            ..app
        }),
        app.performed(Command::CancelEditing).notice.text == "已取消编辑搜索词"@,
        app.performed(Command::CloseLogin) == (AppModel {
            login_overlay: None,
            login_cancel: None,
            notice: app.performed(Command::CloseLogin).notice,
            ..app
        }),
        app.performed(Command::CloseLogin).notice.text == "已关闭登录窗口"@,
{
    assert(app.input.push(c).drop_last() =~= app.input);
}

/// Erasing takes away the last character.
pub proof fn law_erasing_takes_the_last_character(app: AppModel)
    requires
        app.input.len() > 0,
    ensures
        app.performed(Command::Erase) == (AppModel {
            input: app.input.take(app.input.len() - 1),
            input_mode: InputMode::Editing,
            ..app
        }),
{
    assert(app.input.drop_last() =~= app.input.take(app.input.len() - 1));
}

/// The other commands are the operations of the same name.
pub proof fn law_commands_are_operations(app: AppModel, now: int)
    ensures
        app.performed(Command::Quit) == app.quit_requested(),
        app.performed(Command::Login) == app.login_started(),
        app.performed(Command::TogglePlatform) == app.toggled(),
        app.performed(Command::Download) == app.queued(),
        app.performed(Command::CycleQuality) == app.quality_cycled(),
        app.performed(Command::Search) == app.searched(),
        app.performed(Command::MarkPage) == app.page_toggled(),
        app.performed(Command::Mark) == app.mark_toggled(),
        app.performed(Command::SelectPrevious) == app.selected_up(),
        app.performed(Command::SelectNext) == app.selected_down(),
        app.performed(Command::PreviousPage) == app.paged_back(),
        app.performed(Command::NextPage) == app.paged_on(),
        app.performed(Command::ClearFinished) == app.cleared(),
        app.effect(Command::Download, now) == EffectModel::Download(app.requests(now)),
        match app.search(now) {
            Some(search) => app.effect(Command::Search, now) == EffectModel::Search(search),
            None => app.effect(Command::Search, now) is Nothing,
        },
        match app.toggle_search(now) {
            Some(search) => app.effect(Command::TogglePlatform, now) == EffectModel::Search(search),
            None => app.effect(Command::TogglePlatform, now) is Nothing,
        },
        match app.search_back(now) {
            Some(search) => app.effect(Command::PreviousPage, now) == EffectModel::Search(search),
            None => app.effect(Command::PreviousPage, now) is Nothing,
        },
        match app.search_on(now) {
            Some(search) => app.effect(Command::NextPage, now) == EffectModel::Search(search),
            None => app.effect(Command::NextPage, now) is Nothing,
        },
        match app.login_cancel {
            Some(id) => app.effect(Command::CloseLogin, now) == EffectModel::CancelLogin(id),
            None => app.effect(Command::CloseLogin, now) is Nothing,
        },
{
}

/// Commands that ask for nothing outside.
pub proof fn law_other_commands_ask_for_nothing(app: AppModel, command: Command, now: int)
    requires
        command != Command::Download,
        command != Command::Search,
        command != Command::TogglePlatform,
        command != Command::PreviousPage,
        command != Command::NextPage,
        command != Command::CloseLogin,
        command != Command::Login,
    ensures
        app.effect(command, now) is Nothing,
{
}

/// A key that is pressed does what it stands for; an unreadable event is told;
/// the application ends when there will be no more events.
pub proof fn law_the_terminal_is_heard(app: AppModel, key: KeyEvent, error: String, now: int)
    ensures
        app.told(TerminalEvent::Key(key)) == app.performed(app.command(key)),
        app.told_effect(TerminalEvent::Key(key), now) == app.effect(app.command(key), now),
        app.told(TerminalEvent::Other) == app,
        app.told_effect(TerminalEvent::Other, now) is Nothing,
        app.told(TerminalEvent::Failed(error)) == (AppModel {
            notice: app.told(TerminalEvent::Failed(error)).notice,
            ..app
        }),
        app.told(TerminalEvent::Failed(error)).notice.kind == NoticeKind::Error,
        app.told(TerminalEvent::Failed(error)).notice.text == "读取键盘事件失败:"@ + error@,
        app.told_effect(TerminalEvent::Failed(error), now) is Nothing,
        app.told(TerminalEvent::Closed) == (AppModel {
            should_quit: true,
            notice: app.told(TerminalEvent::Closed).notice,
            ..app
        }),
        app.told(TerminalEvent::Closed).notice.text == "终端事件流已关闭"@,
        app.told_effect(TerminalEvent::Closed, now) is Nothing,
{
}

/// A notice says what it is put up with, from the moment that it is put up at;
/// one that is up already keeps its time.
pub proof fn law_notices_keep_their_time(
    app: AppModel,
    kind: NoticeKind,
    text: Seq<char>,
    at: std::time::Instant,
)
    ensures
        ({
            let new = app.noticed(kind, text).dated(at);
            &&& new == (AppModel { notice: new.notice, ..app })
            &&& new.notice.kind == kind
            &&& new.notice.text == text
            &&& new.notice.changed_at == Some(at)
            &&& app.notice.changed_at is Some ==> app.dated(at) == app
            &&& app.dated(at) == (AppModel { notice: app.dated(at).notice, ..app })
            &&& app.dated(at).notice.kind == app.notice.kind
            &&& app.dated(at).notice.text == app.notice.text
            &&& app.dated(at).notice.changed_at is Some
        }),
{
}

/// As long as the counters are small there is room for everything.
pub proof fn law_small_counters_leave_room(app: AppModel)
    requires
        app.valid(),
        app.search_request_id < 0x1_0000_0000,
        app.login_request_id < 0x1_0000_0000,
        app.page < 0x1_0000_0000,
        app.next_job_id < 0x1_0000_0000,
        app.marked.len() < 0x1_0000_0000,
        app.selected_row < 0xffff_ffff,
        app.cookie_revisions[0] < 0x1_0000_0000,
        app.cookie_revisions[1] < 0x1_0000_0000,
    ensures
        app.has_room(),
{
}

/// Messages that bring no login can always be taken in.
pub proof fn law_most_messages_need_no_room(app: AppModel, message: Message)
    requires
        !(message is LoginSuccess),
        !(message is CookieRefreshFinished),
    ensures
        app.can_receive(message),
{
}

/// Modifiers do not matter but for letters, and the control key goes before the
/// other one.
pub proof fn law_modifiers_matter_for_letters(
    app: AppModel,
    code: KeyCode,
    c: char,
    control: bool,
    alt: bool,
)
    ensures
        !(code is Char) ==> app.command(KeyEvent { code, control, alt }) == app.command(plain(code)),
        app.command(KeyEvent { code: KeyCode::Char(c), control: true, alt: true }) == app.command(
            ctrl(c),
        ),
{
}

/// Keys without a meaning do nothing.
pub proof fn law_other_keys_do_nothing(app: AppModel, n: u8)
    requires
        n != 1,
        n != 8,
    ensures
        app.command(plain(KeyCode::Other)) == Command::Nothing,
        app.command(plain(KeyCode::F(n))) == Command::Nothing,
        app.login_overlay is None && !app.show_help && app.input_mode == InputMode::Editing ==> {
            &&& app.command(plain(KeyCode::Home)) == Command::Nothing
            &&& app.command(plain(KeyCode::End)) == Command::Nothing
            &&& app.command(plain(KeyCode::PageUp)) == Command::Nothing
            &&& app.command(plain(KeyCode::PageDown)) == Command::Nothing
        },
{
}

/// While a login or the help is shown, keys that have no meaning there do
/// nothing.
pub proof fn law_windows_swallow_other_keys(app: AppModel, key: KeyEvent)
    requires
        key.code != KeyCode::Esc,
        key.code is Char && key.control ==> {
            &&& key.code != KeyCode::Char('c') && key.code != KeyCode::Char('C')
            &&& key.code != KeyCode::Char('q') && key.code != KeyCode::Char('Q')
        },
    ensures
        app.login_overlay is Some && !(key.control && (key.code == KeyCode::Char('l') || key.code
            == KeyCode::Char('L'))) ==> app.command(key) == Command::Nothing,
        app.login_overlay is None && app.show_help && key.code != KeyCode::F(1) && !(key.control && (
        key.code == KeyCode::Char('h') || key.code == KeyCode::Char('H'))) ==> app.command(key)
            == Command::Nothing,
{
    match key.code {
        KeyCode::Char(c) => {
            if 'A' <= c <= 'Z' {
                assert(keys::lower(c) as u32 == c as u32 + 32);
            }
        },
        _ => {},
    }
}

} // verus!
