//! What the keys do.

use vstd::prelude::*;

use crate::app::{
    App, DownloadRequest, InputMode, LoginRequest, NoticeKind, SearchRequest, PAGE_SIZE,
};
use crate::app_laws;
use crate::app_model;
use crate::app_model::{AppModel, RequestModel, SearchModel};
use crate::model;
use crate::storage::unix_now;

verus! {

/// A key.
#[derive(Clone, Copy, Debug, PartialEq, Eq, Structural)]
pub enum KeyCode {
    Backspace,
    Enter,
    Left,
    Right,
    Up,
    Down,
    Home,
    End,
    PageUp,
    PageDown,
    Tab,
    Delete,
    Insert,
    Esc,
    F(u8),
    Char(char),
    Other,
}

/// A key, with the modifiers that matter.
#[derive(Clone, Copy, Debug, PartialEq, Eq, Structural)]
pub struct KeyEvent {
    pub code: KeyCode,
    pub control: bool,
    pub alt: bool,
}

/// What the terminal tells.
#[derive(Debug)]
pub enum TerminalEvent {
    /// A key was pressed, or is held down.
    Key(KeyEvent),
    /// Anything else, such as a key that was released.
    Other,
    /// The event could not be read.
    Failed(String),
    /// There will be no more events.
    Closed,
}

/// What a key stands for.
#[derive(Clone, Copy, Debug, PartialEq, Eq, Structural)]
pub enum Command {
    Nothing,
    ForceQuit,
    Quit,
    CloseLogin,
    Login,
    HideHelp,
    ShowHelp,
    TogglePlatform,
    Download,
    CycleQuality,
    Search,
    MarkPage,
    CancelEditing,
    Erase,
    Clear,
    Type(char),
    SelectPrevious,
    SelectNext,
    SelectFirst,
    SelectLast,
    PreviousPage,
    NextPage,
    Mark,
    ClearFinished,
}

/// What is to be done outside after an event.
#[derive(Debug)]
pub enum Effect {
    Nothing,
    Search(SearchRequest),
    Download(Vec<DownloadRequest>),
    Login(LoginRequest),
    CancelLogin(u64),
}

/// What is to be done outside after an event.
pub enum EffectModel {
    Nothing,
    Search(SearchModel),
    Download(Seq<RequestModel>),
    Login(LoginRequest),
    CancelLogin(u64),
}

impl View for Effect {
    type V = EffectModel;

    open spec fn view(&self) -> EffectModel {
        match self {
            Effect::Nothing => EffectModel::Nothing,
            Effect::Search(request) => EffectModel::Search(request@),
            Effect::Download(requests) => EffectModel::Download(model::views(requests@)),
            Effect::Login(request) => EffectModel::Login(*request),
            Effect::CancelLogin(id) => EffectModel::CancelLogin(*id),
        }
    }
}

/// An ASCII letter in lower case; any other character as it is.
pub open spec fn lower(c: char) -> char {
    if 'A' <= c <= 'Z' {
        (c as u32 + 32) as char
    } else {
        c
    }
}

/// An ASCII letter in lower case; any other character as it is.
pub fn lower_case(c: char) -> (r: char)
    ensures
        r == lower(c),
{
    if 'A' <= c && c <= 'Z' {
        let n: u8 = c as u8;
        (n + 32) as char
    } else {
        c
    }
}

impl KeyEvent {
    /// The letter of a shortcut with the control key.
    pub open spec fn shortcut(self) -> Option<char> {
        match self.code {
            KeyCode::Char(c) if self.control => Some(lower(c)),
            _ => None,
        }
    }

    /// The letter of a shortcut with the control key.
    pub fn control_char(self) -> (r: Option<char>)
        ensures
            r == self.shortcut(),
    {
        match self.code {
            KeyCode::Char(c) => if self.control {
                Some(lower_case(c))
            } else {
                None
            },
            _ => None,
        }
    }
}

/// What a letter with the control key stands for in the main view.
pub open spec fn shortcut_command(letter: char, mode: InputMode) -> Command {
    if letter == 'd' {
        Command::Download
    } else if letter == 'l' {
        Command::Login
    } else if letter == 't' || letter == 'x' {
        Command::CycleQuality
    } else if letter == 'r' {
        Command::Search
    } else if letter == 'a' && mode == InputMode::Normal {
        Command::MarkPage
    } else if letter == 'u' && mode == InputMode::Editing {
        Command::Clear
    } else {
        Command::Nothing
    }
}

/// What a key stands for in the main view, in either mode of input.
pub open spec fn editing_command(key: KeyEvent) -> Command {
    match key.code {
        KeyCode::Enter => Command::Search,
        KeyCode::Backspace => Command::Erase,
        KeyCode::Delete => Command::Clear,
        KeyCode::Char(c) if !key.control && !key.alt => Command::Type(c),
        _ => Command::Nothing,
    }
}

/// What a key stands for in the main view while nothing is being edited.
pub open spec fn browsing_command(key: KeyEvent) -> Command {
    match key.code {
        KeyCode::Up => Command::SelectPrevious,
        KeyCode::Down => Command::SelectNext,
        KeyCode::Home => Command::SelectFirst,
        KeyCode::End => Command::SelectLast,
        KeyCode::Left | KeyCode::PageUp => Command::PreviousPage,
        KeyCode::Right | KeyCode::PageDown => Command::NextPage,
        KeyCode::Insert => Command::Mark,
        KeyCode::F(8) => Command::ClearFinished,
        _ => editing_command(key),
    }
}

/// What a letter with the control key stands for in the main view.
fn shortcut_for(letter: char, mode: InputMode) -> (r: Command)
    ensures
        r == shortcut_command(letter, mode),
{
    match letter {
        'd' => Command::Download,
        'l' => Command::Login,
        't' => Command::CycleQuality,
        'x' => Command::CycleQuality,
        'r' => Command::Search,
        'a' => if mode == InputMode::Normal {
            Command::MarkPage
        } else {
            Command::Nothing
        },
        'u' => if mode == InputMode::Editing {
            Command::Clear
        } else {
            Command::Nothing
        },
        _ => Command::Nothing,
    }
}

/// What a key stands for in the main view, in either mode of input.
fn editing_for(key: KeyEvent) -> (r: Command)
    ensures
        r == editing_command(key),
{
    match key.code {
        KeyCode::Enter => Command::Search,
        KeyCode::Backspace => Command::Erase,
        KeyCode::Delete => Command::Clear,
        KeyCode::Char(c) => if !key.control && !key.alt {
            Command::Type(c)
        } else {
            Command::Nothing
        },
        _ => Command::Nothing,
    }
}

/// What a key stands for in the main view while nothing is being edited.
fn browsing_for(key: KeyEvent) -> (r: Command)
    ensures
        r == browsing_command(key),
{
    match key.code {
        KeyCode::Up => Command::SelectPrevious,
        KeyCode::Down => Command::SelectNext,
        KeyCode::Home => Command::SelectFirst,
        KeyCode::End => Command::SelectLast,
        KeyCode::Left => Command::PreviousPage,
        KeyCode::PageUp => Command::PreviousPage,
        KeyCode::Right => Command::NextPage,
        KeyCode::PageDown => Command::NextPage,
        KeyCode::Insert => Command::Mark,
        KeyCode::F(8) => Command::ClearFinished,
        _ => editing_for(key),
    }
}

impl AppModel {
    /// What a key stands for.
    pub open spec fn command(self, key: KeyEvent) -> Command {
        let shortcut = key.shortcut();
        if shortcut == Some('c') {
            Command::ForceQuit
        } else if shortcut == Some('q') {
            Command::Quit
        } else if self.login_overlay is Some {
            if key.code == KeyCode::Esc {
                Command::CloseLogin
            } else if shortcut == Some('l') && !app_model::open_phase(
                self.login_overlay->Some_0.phase,
            ) {
                Command::Login
            } else {
                Command::Nothing
            }
        } else if self.show_help {
            if key.code == KeyCode::Esc || key.code == KeyCode::F(1) || shortcut == Some('h') {
                Command::HideHelp
            } else {
                Command::Nothing
            }
        } else if key.code == KeyCode::F(1) || shortcut == Some('h') {
            Command::ShowHelp
        } else if key.code == KeyCode::Tab || shortcut == Some('p') {
            Command::TogglePlatform
        } else if shortcut is Some {
            shortcut_command(shortcut->Some_0, self.input_mode)
        } else if self.input_mode == InputMode::Normal {
            browsing_command(key)
        } else if key.code == KeyCode::Esc {
            Command::CancelEditing
        } else {
            editing_command(key)
        }
    }

    /// The state while other text is being edited.
    pub open spec fn edited(self, input: Seq<char>) -> AppModel {
        AppModel { input, input_mode: InputMode::Editing, ..self }
    }

    /// The state after a command.
    pub open spec fn performed(self, command: Command) -> AppModel {
        match command {
            Command::Nothing => self,
            Command::ForceQuit => AppModel { should_quit: true, ..self },
            Command::Quit => self.quit_requested(),
            Command::CloseLogin => self.login_cancelled().noticed(
                NoticeKind::Info,
                "已关闭登录窗口"@,
            ),
            Command::Login => self.login_started(),
            Command::HideHelp => AppModel { show_help: false, ..self },
            Command::ShowHelp => AppModel { show_help: true, ..self },
            Command::TogglePlatform => self.toggled(),
            Command::Download => self.queued(),
            Command::CycleQuality => self.quality_cycled(),
            Command::Search => self.searched(),
            Command::MarkPage => self.page_toggled(),
            Command::CancelEditing => AppModel {
                input: self.query,
                input_mode: InputMode::Normal,
                ..self
            }.noticed(NoticeKind::Info, "已取消编辑搜索词"@),
            Command::Erase => self.edited(
                if self.input.len() > 0 {
                    self.input.drop_last()
                } else {
                    self.input
                },
            ),
            Command::Clear => self.edited(seq![]),
            Command::Type(c) => self.edited(self.input.push(c)),
            Command::SelectPrevious => self.selected_up(),
            Command::SelectNext => self.selected_down(),
            Command::SelectFirst => AppModel { selected_row: 0, ..self },
            Command::SelectLast => AppModel {
                selected_row: if self.results.len() > 0 {
                    self.results.len() - 1
                } else {
                    0
                },
                ..self
            },
            Command::PreviousPage => self.paged_back(),
            Command::NextPage => self.paged_on(),
            Command::Mark => self.mark_toggled(),
            Command::ClearFinished => self.cleared(),
        }
    }

    /// What is to be done outside after a command.
    pub open spec fn effect(self, command: Command, now: int) -> EffectModel {
        match command {
            Command::CloseLogin => match self.login_cancel {
                Some(id) => EffectModel::CancelLogin(id),
                None => EffectModel::Nothing,
            },
            Command::Login => EffectModel::Login(
                LoginRequest {
                    cancelled: self.login_cancel,
                    request_id: (self.login_request_id + 1) as u64,
                    platform: self.platform,
                },
            ),
            Command::Download => EffectModel::Download(self.requests(now)),
            Command::TogglePlatform => search_effect(self.toggle_search(now)),
            Command::Search => search_effect(self.search(now)),
            Command::PreviousPage => search_effect(self.search_back(now)),
            Command::NextPage => search_effect(self.search_on(now)),
            _ => EffectModel::Nothing,
        }
    }

    /// Whether the numbers that a command needs can be had.
    pub open spec fn can_perform(self, command: Command) -> bool {
        match command {
            Command::Login => self.login_request_id < u64::MAX,
            Command::Download => self.can_queue(),
            Command::TogglePlatform => self.can_toggle(),
            Command::Search => self.can_search(),
            Command::PreviousPage => self.can_page_back(),
            Command::NextPage => self.can_page_on(),
            Command::SelectNext => self.results.len() > 0 ==> self.selected_row < usize::MAX,
            _ => true,
        }
    }

    /// Whether every counter is so far from its limit that any command can be
    /// carried out, and any message taken in.
    pub open spec fn has_room(self) -> bool {
        &&& self.search_request_id + 1 < u64::MAX
        &&& self.login_request_id < u64::MAX
        &&& 1 <= self.page
        &&& self.page * PAGE_SIZE <= u64::MAX
        &&& self.next_job_id + self.marked.len() + 1 <= u64::MAX
        &&& self.selected_row < usize::MAX
        &&& self.cookie_revisions[0] < u64::MAX
        &&& self.cookie_revisions[1] < u64::MAX
    }

    /// The state after what the terminal tells.
    pub open spec fn told(self, event: TerminalEvent) -> AppModel {
        match event {
            TerminalEvent::Key(key) => self.performed(self.command(key)),
            TerminalEvent::Other => self,
            TerminalEvent::Failed(error) => self.noticed(
                NoticeKind::Error,
                "读取键盘事件失败:"@ + error@,
            ),
            TerminalEvent::Closed => AppModel { should_quit: true, ..self }.noticed(
                NoticeKind::Error,
                "终端事件流已关闭"@,
            ),
        }
    }

    /// What is to be done outside after what the terminal tells.
    pub open spec fn told_effect(self, event: TerminalEvent, now: int) -> EffectModel {
        match event {
            TerminalEvent::Key(key) => self.effect(self.command(key), now),
            _ => EffectModel::Nothing,
        }
    }

    /// Whether the numbers that the terminal's news need can be had.
    pub open spec fn can_be_told(self, event: TerminalEvent) -> bool {
        match event {
            TerminalEvent::Key(key) => self.can_perform(self.command(key)),
            _ => true,
        }
    }
}

/// A search that is to be made, if there is one.
pub open spec fn search_effect(search: Option<SearchModel>) -> EffectModel {
    match search {
        Some(search) => EffectModel::Search(search),
        None => EffectModel::Nothing,
    }
}

/// A search that is to be made, if there is one.
fn search_outcome(search: Option<SearchRequest>) -> (r: Effect)
    ensures
        r@ == search_effect(model::view_of(search)),
{
    match search {
        Some(search) => Effect::Search(search),
        None => Effect::Nothing,
    }
}

impl App {
    /// What a key stands for.
    pub fn command_for(&self, key: KeyEvent) -> (r: Command)
        ensures
            r == self@.command(key),
    {
        let control_char = key.control_char();
        if control_char == Some('c') {
            return Command::ForceQuit;
        }
        if control_char == Some('q') {
            return Command::Quit;
        }
        if let Some(overlay) = &self.login_overlay {
            return if key.code == KeyCode::Esc {
                Command::CloseLogin
            } else if control_char == Some('l') && !overlay.phase.is_open() {
                Command::Login
            } else {
                Command::Nothing
            };
        }
        if self.show_help {
            return if key.code == KeyCode::Esc || key.code == KeyCode::F(1) || control_char == Some(
                'h',
            ) {
                Command::HideHelp
            } else {
                Command::Nothing
            };
        }
        if key.code == KeyCode::F(1) || control_char == Some('h') {
            return Command::ShowHelp;
        }
        if key.code == KeyCode::Tab || control_char == Some('p') {
            return Command::TogglePlatform;
        }
        if let Some(letter) = control_char {
            return shortcut_for(letter, self.input_mode);
        }
        if self.input_mode == InputMode::Normal {
            browsing_for(key)
        } else if key.code == KeyCode::Esc {
            Command::CancelEditing
        } else {
            editing_for(key)
        }
    }

    /// Whether every counter is so far from its limit that any command can be
    /// carried out, and any message taken in.
    pub fn has_room(&self) -> (r: bool)
        ensures
            r == self@.has_room(),
    {
        let marks: u64 = self.marked.len() as u64;
        let revisions = &self.cookie_revisions;
        self.search_request_id < u64::MAX - 1 && self.login_request_id < u64::MAX && 1 <= self.page
            && self.page <= u64::MAX / PAGE_SIZE && marks < u64::MAX && self.next_job_id <= u64::MAX
            - 1 - marks && self.selected_row < usize::MAX && revisions[0] < u64::MAX && revisions[1]
            < u64::MAX
    }

    /// Carries out a command at the given time, and says what is to be done
    /// outside.
    pub fn perform_at(&mut self, command: Command, now: i64) -> (r: Effect)
        requires
            old(self)@.can_perform(command),
        ensures
            final(self)@ == old(self)@.performed(command).dated(final(self).notice.changed_at),
            r@ == old(self)@.effect(command, now as int),
            old(self)@.valid() ==> final(self)@.valid(),
    {
        proof {
            if self@.valid() {
                app_laws::law_commands_keep_validity(self@, command);
            }
        }
        self.carry_out(command, now)
    }

    /// Has other text edited.
    fn edit(&mut self, input: String)
        ensures
            final(self)@ == old(self)@.edited(input@),
    {
        self.input = input;
        self.input_mode = InputMode::Editing;
    }

    /// Takes away the last character of the text that is edited.
    fn erase(&mut self)
        ensures
            final(self)@ == old(self)@.performed(Command::Erase),
    {
        let n: usize = self.input.as_str().unicode_len();
        if n > 0 {
            let shorter = self.input.as_str().substring_char(0, n - 1).to_owned();
            proof {
                assert(shorter@ =~= self.input@.drop_last());
            }
            self.edit(shorter);
        } else {
            self.input_mode = InputMode::Editing;
        }
    }

    /// Goes back to the text that was searched for.
    fn cancel_editing(&mut self)
        ensures
            final(self)@ == old(self)@.performed(Command::CancelEditing).dated(
                final(self).notice.changed_at,
            ),
    {
        self.input = self.query.clone();
        self.input_mode = InputMode::Normal;
        self.set_notice(NoticeKind::Info, "已取消编辑搜索词");
    }

    /// Carries out a command at the given time.
    #[verifier::rlimit(40)]
    fn carry_out(&mut self, command: Command, now: i64) -> (r: Effect)
        requires
            old(self)@.can_perform(command),
        ensures
            final(self)@ == old(self)@.performed(command).dated(final(self).notice.changed_at),
            r@ == old(self)@.effect(command, now as int),
    {
        match command {
            Command::Nothing => {},
            Command::ForceQuit => {
                self.should_quit = true;
            },
            Command::Quit => {
                self.request_quit();
            },
            Command::CloseLogin => {
                let cancelled = self.cancel_login();
                self.set_notice(NoticeKind::Info, "已关闭登录窗口");
                if let Some(id) = cancelled {
                    return Effect::CancelLogin(id);
                }
            },
            Command::Login => {
                return Effect::Login(self.start_login());
            },
            Command::HideHelp => {
                self.show_help = false;
            },
            Command::ShowHelp => {
                self.show_help = true;
            },
            Command::TogglePlatform => {
                return search_outcome(self.toggle_platform_at(now));
            },
            Command::Download => {
                return Effect::Download(self.queue_downloads_at(now));
            },
            Command::CycleQuality => {
                self.cycle_quality();
            },
            Command::Search => {
                return search_outcome(self.submit_search_at(now));
            },
            Command::MarkPage => {
                self.toggle_mark_page();
            },
            Command::CancelEditing => {
                self.cancel_editing();
            },
            Command::Erase => {
                self.erase();
            },
            Command::Clear => {
                self.edit(String::new());
            },
            Command::Type(c) => {
                let mut input = self.input.clone();
                input.push(c);
                self.edit(input);
            },
            Command::SelectPrevious => {
                self.select_previous();
            },
            Command::SelectNext => {
                self.select_next();
            },
            Command::SelectFirst => {
                self.selected_row = 0;
            },
            Command::SelectLast => {
                self.selected_row = self.results.len().saturating_sub(1);
            },
            Command::PreviousPage => {
                return search_outcome(self.previous_page_at(now));
            },
            Command::NextPage => {
                return search_outcome(self.next_page_at(now));
            },
            Command::Mark => {
                self.toggle_mark();
            },
            Command::ClearFinished => {
                self.clear_finished_downloads();
            },
        }
        Effect::Nothing
    }
}

/// Does what a key stands for at the given time.
pub fn handle_key_at(app: &mut App, key: KeyEvent, now: i64) -> (r: Effect)
    requires
        old(app)@.can_perform(old(app)@.command(key)),
    ensures
        final(app)@ == old(app)@.performed(old(app)@.command(key)).dated(final(app).notice.changed_at),
        r@ == old(app)@.effect(old(app)@.command(key), now as int),
        old(app)@.valid() ==> final(app)@.valid(),
{
    let command = app.command_for(key);
    app.perform_at(command, now)
}

/// Does what a key stands for.
pub fn handle_key(app: &mut App, key: KeyEvent) -> (r: Effect)
    requires
        old(app)@.can_perform(old(app)@.command(key)),
    ensures
        final(app)@ == old(app)@.performed(old(app)@.command(key)).dated(final(app).notice.changed_at),
        exists|now: i64|
            now >= 0 && r@ == #[trigger] old(app)@.effect(old(app)@.command(key), now as int),
        old(app)@.valid() ==> final(app)@.valid(),
{
    handle_key_at(app, key, unix_now())
}

/// Takes in what the terminal tells.
pub fn handle_event(app: &mut App, event: TerminalEvent) -> (r: Effect)
    requires
        old(app)@.can_be_told(event),
    ensures
        final(app)@ == old(app)@.told(event).dated(final(app).notice.changed_at),
        exists|now: i64| now >= 0 && r@ == #[trigger] old(app)@.told_effect(event, now as int),
        old(app)@.valid() ==> final(app)@.valid(),
{
    let now: i64 = unix_now();
    let ghost start = app@;
    match event {
        TerminalEvent::Key(key) => {
            let effect = handle_key_at(app, key, now);
            assert(effect@ == start.told_effect(event, now as int));
            effect
        },
        TerminalEvent::Other => {
            assert(EffectModel::Nothing == start.told_effect(event, now as int));
            Effect::Nothing
        },
        TerminalEvent::Failed(error) => {
            let text = "读取键盘事件失败:".to_owned().concat(error.as_str());
            app.set_notice(NoticeKind::Error, text.as_str());
            assert(EffectModel::Nothing == start.told_effect(event, now as int));
            Effect::Nothing
        },
        TerminalEvent::Closed => {
            app.set_notice(NoticeKind::Error, "终端事件流已关闭");
            app.should_quit = true;
            assert(EffectModel::Nothing == start.told_effect(event, now as int));
            Effect::Nothing
        },
    }
}

} // verus!
