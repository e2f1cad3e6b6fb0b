//! Where files are kept, and the stored logins.

use vstd::prelude::*;

use crate::model;
use crate::music::{
    token_expires_at, token_is_expired_at, Login, LoginToken, NeteaseLogin, NeteaseLoginToken,
    Platform, TencentLogin, TencentLoginToken,
};

verus! {

/// The name of the file that holds the logins.
pub const COOKIE_FILE_NAME: &'static str = "music_cookie.json";

/// The name of the folder that downloads go to.
pub const DOWNLOAD_DIR_NAME: &'static str = "Downloads";

/// The paths that the application uses, as they are shown.
#[derive(Debug)]
pub struct AppPaths {
    pub cookie_file: String,
    pub download_dir: String,
}

/// What the paths of the application are.
pub struct Paths {
    pub cookie_file: Seq<char>,
    pub download_dir: Seq<char>,
}

impl View for AppPaths {
    type V = Paths;

    open spec fn view(&self) -> Paths {
        Paths { cookie_file: self.cookie_file@, download_dir: self.download_dir@ }
    }
}

/// Why the application's own folder cannot be found.
#[derive(Clone, Copy, Debug, PartialEq, Eq, Structural)]
pub enum LocationFailure {
    NoLaunchDirectory,
    NoExecutable,
    NoParent,
}

impl LocationFailure {
    /// What is shown to the user.
    pub open spec fn text(self) -> Seq<char> {
        match self {
            LocationFailure::NoLaunchDirectory => "无法确定启动工作目录"@,
            LocationFailure::NoExecutable => "无法确定应用程序路径"@,
            LocationFailure::NoParent => "应用程序路径没有父目录"@,
        }
    }

    /// What is shown to the user.
    pub fn message(self) -> (r: &'static str)
        ensures
            r@ == self.text(),
    {
        match self {
            LocationFailure::NoLaunchDirectory => "无法确定启动工作目录",
            LocationFailure::NoExecutable => "无法确定应用程序路径",
            LocationFailure::NoParent => "应用程序路径没有父目录",
        }
    }
}

/// The path of what has the given name in a directory, on systems that separate
/// the parts of a path by the given character.
pub uninterp spec fn path_in(separator: char, directory: Seq<char>, name: Seq<char>) -> Seq<char>;

/// `Path::join`, on paths that are text. Along with the path comes
/// `MAIN_SEPARATOR`, the character by which this system separates the parts of
/// a path; the path is named by `path_in`.
#[verifier::external_body]
fn join_path(directory: &str, name: &str) -> (r: (char, String))
    ensures
        r.1@ == path_in(r.0, directory@, name@),
{
    let path = std::path::Path::new(directory).join(name);
    (std::path::MAIN_SEPARATOR, path.display().to_string())
}

impl AppPaths {
    /// The application's paths, given the directory of its executable:
    /// downloads go to a folder beside it. The file with the logins is named
    /// relative to the working directory.
    pub fn discover(app_dir: Result<String, LocationFailure>) -> (r: Result<
        AppPaths,
        LocationFailure,
    >)
        ensures
            match app_dir {
                Ok(dir) => {
                    &&& r is Ok
                    &&& r->Ok_0.cookie_file@ == COOKIE_FILE_NAME@
                    &&& exists|separator: char|
                        r->Ok_0.download_dir@ == #[trigger] path_in(
                            separator,
                            dir@,
                            DOWNLOAD_DIR_NAME@,
                        )
                },
                Err(e) => r == Err::<AppPaths, LocationFailure>(e),
            },
    {
        match app_dir {
            Ok(dir) => {
                let (separator, download_dir) = join_path(dir.as_str(), DOWNLOAD_DIR_NAME);
                assert(download_dir@ == path_in(separator, dir@, DOWNLOAD_DIR_NAME@));
                Ok(AppPaths { cookie_file: COOKIE_FILE_NAME.to_owned(), download_dir })
            },
            Err(e) => Err(e),
        }
    }
}

/// What is to be done next on the way to the application's own folder, to
/// which a file with logins that was left in the launch directory moves along.
#[derive(Clone, Copy, Debug, PartialEq, Eq, Structural)]
pub enum Relocation {
    /// Look for the file in the launch directory and in the own folder.
    Inspect,
    /// Rename the file to its new path.
    Rename,
    /// Copy the file to its new path.
    Copy,
    /// Remove the file at its old path.
    RemoveOld,
    /// Remove the copy at the new path.
    RemoveCopy,
    /// Make the own folder the working directory.
    Enter,
    /// Nothing: the application is where it should be.
    Done,
    /// Nothing: the application cannot go on.
    Failed(RelocationFailure),
}

/// What came of the last thing that was to be done.
#[derive(Clone, Copy, Debug, PartialEq, Eq, Structural)]
pub enum RelocationEvent {
    /// Whether there is a file at the old path, and anything at the new one.
    Inspected { old_is_file: bool, new_exists: bool },
    Succeeded,
    Failed,
}

/// Why the application could not move to its own folder.
#[derive(Clone, Copy, Debug, PartialEq, Eq, Structural)]
pub enum RelocationFailure {
    NotCopied,
    NotRemoved,
    NotEntered,
}

impl RelocationFailure {
    /// What is shown to the user, given the old and the new path of the file
    /// with the logins and that of the own folder.
    pub open spec fn text(self, old: Seq<char>, new: Seq<char>, directory: Seq<char>) -> Seq<char> {
        match self {
            RelocationFailure::NotCopied => "无法将登录信息从 "@ + old + " 迁移到 "@ + new,
            RelocationFailure::NotRemoved => "无法清理旧登录信息:"@ + old,
            RelocationFailure::NotEntered => "无法进入应用程序目录:"@ + directory,
        }
    }

    /// What is shown to the user.
    pub fn message(self, old: &str, new: &str, directory: &str) -> (r: String)
        ensures
            r@ == self.text(old@, new@, directory@),
    {
        match self {
            RelocationFailure::NotCopied => "无法将登录信息从 ".to_owned().concat(old).concat(
                " 迁移到 ",
            ).concat(new),
            RelocationFailure::NotRemoved => "无法清理旧登录信息:".to_owned().concat(old),
            RelocationFailure::NotEntered => "无法进入应用程序目录:".to_owned().concat(directory),
        }
    }
}

impl Relocation {
    /// What follows on an event. An event that does not fit what was to be
    /// done changes nothing.
    pub open spec fn after(self, event: RelocationEvent) -> Relocation {
        match (self, event) {
            (
                Relocation::Inspect,
                RelocationEvent::Inspected { old_is_file, new_exists },
            ) => if old_is_file && !new_exists {
                Relocation::Rename
            } else {
                Relocation::Enter
            },
            (Relocation::Rename, RelocationEvent::Succeeded) => Relocation::Enter,
            (Relocation::Rename, RelocationEvent::Failed) => Relocation::Copy,
            (Relocation::Copy, RelocationEvent::Succeeded) => Relocation::RemoveOld,
            (Relocation::Copy, RelocationEvent::Failed) => Relocation::Failed(
                RelocationFailure::NotCopied,
            ),
            (Relocation::RemoveOld, RelocationEvent::Succeeded) => Relocation::Enter,
            (Relocation::RemoveOld, RelocationEvent::Failed) => Relocation::RemoveCopy,
            (
                Relocation::RemoveCopy,
                RelocationEvent::Succeeded | RelocationEvent::Failed,
            ) => Relocation::Failed(RelocationFailure::NotRemoved),
            (Relocation::Enter, RelocationEvent::Succeeded) => Relocation::Done,
            (Relocation::Enter, RelocationEvent::Failed) => Relocation::Failed(
                RelocationFailure::NotEntered,
            ),
            _ => self,
        }
    }

    /// What is to be done first: nothing, if the application was launched in
    /// its own folder.
    pub fn start(launched_in_own_folder: bool) -> (r: Relocation)
        ensures
            r == if launched_in_own_folder {
                Relocation::Done
            } else {
                Relocation::Inspect
            },
    {
        if launched_in_own_folder {
            Relocation::Done
        } else {
            Relocation::Inspect
        }
    }

    /// What follows on an event.
    pub fn next(self, event: RelocationEvent) -> (r: Relocation)
        ensures
            r == self.after(event),
    {
        match event {
            RelocationEvent::Inspected { old_is_file, new_exists } => match self {
                Relocation::Inspect => if old_is_file && !new_exists {
                    Relocation::Rename
                } else {
                    Relocation::Enter
                },
                _ => self,
            },
            RelocationEvent::Succeeded => match self {
                Relocation::Rename => Relocation::Enter,
                Relocation::Copy => Relocation::RemoveOld,
                Relocation::RemoveOld => Relocation::Enter,
                Relocation::RemoveCopy => Relocation::Failed(RelocationFailure::NotRemoved),
                Relocation::Enter => Relocation::Done,
                _ => self,
            },
            RelocationEvent::Failed => match self {
                Relocation::Rename => Relocation::Copy,
                Relocation::Copy => Relocation::Failed(RelocationFailure::NotCopied),
                Relocation::RemoveOld => Relocation::RemoveCopy,
                Relocation::RemoveCopy => Relocation::Failed(RelocationFailure::NotRemoved),
                Relocation::Enter => Relocation::Failed(RelocationFailure::NotEntered),
                _ => self,
            },
        }
    }
}

/// The logins of both platforms.
#[derive(Debug)]
pub struct CookieStore {
    pub version: u8,
    pub netease: Option<NeteaseLoginToken>,
    pub tencent: Option<TencentLoginToken>,
}

/// What the stored logins are.
pub struct Cookies {
    pub version: u8,
    pub netease: Option<NeteaseLogin>,
    pub tencent: Option<TencentLogin>,
}

impl View for CookieStore {
    type V = Cookies;

    open spec fn view(&self) -> Cookies {
        Cookies {
            version: self.version,
            netease: model::view_of(self.netease),
            tencent: model::view_of(self.tencent),
        }
    }
}

impl Cookies {
    /// No logins at all.
    pub open spec fn none() -> Cookies {
        Cookies { version: 1, netease: None, tencent: None }
    }

    /// The login that is stored for a platform.
    pub open spec fn stored(self, platform: Platform) -> Option<Login> {
        match platform {
            Platform::Netease => match self.netease {
                Some(login) => Some(Login::Netease(login)),
                None => None,
            },
            Platform::Tencent => match self.tencent {
                Some(login) => Some(Login::Tencent(login)),
                None => None,
            },
        }
    }

    /// The logins with one of them replaced.
    pub open spec fn with(self, login: Login) -> Cookies {
        match login {
            Login::Netease(login) => Cookies { netease: Some(login), ..self },
            Login::Tencent(login) => Cookies { tencent: Some(login), ..self },
        }
    }

    /// Whether the login for a platform has expired.
    pub open spec fn expired(self, platform: Platform, now: int) -> bool {
        self.stored(platform) is Some && self.stored(platform)->Some_0.expired_at(now)
    }

    /// The login that may be used for a platform: one that has not expired.
    pub open spec fn usable(self, platform: Platform, now: int) -> Option<Login> {
        if self.expired(platform, now) {
            None
        } else {
            self.stored(platform)
        }
    }

    /// The `Cookie` header for requests to a platform.
    pub open spec fn header(self, platform: Platform, now: int) -> Option<Seq<char>> {
        match self.usable(platform, now) {
            Some(login) => Some(login.cookie()),
            None => None,
        }
    }

    /// Whether the login for a platform is to be refreshed: it expires at the
    /// given time or before, or at an unknown time.
    pub open spec fn due(self, platform: Platform, deadline: int) -> bool {
        match self.stored(platform) {
            Some(login) => match login.expires_at() {
                Some(expires_at) => expires_at <= deadline,
                None => true,
            },
            None => false,
        }
    }

    /// The logins that are to be refreshed.
    pub open spec fn due_logins(self, deadline: int) -> Seq<(Platform, Login)> {
        (if self.due(Platform::Netease, deadline) {
            seq![(Platform::Netease, self.stored(Platform::Netease)->Some_0)]
        } else {
            seq![]
        }) + (if self.due(Platform::Tencent, deadline) {
            seq![(Platform::Tencent, self.stored(Platform::Tencent)->Some_0)]
        } else {
            seq![]
        })
    }

    /// How many logins are stored.
    pub open spec fn count(self) -> nat {
        (if self.netease is Some {
            1nat
        } else {
            0nat
        }) + (if self.tencent is Some {
            1nat
        } else {
            0nat
        })
    }

    /// What is shown of the login for a platform.
    pub open spec fn state_text(self, platform: Platform, now: int) -> Seq<char> {
        if self.stored(platform) is None {
            "未登录"@
        } else if self.expired(platform, now) {
            "登录已过期"@
        } else {
            "已登录"@
        }
    }
}

/// The time `now + seconds`, as far as it can be represented.
pub open spec fn deadline(now: i64, seconds: i64) -> int {
    let sum = now + seconds;
    if sum > i64::MAX {
        i64::MAX as int
    } else if sum < i64::MIN {
        i64::MIN as int
    } else {
        sum
    }
}

/// The time `now + seconds`, as far as it can be represented.
fn later(now: i64, seconds: i64) -> (r: i64)
    ensures
        r == deadline(now, seconds),
{
    match now.checked_add(seconds) {
        Some(sum) => sum,
        None => if seconds > 0 {
            i64::MAX
        } else {
            i64::MIN
        },
    }
}

/// Platforms with logins, the logins by their views.
pub open spec fn login_views(tokens: Seq<(Platform, LoginToken)>) -> Seq<(Platform, Login)> {
    tokens.map_values(|token: (Platform, LoginToken)| (token.0, token.1@))
}

/// What was found where the logins are stored.
#[derive(Debug)]
pub enum CookieFile {
    /// There is no file.
    Missing,
    /// The file cannot be read.
    Unreadable,
    /// The file does not hold logins.
    Malformed,
    /// The file holds these logins.
    Read(CookieStore),
}

/// Why the logins could not be stored.
#[derive(Clone, Copy, Debug, PartialEq, Eq, Structural)]
pub enum SaveFailure {
    NotSerialized,
    NotWritten,
}

impl SaveFailure {
    /// What is shown to the user, given the path of the file.
    pub open spec fn text(self, path: Seq<char>) -> Seq<char> {
        match self {
            SaveFailure::NotSerialized => "无法序列化登录信息"@,
            SaveFailure::NotWritten => "无法保存登录信息:"@ + path,
        }
    }

    /// What is shown to the user.
    pub fn message(self, path: &str) -> (r: String)
        ensures
            r@ == self.text(path@),
    {
        match self {
            SaveFailure::NotSerialized => "无法序列化登录信息".to_owned(),
            SaveFailure::NotWritten => "无法保存登录信息:".to_owned().concat(path),
        }
    }
}

/// The version that files with logins have.
pub fn cookie_version() -> (r: u8)
    ensures
        r == Cookies::none().version,
{
    1
}

impl Default for CookieStore {
    fn default() -> (r: Self)
        ensures
            r@ == Cookies::none(),
    {
        CookieStore { version: cookie_version(), netease: None, tencent: None }
    }
}

/// What loading the logins comes to, given what was found at a path.
pub open spec fn loaded(path: Seq<char>, file: CookieFile) -> Result<Cookies, Seq<char>> {
    match file {
        CookieFile::Missing => Ok(Cookies::none()),
        CookieFile::Unreadable => Err("无法读取登录信息:"@ + path),
        CookieFile::Malformed => Err("登录信息 JSON 格式无效:"@ + path),
        CookieFile::Read(store) => Ok(store@),
    }
}

impl CookieStore {
    /// The stored logins, given what was found at their path. Where there is
    /// no file there are no logins.
    pub fn load(path: &str, file: CookieFile) -> (r: Result<CookieStore, String>)
        ensures
            match r {
                Ok(store) => loaded(path@, file) == Ok::<Cookies, Seq<char>>(store@),
                Err(message) => loaded(path@, file) == Err::<Cookies, Seq<char>>(message@),
            },
    {
        match file {
            CookieFile::Missing => Ok(CookieStore::default()),
            CookieFile::Unreadable => Err("无法读取登录信息:".to_owned().concat(path)),
            CookieFile::Malformed => Err("登录信息 JSON 格式无效:".to_owned().concat(path)),
            CookieFile::Read(store) => Ok(store),
        }
    }

    /// Stores a login in place of any other of its platform.
    pub fn set(&mut self, token: LoginToken)
        ensures
            final(self)@ == old(self)@.with(token@),
    {
        match token {
            LoginToken::Netease(token) => self.netease = Some(token),
            LoginToken::Tencent(token) => self.tencent = Some(token),
        }
    }

    /// The login that is stored for a platform.
    pub fn stored_token_for(&self, platform: Platform) -> (r: Option<LoginToken>)
        ensures
            model::view_of(r) == self@.stored(platform),
    {
        match platform {
            Platform::Netease => match &self.netease {
                Some(token) => Some(LoginToken::Netease(token.clone())),
                None => None,
            },
            Platform::Tencent => match &self.tencent {
                Some(token) => Some(LoginToken::Tencent(token.clone())),
                None => None,
            },
        }
    }

    /// The login that may be used for a platform at the given time.
    pub fn token_for_at(&self, platform: Platform, now: i64) -> (r: Option<LoginToken>)
        ensures
            model::view_of(r) == self@.usable(platform, now as int),
    {
        match self.stored_token_for(platform) {
            Some(token) => if token_is_expired_at(&token, now) {
                None
            } else {
                Some(token)
            },
            None => None,
        }
    }

    /// The login that may be used for a platform now.
    pub fn token_for(&self, platform: Platform) -> (r: Option<LoginToken>)
        ensures
            exists|now: i64| now >= 0 && model::view_of(r) == #[trigger] self@.usable(platform, now as int),
    {
        self.token_for_at(platform, unix_now())
    }

    /// The `Cookie` header for requests to a platform at the given time.
    pub fn cookie_header_for_at(&self, platform: Platform, now: i64) -> (r: Option<String>)
        ensures
            model::view_of(r) == self@.header(platform, now as int),
    {
        match self.token_for_at(platform, now) {
            Some(token) => Some(token.to_cookie()),
            None => None,
        }
    }

    /// The `Cookie` header for requests to a platform now.
    pub fn cookie_header_for(&self, platform: Platform) -> (r: Option<String>)
        ensures
            exists|now: i64| now >= 0 && model::view_of(r) == #[trigger] self@.header(platform, now as int),
    {
        self.cookie_header_for_at(platform, unix_now())
    }

    /// The logins that are to be refreshed, given the time and by how many
    /// seconds this comes before they expire.
    pub fn tokens_requiring_refresh_at(&self, now: i64, refresh_before_seconds: i64) -> (r: Vec<
        (Platform, LoginToken),
    >)
        ensures
            login_views(r@) == self@.due_logins(deadline(now, refresh_before_seconds)),
    {
        let refresh_at: i64 = later(now, refresh_before_seconds);
        let mut tokens: Vec<(Platform, LoginToken)> = Vec::new();
        self.push_due(Platform::Netease, refresh_at, &mut tokens);
        self.push_due(Platform::Tencent, refresh_at, &mut tokens);
        proof {
            assert(login_views(tokens@) =~= self@.due_logins(deadline(now, refresh_before_seconds)));
        }
        tokens
    }

    /// Appends the login for a platform if it is to be refreshed.
    fn push_due(
        &self,
        platform: Platform,
        refresh_at: i64,
        tokens: &mut Vec<(Platform, LoginToken)>,
    )
        ensures
            self@.due(platform, refresh_at as int) ==> {
                &&& final(tokens)@.len() == old(tokens)@.len() + 1
                &&& final(tokens)@.drop_last() == old(tokens)@
                &&& final(tokens)@.last().0 == platform
                &&& Some(final(tokens)@.last().1@) == self@.stored(platform)
            },
            !self@.due(platform, refresh_at as int) ==> final(tokens)@ == old(tokens)@,
    {
        if let Some(token) = self.stored_token_for(platform) {
            let due = match token_expires_at(&token) {
                Some(expires_at) => expires_at <= refresh_at,
                None => true,
            };
            if due {
                tokens.push((platform, token));
                proof {
                    assert(tokens@.drop_last() =~= old(tokens)@);
                }
            }
        }
    }

    /// The logins that are to be refreshed now, given by how many seconds
    /// this comes before they expire.
    pub fn tokens_requiring_refresh(&self, refresh_before: u64) -> (r: Vec<(Platform, LoginToken)>)
        ensures
            exists|now: i64|
                now >= 0 && login_views(r@) == self@.due_logins(
                    #[trigger] deadline(now, refresh_before as i64),
                ),
    {
        self.tokens_requiring_refresh_at(unix_now(), #[verifier::truncate]
        (refresh_before as i64))
    }

    /// How many logins are stored.
    pub fn stored_count(&self) -> (r: usize)
        ensures
            r == self@.count(),
    {
        let netease: usize = if self.netease.is_some() {
            1
        } else {
            0
        };
        let tencent: usize = if self.tencent.is_some() {
            1
        } else {
            0
        };
        netease + tencent
    }

    /// Whether the login for a platform has expired at the given time.
    pub fn is_expired_at(&self, platform: Platform, now: i64) -> (r: bool)
        ensures
            r == self@.expired(platform, now as int),
    {
        match self.stored_token_for(platform) {
            Some(token) => token_is_expired_at(&token, now),
            None => false,
        }
    }

    /// Whether the login for a platform has expired.
    pub fn is_expired(&self, platform: Platform) -> (r: bool)
        ensures
            exists|now: i64| now >= 0 && r == #[trigger] self@.expired(platform, now as int),
    {
        self.is_expired_at(platform, unix_now())
    }

    /// What is shown of the login for a platform at the given time.
    pub fn login_state_at(&self, platform: Platform, now: i64) -> (r: &'static str)
        ensures
            r@ == self@.state_text(platform, now as int),
    {
        match self.stored_token_for(platform) {
            None => "未登录",
            Some(token) => if token_is_expired_at(&token, now) {
                "登录已过期"
            } else {
                "已登录"
            },
        }
    }

    /// What is shown of the login for a platform.
    pub fn login_state(&self, platform: Platform) -> (r: &'static str)
        ensures
            exists|now: i64| now >= 0 && r@ == #[trigger] self@.state_text(platform, now as int),
    {
        self.login_state_at(platform, unix_now())
    }
}

#[verifier::external_type_specification]
#[verifier::external_body]
pub struct ExSystemTimeError(std::time::SystemTimeError);

/// `SystemTime::elapsed` on the Unix epoch, as milliseconds: the time of the
/// system's clock, or an error if that is before the epoch. Nothing is claimed
/// of the result.
#[verifier::external_body]
pub(crate) fn clock_milliseconds() -> (r: Result<u128, std::time::SystemTimeError>) {
    Ok(std::time::UNIX_EPOCH.elapsed()?.as_millis())
}

/// The milliseconds in a reading of the clock; 0 if it is before the Unix
/// epoch.
pub fn milliseconds_read(reading: Result<u128, std::time::SystemTimeError>) -> (r: u128)
    ensures
        r == match reading {
            Ok(milliseconds) => milliseconds,
            Err(_) => 0,
        },
{
    match reading {
        Ok(milliseconds) => milliseconds,
        Err(_) => 0,
    }
}

/// The seconds in a number of milliseconds, as far as they can be represented.
pub open spec fn seconds_in(milliseconds: u128) -> int {
    if milliseconds / 1000 <= i64::MAX {
        (milliseconds / 1000) as int
    } else {
        i64::MAX as int
    }
}

/// The seconds in a number of milliseconds, as far as they can be represented.
pub fn whole_seconds(milliseconds: u128) -> (r: i64)
    ensures
        r == seconds_in(milliseconds),
{
    let seconds: u128 = milliseconds / 1000;
    if seconds <= i64::MAX as u128 {
        seconds as i64
    } else {
        i64::MAX
    }
}

/// The time, in seconds since the Unix epoch; 0 if the clock is before it.
pub fn unix_now() -> (r: i64)
    ensures
        r >= 0,
        exists|milliseconds: u128| r == #[trigger] seconds_in(milliseconds),
{
    whole_seconds(milliseconds_read(clock_milliseconds()))
}

} // verus!
