//! What holds of the stored logins, and of the file that they are stored in.

use vstd::prelude::*;

use crate::music::{Login, Platform};
use crate::storage;
use crate::storage::{
    CookieFile, CookieStore, Cookies, LocationFailure, Relocation, RelocationEvent,
    RelocationFailure, SaveFailure,
};
use crate::text;

verus! {

/// Storing a login leaves that of the other platform as it is, and is what a
/// later look at the same platform finds.
pub proof fn law_platforms_are_stored_apart(cookies: Cookies, login: Login)
    ensures
        cookies.with(login).stored(login.platform()) == Some(login),
        cookies.with(login).stored(login.platform().other()) == cookies.stored(
            login.platform().other(),
        ),
{
}

/// A login that has expired is not used, in no header either, and is due for
/// a refresh, however short the time is by which refreshes come early.
pub proof fn law_expired_logins_are_refreshed_not_used(
    cookies: Cookies,
    platform: Platform,
    now: i64,
    early: i64,
)
    requires
        cookies.expired(platform, now as int),
        early >= 0,
    ensures
        cookies.usable(platform, now as int) is None,
        cookies.header(platform, now as int) is None,
        cookies.due(platform, storage::deadline(now, early)),
        cookies.due_logins(storage::deadline(now, early)).contains(
            (platform, cookies.stored(platform)->Some_0),
        ),
{
    lemma_due_logins(cookies, platform, storage::deadline(now, early));
}

/// A login whose expiry is not known is used, and is due for a refresh.
pub proof fn law_unknown_expiry_is_refreshed_and_used(
    cookies: Cookies,
    platform: Platform,
    now: i64,
    early: i64,
)
    requires
        cookies.stored(platform) is Some,
        cookies.stored(platform)->Some_0.expires_at() is None,
    ensures
        cookies.usable(platform, now as int) == cookies.stored(platform),
        cookies.due(platform, storage::deadline(now, early)),
        cookies.due_logins(storage::deadline(now, early)).contains(
            (platform, cookies.stored(platform)->Some_0),
        ),
{
    lemma_due_logins(cookies, platform, storage::deadline(now, early));
}

/// A login that is due is among the logins to be refreshed.
proof fn lemma_due_logins(cookies: Cookies, platform: Platform, deadline: int)
    requires
        cookies.due(platform, deadline),
    ensures
        cookies.due_logins(deadline).contains((platform, cookies.stored(platform)->Some_0)),
{
    let logins = cookies.due_logins(deadline);
    match platform {
        Platform::Netease => {
            assert(logins[0] == (platform, cookies.stored(platform)->Some_0));
        },
        Platform::Tencent => {
            assert(logins[logins.len() - 1] == (platform, cookies.stored(platform)->Some_0));
        },
    }
}

/// Which of the two paths holds the whole file with the logins.
pub struct Files {
    pub old: bool,
    pub new: bool,
}

impl Files {
    /// The files once something was done with the given outcome. An attempt
    /// to copy that failed leaves no whole file behind.
    pub open spec fn after(self, step: Relocation, event: RelocationEvent) -> Files {
        match (step, event) {
            (Relocation::Rename, RelocationEvent::Succeeded) => Files { old: false, new: self.old },
            (Relocation::Copy, RelocationEvent::Succeeded) => Files { new: self.old, ..self },
            (Relocation::Copy, RelocationEvent::Failed) => Files { new: false, ..self },
            (Relocation::RemoveOld, RelocationEvent::Succeeded) => Files { old: false, ..self },
            (Relocation::RemoveCopy, RelocationEvent::Succeeded) => Files { new: false, ..self },
            _ => self,
        }
    }

    /// What holds of the files while a move is under way.
    pub open spec fn fit(self, step: Relocation) -> bool {
        match step {
            Relocation::Inspect => self.old || self.new,
            Relocation::Rename | Relocation::Copy => self.old && !self.new,
            Relocation::RemoveOld | Relocation::RemoveCopy => self.old && self.new,
            Relocation::Enter | Relocation::Done => self.old || self.new,
            Relocation::Failed(RelocationFailure::NotEntered) => self.old || self.new,
            Relocation::Failed(_) => self.old,
        }
    }

    /// Whether an event tells the truth about the files.
    pub open spec fn reported(self, event: RelocationEvent) -> bool {
        match event {
            RelocationEvent::Inspected { old_is_file, new_exists } => old_is_file == self.old && (
            self.new ==> new_exists),
            _ => true,
        }
    }
}

/// The logins are never lost on the way to the application's own folder: at
/// every step one of the two paths holds the whole file, and after a move that
/// failed the old one does.
pub proof fn law_logins_survive_relocation(step: Relocation, event: RelocationEvent, files: Files)
    requires
        files.fit(step),
        files.reported(event),
    ensures
        files.after(step, event).fit(step.after(event)),
        files.after(step, event).old || files.after(step, event).new,
{
}

/// How many more outcomes a move can wait for.
pub open spec fn remaining(step: Relocation) -> nat {
    match step {
        Relocation::Inspect => 6,
        Relocation::Rename => 5,
        Relocation::Copy => 4,
        Relocation::RemoveOld => 3,
        Relocation::RemoveCopy => 2,
        Relocation::Enter => 1,
        Relocation::Done | Relocation::Failed(_) => 0,
    }
}

/// A move comes to an end: each outcome either leaves less to be done or does
/// not belong to what was to be done, and nothing follows the end.
pub proof fn law_relocation_ends(step: Relocation, event: RelocationEvent)
    ensures
        step.after(event) != step ==> remaining(step.after(event)) < remaining(step),
        remaining(step) == 0 ==> step.after(event) == step,
        remaining(step) > 0 && ((step == Relocation::Inspect) == (event is Inspected))
            ==> step.after(event) != step,
{
}

/// The file with the logins is renamed, or else copied and removed, where there
/// is one to be taken along and none at the new place; then the application
/// goes to its folder. What cannot be undone by another way ends the move.
pub proof fn law_the_file_is_moved_if_it_can_be(old_is_file: bool, new_exists: bool)
    ensures
        Relocation::Inspect.after(RelocationEvent::Inspected { old_is_file, new_exists })
            == if old_is_file && !new_exists {
            Relocation::Rename
        } else {
            Relocation::Enter
        },
        Relocation::Rename.after(RelocationEvent::Succeeded) == Relocation::Enter,
        Relocation::Rename.after(RelocationEvent::Failed) == Relocation::Copy,
        Relocation::Copy.after(RelocationEvent::Succeeded) == Relocation::RemoveOld,
        Relocation::Copy.after(RelocationEvent::Failed) == Relocation::Failed(
            RelocationFailure::NotCopied,
        ),
        Relocation::RemoveOld.after(RelocationEvent::Succeeded) == Relocation::Enter,
        Relocation::RemoveOld.after(RelocationEvent::Failed) == Relocation::RemoveCopy,
        Relocation::RemoveCopy.after(RelocationEvent::Succeeded) == Relocation::Failed(
            RelocationFailure::NotRemoved,
        ),
        Relocation::RemoveCopy.after(RelocationEvent::Failed) == Relocation::Failed(
            RelocationFailure::NotRemoved,
        ),
        Relocation::Enter.after(RelocationEvent::Succeeded) == Relocation::Done,
        Relocation::Enter.after(RelocationEvent::Failed) == Relocation::Failed(
            RelocationFailure::NotEntered,
        ),
{
}

/// Failures name the paths that they are about.
pub proof fn law_failures_name_their_paths(
    old: Seq<char>,
    new: Seq<char>,
    directory: Seq<char>,
    path: Seq<char>,
)
    ensures
        RelocationFailure::NotCopied.text(old, new, directory) == "无法将登录信息从 "@ + old
            + " 迁移到 "@ + new,
        RelocationFailure::NotRemoved.text(old, new, directory) == "无法清理旧登录信息:"@ + old,
        RelocationFailure::NotEntered.text(old, new, directory) == "无法进入应用程序目录:"@
            + directory,
        SaveFailure::NotWritten.text(path) == "无法保存登录信息:"@ + path,
        SaveFailure::NotSerialized.text(path) == "无法序列化登录信息"@,
{
}

/// Reading the logins gives those in the file; without a file there are none.
pub proof fn law_reading_gives_what_is_stored(path: Seq<char>, store: CookieStore)
    ensures
        storage::loaded(path, CookieFile::Read(store)) == Ok::<Cookies, Seq<char>>(store@),
        storage::loaded(path, CookieFile::Missing) == Ok::<Cookies, Seq<char>>(
            Cookies { version: 1, netease: None, tencent: None },
        ),
        storage::loaded(path, CookieFile::Unreadable) == Err::<Cookies, Seq<char>>(
            "无法读取登录信息:"@ + path,
        ),
        storage::loaded(path, CookieFile::Malformed) == Err::<Cookies, Seq<char>>(
            "登录信息 JSON 格式无效:"@ + path,
        ),
{
}

/// A cookie holds the fields of its login, each behind its name.
pub proof fn law_cookies_hold_their_login(login: Login)
    ensures
        match login {
            Login::Netease(l) => login.cookie() == "MUSIC_U="@ + l.music_u + "; __csrf="@ + l.csrf,
            Login::Tencent(l) => login.cookie() == "uin="@ + text::decimal(l.music_id as nat)
                + "; qqmusic_key="@ + l.music_key + "; qm_keyst="@ + l.music_key
                + "; tmeLoginType="@ + text::decimal(l.login_type as nat),
        },
{
}

/// What is said where the application cannot tell where it is.
pub proof fn law_unknown_locations_are_told_apart()
    ensures
        LocationFailure::NoLaunchDirectory.text() == "无法确定启动工作目录"@,
        LocationFailure::NoExecutable.text() == "无法确定应用程序路径"@,
        LocationFailure::NoParent.text() == "应用程序路径没有父目录"@,
{
}

/// Seconds are those that have passed in full, and stop at the last one that can
/// be represented.
pub proof fn law_seconds_have_passed_in_full(milliseconds: u128)
    ensures
        ({
            let seconds = storage::seconds_in(milliseconds);
            &&& 0 <= seconds <= i64::MAX
            &&& seconds * 1000 <= milliseconds
            &&& milliseconds < (seconds + 1) * 1000 || seconds == i64::MAX
        }),
{
}

} // verus!
