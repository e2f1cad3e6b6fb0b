//! What logins, their refresh and the attempts at them are for.

use vstd::prelude::*;

use crate::app::{LoginPhase, LoginRequest, NoticeKind, SaveReason};
use crate::app_laws;
use crate::app_model;
use crate::app_model::{AppModel, CodeModel, Message, OverlayModel, ReactionModel};
use crate::keys::{Command, EffectModel};
use crate::music::{Login, Platform, SongQuality};
use crate::qr;
use crate::qr::{QrFailure, ReadingModel, StepModel};
use crate::storage;
use crate::storage::{CookieFile, Cookies, Paths};
use crate::text;

verus! {

/// Whether a login may be used at a time: it does not expire, as far as is
/// known, or it does so later.
pub open spec fn in_force(login: Login, now: int) -> bool {
    match login {
        Login::Netease(l) => l.expires_at is None || now < l.expires_at->Some_0,
        Login::Tencent(l) => l.expires_at is None || now < l.expires_at->Some_0,
    }
}

/// The stored login of a platform is the one that is used, and its cookie the
/// one that is sent, as long as it is in force; of the other platform neither.
pub proof fn law_stored_logins_are_used_while_in_force(
    cookies: Cookies,
    platform: Platform,
    now: int,
)
    ensures
        match cookies.stored(platform) {
            Some(login) => {
                &&& login.platform() == platform
                &&& cookies.expired(platform, now) == !in_force(login, now)
                &&& cookies.usable(platform, now) == if in_force(login, now) {
                    Some(login)
                } else {
                    None
                }
                &&& cookies.header(platform, now) == if in_force(login, now) {
                    Some(login.cookie())
                } else {
                    None
                }
                &&& cookies.state_text(platform, now) == if in_force(login, now) {
                    "已登录"@
                } else {
                    "登录已过期"@
                }
            },
            None => {
                &&& !cookies.expired(platform, now)
                &&& cookies.usable(platform, now) is None
                &&& cookies.header(platform, now) is None
                &&& cookies.state_text(platform, now) == "未登录"@
            },
        },
        cookies.stored(Platform::Netease) == match cookies.netease {
            Some(login) => Some(Login::Netease(login)),
            None => None,
        },
        cookies.stored(Platform::Tencent) == match cookies.tencent {
            Some(login) => Some(Login::Tencent(login)),
            None => None,
        },
{
}

/// Storing a login replaces the one of its platform, and changes nothing else.
pub proof fn law_storing_replaces_one_login(cookies: Cookies, login: Login)
    ensures
        match login {
            Login::Netease(l) => cookies.with(login) == (Cookies { netease: Some(l), ..cookies }),
            Login::Tencent(l) => cookies.with(login) == (Cookies { tencent: Some(l), ..cookies }),
        },
        cookies.with(login).with(login) == cookies.with(login),
{
}

/// A login is refreshed exactly if it expires by the deadline, or no one knows
/// when; each such login once, that of Netease first.
pub proof fn law_due_logins_are_refreshed_once(cookies: Cookies, deadline: int)
    ensures
        forall|platform: Platform| #[trigger]
            cookies.due(platform, deadline) <==> match cookies.stored(platform) {
                Some(login) => login.expires_at() is None || login.expires_at()->Some_0 <= deadline,
                None => false,
            },
        cookies.due_logins(deadline).len() == (if cookies.due(Platform::Netease, deadline) {
            1int
        } else {
            0
        }) + (if cookies.due(Platform::Tencent, deadline) {
            1int
        } else {
            0
        }),
        cookies.due(Platform::Netease, deadline) ==> {
            &&& cookies.due_logins(deadline)[0].0 == Platform::Netease
            &&& Some(cookies.due_logins(deadline)[0].1) == cookies.stored(Platform::Netease)
        },
        cookies.due(Platform::Tencent, deadline) ==> {
            let last = cookies.due_logins(deadline).len() - 1;
            &&& cookies.due_logins(deadline)[last].0 == Platform::Tencent
            &&& Some(cookies.due_logins(deadline)[last].1) == cookies.stored(Platform::Tencent)
        },
        cookies.count() == (if cookies.netease is Some {
            1int
        } else {
            0
        }) + (if cookies.tencent is Some {
            1int
        } else {
            0
        }),
{
}

/// A deadline lies so many seconds ahead, wherever such a time can be
/// represented, and else as far off as can be.
pub proof fn law_deadlines_lie_ahead(now: i64, seconds: i64)
    ensures
        i64::MIN <= now + seconds <= i64::MAX ==> storage::deadline(now, seconds) == now + seconds,
        now + seconds > i64::MAX ==> storage::deadline(now, seconds) == i64::MAX,
        now + seconds < i64::MIN ==> storage::deadline(now, seconds) == i64::MIN,
{
}

/// A login expires when its token says so.
pub proof fn law_expiry_is_that_of_the_token(login: Login, now: int)
    ensures
        login.expires_at() == match login {
            Login::Netease(l) => l.expires_at,
            Login::Tencent(l) => l.expires_at,
        },
        login.expired_at(now) == !in_force(login, now),
        login.platform() == match login {
            Login::Netease(_) => Platform::Netease,
            Login::Tencent(_) => Platform::Tencent,
        },
{
}

/// The logins that are due are refreshed, each with the revision that it has,
/// and as many answers are waited for; nothing happens while some are.
pub proof fn law_due_logins_are_asked_for(app: AppModel, deadline: int)
    ensures
        ({
            let due = app.cookies.due_logins(deadline);
            let after = app.refreshing(deadline);
            let requests = app.refreshes(deadline);
            &&& app.cookie_refresh_pending > 0 ==> after == app && requests.len() == 0
            &&& app.cookies.netease is None && app.cookies.tencent is None ==> after == app
                && requests.len() == 0
            &&& app.cookie_refresh_pending <= 0 ==> {
                &&& requests.len() == due.len()
                &&& forall|i: int|
                    0 <= i < due.len() ==> {
                        &&& (#[trigger] requests[i]).platform == due[i].0
                        &&& requests[i].login == due[i].1
                        &&& requests[i].cookie_revision == match due[i].0 {
                            Platform::Netease => app.cookie_revisions[0],
                            Platform::Tencent => app.cookie_revisions[1],
                        }
                    }
                &&& due.len() > 0 ==> {
                    &&& after.cookie_refresh_pending == due.len()
                    &&& after.notice.kind == NoticeKind::Info
                    &&& after.notice.text == "正在自动更新 "@ + text::decimal(due.len())
                        + " 个已过期,即将过期或有效期未知的 Cookie..."@
                }
                &&& due.len() == 0 && (app.cookies.netease is Some || app.cookies.tencent is Some)
                    ==> {
                    &&& after.cookie_refresh_pending == app.cookie_refresh_pending
                    &&& after.notice.kind == NoticeKind::Success
                    &&& after.notice.text == "已检查 "@ + text::decimal(app.cookies.count())
                        + " 个登录 Cookie,均在有效期内"@
                }
            }
            &&& after == (AppModel {
                cookie_refresh_pending: after.cookie_refresh_pending,
                notice: after.notice,
                ..app
            })
        }),
{
}

/// A refresh with the current revision that gives a login has that login
/// stored, in a new revision, and no failure on record any more. Its platform
/// alone is concerned, where the login is of that platform.
pub proof fn law_refreshed_logins_are_stored(app: AppModel, login: Login)
    requires
        app.valid(),
        app.cookie_revisions[app_model::index(login.platform())] < u64::MAX,
    ensures
        ({
            let platform = login.platform();
            let other = match platform {
                Platform::Netease => Platform::Tencent,
                Platform::Tencent => Platform::Netease,
            };
            let (mine, theirs) = match platform {
                Platform::Netease => (0int, 1int),
                Platform::Tencent => (1int, 0int),
            };
            let message = Message::CookieRefreshFinished(
                platform,
                app.cookie_revisions[mine],
                Ok(login),
            );
            let after = app.received(message);
            &&& after.cookies.stored(platform) == Some(login)
            &&& after.cookies.stored(other) == app.cookies.stored(other)
            &&& after.cookie_revisions[mine] == app.cookie_revisions[mine] + 1
            &&& after.cookie_revisions[theirs] == app.cookie_revisions[theirs]
            &&& !after.cookie_refresh_failed.contains(platform)
            &&& after.cookie_refresh_failed.contains(other) == app.cookie_refresh_failed.contains(
                other,
            )
            &&& after.cookie_refresh_pending == if app.cookie_refresh_pending > 0 {
                app.cookie_refresh_pending - 1
            } else {
                0
            }
            &&& app.reaction(message) == ReactionModel::Save(SaveReason::Refresh(platform))
            &&& after == (AppModel {
                cookies: after.cookies,
                cookie_revisions: after.cookie_revisions,
                cookie_refresh_failed: after.cookie_refresh_failed,
                cookie_refresh_pending: after.cookie_refresh_pending,
                ..app
            })
        }),
{
    app_laws::lemma_without(app.cookie_refresh_failed, login.platform());
}

/// Whichever platform a refreshed login is of, it is stored; the revision and
/// the record are those of the platform that was refreshed.
pub proof fn law_any_refreshed_login_is_stored(app: AppModel, platform: Platform, login: Login)
    requires
        app.valid(),
        app.cookie_revisions[app_model::index(platform)] < u64::MAX,
    ensures
        ({
            let (mine, theirs) = match platform {
                Platform::Netease => (0int, 1int),
                Platform::Tencent => (1int, 0int),
            };
            let message = Message::CookieRefreshFinished(
                platform,
                app.cookie_revisions[mine],
                Ok(login),
            );
            let after = app.received(message);
            &&& after.cookies.stored(login.platform()) == Some(login)
            &&& after.cookies.stored(login.platform().other()) == app.cookies.stored(
                login.platform().other(),
            )
            &&& after.cookie_revisions.len() == 2
            &&& after.cookie_revisions[mine] == app.cookie_revisions[mine] + 1
            &&& after.cookie_revisions[theirs] == app.cookie_revisions[theirs]
            &&& !after.cookie_refresh_failed.contains(platform)
            &&& app.reaction(message) == ReactionModel::Save(SaveReason::Refresh(platform))
        }),
{
    app_laws::lemma_without(app.cookie_refresh_failed, platform);
}

/// A refresh with the current revision that failed leaves the logins and their
/// revisions as they are, and is on record for its platform alone.
pub proof fn law_failed_refreshes_are_recorded(app: AppModel, platform: Platform, error: Seq<char>)
    ensures
        ({
            let mine = match platform {
                Platform::Netease => 0int,
                Platform::Tencent => 1int,
            };
            let other = match platform {
                Platform::Netease => Platform::Tencent,
                Platform::Tencent => Platform::Netease,
            };
            let message = Message::CookieRefreshFinished(
                platform,
                app.cookie_revisions[mine],
                Err(error),
            );
            let after = app.received(message);
            &&& after.cookie_refresh_failed.contains(platform)
            &&& after.cookie_refresh_failed.contains(other) == app.cookie_refresh_failed.contains(
                other,
            )
            &&& after.cookie_refresh_pending == if app.cookie_refresh_pending > 0 {
                app.cookie_refresh_pending - 1
            } else {
                0
            }
            &&& after == (AppModel {
                cookie_refresh_failed: after.cookie_refresh_failed,
                cookie_refresh_pending: after.cookie_refresh_pending,
                notice: after.notice,
                ..app
            })
            &&& after.notice.kind == NoticeKind::Warning
            &&& after.notice.text == platform.label() + " Cookie 自动更新失败:"@ + error
                + ";请按 Ctrl+L 重新登录"@
            &&& app.reaction(message) is Nothing
        }),
{
    let failed = app.cookie_refresh_failed;
    let longer = failed.push(platform);
    assert(longer[failed.len() as int] == platform);
    assert forall|p: Platform| p != platform implies longer.contains(p) == failed.contains(p) by {
        if failed.contains(p) {
            let i = choose|i: int| 0 <= i < failed.len() && failed[i] == p;
            assert(longer[i] == p);
        }
        if longer.contains(p) {
            let i = choose|i: int| 0 <= i < longer.len() && longer[i] == p;
            assert(failed[i] == p);
        }
    }
}

/// The outcome of a refresh from before the login changed is counted, and
/// otherwise has no effect.
pub proof fn law_outdated_refreshes_are_only_counted(
    app: AppModel,
    platform: Platform,
    revision: u64,
    result: Result<Login, Seq<char>>,
)
    requires
        revision != app.cookie_revisions[match platform {
            Platform::Netease => 0int,
            Platform::Tencent => 1int,
        }],
    ensures
        ({
            let message = Message::CookieRefreshFinished(platform, revision, result);
            &&& app.received(message) == (AppModel {
                cookie_refresh_pending: if app.cookie_refresh_pending > 0 {
                    app.cookie_refresh_pending - 1
                } else {
                    0
                },
                ..app
            })
            &&& app.reaction(message) is Nothing
        }),
{
}

/// A login attempt that succeeds has its login stored, in a new revision, with
/// no failure on record, and is over; all else stays.
pub proof fn law_successful_attempts_store_their_login(
    app: AppModel,
    request_id: u64,
    login: Login,
)
    requires
        app.valid(),
        app.awaits_login(request_id),
        app.cookie_revisions[app_model::index(login.platform())] < u64::MAX,
    ensures
        ({
            let platform = login.platform();
            let mine = match platform {
                Platform::Netease => 0int,
                Platform::Tencent => 1int,
            };
            let message = Message::LoginSuccess(request_id, login);
            let after = app.received(message);
            &&& after.cookies.stored(platform) == Some(login)
            &&& after.cookie_revisions[mine] == app.cookie_revisions[mine] + 1
            &&& !after.cookie_refresh_failed.contains(platform)
            &&& after.login_overlay is None
            &&& after.login_cancel is None
            &&& app.reaction(message) == ReactionModel::Save(SaveReason::Login(platform))
            &&& after == (AppModel {
                cookies: after.cookies,
                cookie_revisions: after.cookie_revisions,
                cookie_refresh_failed: after.cookie_refresh_failed,
                login_overlay: None,
                login_cancel: None,
                ..app
            })
        }),
{
    app_laws::lemma_without(app.cookie_refresh_failed, login.platform());
}

/// News of a login attempt count exactly while it is the one on display and
/// has neither failed nor expired.
pub proof fn law_news_count_while_the_attempt_is_open(app: AppModel, request_id: u64)
    ensures
        app.awaits_login(request_id) <==> {
            &&& app.login_overlay matches Some(overlay)
            &&& overlay.request_id == request_id
            &&& overlay.phase != LoginPhase::Failed
            &&& overlay.phase != LoginPhase::Expired
        },
{
}

/// The code of the awaited attempt is shown whole: all the lines that were
/// prepared, in their order, and the scan is waited for.
pub proof fn law_prepared_codes_are_shown_whole(
    app: AppModel,
    request_id: u64,
    lines: Seq<Seq<char>>,
)
    requires
        app.awaits_login(request_id),
    ensures
        ({
            let after = app.qr_shown(request_id, Ok(lines));
            &&& after.login_overlay matches Some(overlay)
            &&& overlay.qr_lines == lines
            &&& overlay.phase == LoginPhase::WaitingScan
            &&& overlay.request_id == request_id
            &&& overlay.detail == "请扫描终端中的二维码登录"@
            &&& after == (AppModel { login_overlay: after.login_overlay, ..app })
            &&& app.qr_cancels(request_id, Ok(lines)) is None
            &&& app.code_advanced(request_id, StepModel::Done(Ok(lines))) == after
            &&& app.code_reaction(request_id, lines[0], StepModel::Done(Ok(lines))) is Nothing
        }),
{
}

/// A code that could not be prepared ends the attempt, says why, and has the
/// polling stopped.
pub proof fn law_unprepared_codes_say_why(app: AppModel, request_id: u64, failure: QrFailure)
    requires
        app.awaits_login(request_id),
    ensures
        ({
            let after = app.qr_shown(request_id, Err(failure));
            &&& after.login_overlay matches Some(overlay)
            &&& overlay.phase == LoginPhase::Failed
            &&& overlay.detail == "二维码处理失败:"@ + failure.text()
            &&& overlay.request_id == request_id
            &&& overlay.qr_lines == app.login_overlay->Some_0.qr_lines
            &&& after.login_cancel is None
            &&& after == (AppModel {
                login_overlay: after.login_overlay,
                login_cancel: None,
                ..app
            })
            &&& app.qr_cancels(request_id, Err(failure)) == app.login_cancel
            &&& app.code_advanced(request_id, StepModel::Done(Err(failure))) == after
        }),
{
}

/// The payload of the awaited attempt is prepared as it came: its file is read
/// for that attempt, and nothing changes on the display meanwhile.
pub proof fn law_payloads_are_prepared_for_their_attempt(
    app: AppModel,
    request_id: u64,
    payload: Seq<char>,
    bare: bool,
    reading: ReadingModel,
    file: Seq<u8>,
)
    requires
        app.awaits_login(request_id),
    ensures
        match qr::first_step(payload) {
            StepModel::Read(first, may_be) => {
                &&& app.received(Message::LoginQr(request_id, payload)) == app
                &&& app.reaction(Message::LoginQr(request_id, payload)) == ReactionModel::ReadCode(
                    CodeModel { request_id, payload, file: first, bare: may_be },
                )
            },
            StepModel::Done(prepared) => app.received(Message::LoginQr(request_id, payload))
                == app.qr_shown(request_id, prepared),
        },
        AppModel::step_after(CodeModel { request_id, payload, file, bare }, reading)
            == qr::next_step(payload, bare, reading),
        forall|step: StepModel|
            match step {
                StepModel::Read(next, again) => {
                    &&& #[trigger] app.code_advanced(request_id, step) == app
                    &&& app.code_reaction(request_id, payload, step) == ReactionModel::ReadCode(
                        CodeModel { request_id, payload, file: next, bare: again },
                    )
                },
                StepModel::Done(prepared) => {
                    &&& app.code_advanced(request_id, step) == app.qr_shown(request_id, prepared)
                    &&& app.code_reaction(request_id, payload, step) == match app.qr_cancels(
                        request_id,
                        prepared,
                    ) {
                        Some(id) => ReactionModel::CancelLogin(id),
                        None => ReactionModel::Nothing,
                    }
                },
            },
{
}

/// The awaited attempt comes to the phase that is reported, with the detail
/// that is reported, and keeps its code.
pub proof fn law_phases_are_shown_as_reported(
    app: AppModel,
    request_id: u64,
    phase: LoginPhase,
    detail: Seq<char>,
)
    requires
        app.awaits_login(request_id),
    ensures
        ({
            let after = app.received(Message::LoginPhase(request_id, phase, detail));
            let settled = phase == LoginPhase::Failed || phase == LoginPhase::Expired;
            &&& after.login_overlay matches Some(overlay)
            &&& overlay.phase == phase
            &&& overlay.detail == detail
            &&& overlay.request_id == request_id
            &&& overlay.qr_lines == app.login_overlay->Some_0.qr_lines
            &&& after.login_cancel == if settled {
                None
            } else {
                app.login_cancel
            }
            &&& after == (AppModel {
                login_overlay: after.login_overlay,
                login_cancel: after.login_cancel,
                ..app
            })
            &&& app.reaction(Message::LoginPhase(request_id, phase, detail)) is Nothing
        }),
{
}

/// A new attempt has a new number, is for the current platform, starts without
/// a code, and can be ended; the one before it is to be ended.
pub proof fn law_attempts_start_afresh(app: AppModel, now: int)
    requires
        0 <= app.login_request_id < u64::MAX,
    ensures
        ({
            let after = app.login_started();
            let id = (app.login_request_id + 1) as u64;
            &&& after == (AppModel {
                login_request_id: app.login_request_id + 1,
                login_cancel: Some(id),
                login_overlay: Some(
                    OverlayModel {
                        request_id: id,
                        phase: LoginPhase::Creating,
                        qr_lines: seq![],
                        detail: "正在向平台申请登录二维码..."@,
                    },
                ),
                ..app
            })
            &&& app.effect(Command::Login, now) == EffectModel::Login(
                LoginRequest {
                    cancelled: app.login_cancel,
                    request_id: id,
                    platform: app.platform,
                },
            )
        }),
{
}

/// Ending an attempt takes its window away, and nothing else.
pub proof fn law_ended_attempts_leave_no_window(app: AppModel)
    ensures
        app.login_cancelled() == (AppModel { login_overlay: None, login_cancel: None, ..app }),
{
}

/// There is a warning on a platform exactly if its login has expired or could
/// not be refreshed, and it names the platform, the problem and the way out.
pub proof fn law_warnings_say_what_to_do(app: AppModel, platform: Platform, now: int)
    ensures
        ({
            let action = if platform == app.platform {
                "Ctrl+L 重新登录"@
            } else {
                "Ctrl+P 切换后 Ctrl+L 登录"@
            };
            let name = match platform {
                Platform::Netease => "网易云"@,
                Platform::Tencent => "QQ音乐"@,
            };
            let expired = app.cookies.stored(platform) is Some && !in_force(
                app.cookies.stored(platform)->Some_0,
                now,
            );
            let failed = app.cookie_refresh_failed.contains(platform);
            &&& app.warning(platform, now) is Some <==> expired || failed
            &&& expired ==> app.warning(platform, now) == Some(
                name + " "@ + "Cookie 已过期"@ + ";"@ + action,
            )
            &&& !expired && failed ==> app.warning(platform, now) == Some(
                name + " "@ + "Cookie 刷新失败"@ + ";"@ + action,
            )
            &&& app.login_text(platform, now) == if expired {
                "登录已过期"@
            } else if failed {
                "登录待确认"@
            } else if app.cookies.stored(platform) is Some {
                "已登录"@
            } else {
                "未登录"@
            }
        }),
        app.warnings(now).len() == (if app.warning(Platform::Netease, now) is Some {
            1int
        } else {
            0
        }) + (if app.warning(Platform::Tencent, now) is Some {
            1int
        } else {
            0
        }),
        app.warning(Platform::Netease, now) is Some ==> Some(app.warnings(now)[0]) == app.warning(
            Platform::Netease,
            now,
        ),
        app.warning(Platform::Tencent, now) is Some ==> Some(app.warnings(now).last())
            == app.warning(Platform::Tencent, now),
{
}

/// How storing the logins went is said, and nothing else changes.
pub proof fn law_storing_is_reported(app: AppModel, platform: Platform, error: Seq<char>)
    ensures
        ({
            let a = app.saved(SaveReason::Login(platform), Ok(()));
            let b = app.saved(SaveReason::Login(platform), Err(error));
            let c = app.saved(SaveReason::Refresh(platform), Ok(()));
            let d = app.saved(SaveReason::Refresh(platform), Err(error));
            &&& a == (AppModel { notice: a.notice, ..app })
            &&& b == (AppModel { notice: b.notice, ..app })
            &&& c == (AppModel { notice: c.notice, ..app })
            &&& d == (AppModel { notice: d.notice, ..app })
            &&& a.notice.kind == NoticeKind::Success
            &&& b.notice.kind == NoticeKind::Warning
            &&& c.notice.kind == NoticeKind::Success
            &&& d.notice.kind == NoticeKind::Warning
            &&& a.notice.text == platform.label() + " 登录成功,登录信息已保存"@
            &&& b.notice.text == "登录成功,但保存登录信息失败:"@ + error
            &&& c.notice.text == platform.label() + " Cookie 已自动更新并立即保存"@
            &&& d.notice.text == platform.label() + " Cookie 已更新,但写入 "@
                + app.paths.cookie_file + " 失败:"@ + error
        }),
{
}

/// The application starts with the logins that were read, and none where there
/// was no file or it could not be read, which is then said.
pub proof fn law_the_start_has_the_stored_logins(paths: Paths, file: CookieFile)
    ensures
        ({
            let start = app_model::initial(paths, file);
            let none = Cookies { version: 1, netease: None, tencent: None };
            &&& start.paths == paths
            &&& start.cookies == match file {
                CookieFile::Read(store) => store@,
                _ => none,
            }
            &&& start.notice.kind == match file {
                CookieFile::Read(_) | CookieFile::Missing => NoticeKind::Info,
                _ => NoticeKind::Warning,
            }
            &&& file is Read || file is Missing ==> start.notice.text
                == "直接输入关键词后按 Enter 搜索;按 F1 或 Ctrl+H 查看帮助"@
            &&& file is Unreadable ==> start.notice.text
                == "登录信息读取失败,将以未登录状态启动:"@ + ("无法读取登录信息:"@
                + paths.cookie_file)
            &&& file is Malformed ==> start.notice.text
                == "登录信息读取失败,将以未登录状态启动:"@ + ("登录信息 JSON 格式无效:"@
                + paths.cookie_file)
            &&& start.platform == Platform::Netease
            &&& start.quality == SongQuality::Lossless
            &&& start.query.len() == 0
            &&& start.input.len() == 0
            &&& start.results.len() == 0
            &&& start.marked.len() == 0
            &&& start.downloads.len() == 0
            &&& start.page == 1
            &&& !start.more
            &&& !start.loading
            &&& !start.show_help
            &&& !start.should_quit
            &&& start.login_overlay is None
            &&& start.login_cancel is None
            &&& start.selected_row == 0
            &&& start.search_request_id == 0
            &&& start.login_request_id == 0
            &&& start.next_job_id == 1
            &&& start.cookie_refresh_pending == 0
            &&& start.cookie_refresh_failed.len() == 0
            &&& start.cookie_revisions == seq![0u64, 0u64]
        }),
{
}

/// Platforms and qualities are called by their names.
pub proof fn law_platforms_and_qualities_have_names(platform: Platform, quality: SongQuality)
    ensures
        platform.label() == match platform {
            Platform::Netease => "网易云音乐"@,
            Platform::Tencent => "QQ 音乐"@,
        },
        platform.other() == match platform {
            Platform::Netease => Platform::Tencent,
            Platform::Tencent => Platform::Netease,
        },
        quality.label() == match quality {
            SongQuality::Master => "母带"@,
            SongQuality::Surround => "环绕声"@,
            SongQuality::Stereo => "立体声"@,
            SongQuality::Hires => "Hi-Res"@,
            SongQuality::Lossless => "无损"@,
            SongQuality::Exhigh => "极高"@,
            SongQuality::Standard => "标准"@,
        },
{
}

} // verus!
