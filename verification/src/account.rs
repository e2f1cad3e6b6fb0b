//! Logins: what is shown of them, refreshing them, and attempts to log in.

use vstd::prelude::*;

use crate::app::{
    platform_index, App, LoginOverlay, LoginPhase, LoginRequest, NoticeKind, RefreshRequest,
    SaveReason, COOKIE_REFRESH_BEFORE,
};
use crate::app_model;
use crate::model;
use crate::music::{LoginToken, Platform};
use crate::qr::QrFailure;
use crate::storage;
use crate::storage::unix_now;
use crate::text;

verus! {

/// Whether a platform is in a list.
fn is_among(platforms: &Vec<Platform>, platform: Platform) -> (r: bool)
    ensures
        r == platforms@.contains(platform),
{
    let mut i: usize = 0;
    while i < platforms.len()
        invariant
            i <= platforms.len(),
            forall|j: int| 0 <= j < i ==> #[trigger] platforms@[j] != platform,
        decreases platforms.len() - i,
    {
        if platforms[i] == platform {
            return true;
        }
        i = i + 1;
    }
    false
}

/// A list of platforms without one of them.
fn drop_platform(platforms: &Vec<Platform>, platform: Platform) -> (r: Vec<Platform>)
    ensures
        r@ == app_model::without(platforms@, platform),
{
    let mut kept: Vec<Platform> = Vec::new();
    let mut i: usize = 0;
    proof {
        assert(platforms@.take(0) =~= seq![]);
    }
    while i < platforms.len()
        invariant
            i <= platforms.len(),
            kept@ == app_model::without(platforms@.take(i as int), platform),
        decreases platforms.len() - i,
    {
        proof {
            assert(platforms@.take(i + 1).drop_last() =~= platforms@.take(i as int));
        }
        if platforms[i] != platform {
            kept.push(platforms[i]);
        }
        i = i + 1;
    }
    proof {
        assert(platforms@.take(i as int) =~= platforms@);
    }
    kept
}

impl LoginPhase {
    /// Whether a login that has come to this phase can still succeed.
    pub fn is_open(self) -> (r: bool)
        ensures
            r == app_model::open_phase(self),
    {
        self != LoginPhase::Failed && self != LoginPhase::Expired
    }
}

impl App {
    /// What is shown of the login for a platform at the given time.
    pub fn login_state_at(&self, platform: Platform, now: i64) -> (r: &'static str)
        ensures
            r@ == self@.login_text(platform, now as int),
    {
        if self.cookies.is_expired_at(platform, now) {
            "登录已过期"
        } else if is_among(&self.cookie_refresh_failed, platform) {
            "登录待确认"
        } else {
            self.cookies.login_state_at(platform, now)
        }
    }

    /// What is shown of the login for a platform.
    pub fn login_state(&self, platform: Platform) -> (r: &'static str)
        ensures
            exists|now: i64| now >= 0 && r@ == #[trigger] self@.login_text(platform, now as int),
    {
        self.login_state_at(platform, unix_now())
    }

    /// The warning on the login for a platform at the given time.
    fn cookie_warning_at(&self, platform: Platform, now: i64) -> (r: Option<String>)
        ensures
            model::view_of(r) == self@.warning(platform, now as int),
    {
        let problem = if self.cookies.is_expired_at(platform, now) {
            "Cookie 已过期"
        } else if is_among(&self.cookie_refresh_failed, platform) {
            "Cookie 刷新失败"
        } else {
            return None;
        };
        let name = match platform {
            Platform::Netease => "网易云",
            Platform::Tencent => "QQ音乐",
        };
        let action = if platform == self.platform {
            "Ctrl+L 重新登录"
        } else {
            "Ctrl+P 切换后 Ctrl+L 登录"
        };
        Some(name.to_owned().concat(" ").concat(problem).concat(";").concat(action))
    }

    /// The warnings on logins at the given time. They stay until a refresh or
    /// a login succeeds.
    pub fn cookie_warnings_at(&self, now: i64) -> (r: Vec<String>)
        ensures
            model::views(r@) == self@.warnings(now as int),
    {
        let mut warnings: Vec<String> = Vec::new();
        if let Some(warning) = self.cookie_warning_at(Platform::Netease, now) {
            warnings.push(warning);
        }
        if let Some(warning) = self.cookie_warning_at(Platform::Tencent, now) {
            warnings.push(warning);
        }
        proof {
            assert(model::views(warnings@) =~= self@.warnings(now as int));
        }
        warnings
    }

    /// The warnings on logins.
    pub fn cookie_warnings(&self) -> (r: Vec<String>)
        ensures
            exists|now: i64| now >= 0 && model::views(r@) == #[trigger] self@.warnings(now as int),
    {
        self.cookie_warnings_at(unix_now())
    }

    /// Looks for logins that are to be refreshed at the given time.
    pub fn check_and_refresh_cookies_at(&mut self, now: i64) -> (r: Vec<RefreshRequest>)
        ensures
            final(self)@ == old(self)@.refreshing(
                storage::deadline(now, COOKIE_REFRESH_BEFORE as i64),
            ).dated(final(self).notice.changed_at),
            model::views(r@) == old(self)@.refreshes(
                storage::deadline(now, COOKIE_REFRESH_BEFORE as i64),
            ),
    {
        let ghost deadline = storage::deadline(now, COOKIE_REFRESH_BEFORE as i64);
        let mut requests: Vec<RefreshRequest> = Vec::new();
        let stored_count: usize = self.cookies.stored_count();
        if self.cookie_refresh_pending > 0 || stored_count == 0 {
            proof {
                assert(model::views(requests@) =~= self@.refreshes(deadline));
            }
            return requests;
        }
        let candidates = self.cookies.tokens_requiring_refresh_at(
            now,
            COOKIE_REFRESH_BEFORE as i64,
        );
        proof {
            assert(candidates@.len() == storage::login_views(candidates@).len());
        }
        if candidates.len() == 0 {
            let text = "已检查 ".to_owned().concat(
                text::decimal_text(stored_count as u64).as_str(),
            ).concat(" 个登录 Cookie,均在有效期内");
            self.set_notice(NoticeKind::Success, text.as_str());
            proof {
                assert(model::views(requests@) =~= old(self)@.refreshes(deadline));
            }
            return requests;
        }
        self.cookie_refresh_pending = candidates.len();
        let text = "正在自动更新 ".to_owned().concat(
            text::decimal_text(candidates.len() as u64).as_str(),
        ).concat(" 个已过期,即将过期或有效期未知的 Cookie...");
        self.set_notice(NoticeKind::Info, text.as_str());
        let ghost due = self@.cookies.due_logins(deadline);
        let mut i: usize = 0;
        while i < candidates.len()
            invariant
                i <= candidates.len(),
                storage::login_views(candidates@) == due,
                requests.len() == i,
                forall|j: int|
                    0 <= j < i ==> (#[trigger] requests@[j])@ == (app_model::RefreshModel {
                        platform: due[j].0,
                        cookie_revision: self@.cookie_revisions[app_model::index(due[j].0)],
                        login: due[j].1,
                    }),
            decreases candidates.len() - i,
        {
            let platform = candidates[i].0;
            let cookie_revision: u64 = self.cookie_revisions[platform_index(platform)];
            proof {
                assert(due[i as int] == (platform, candidates@[i as int].1@));
            }
            requests.push(
                RefreshRequest { platform, cookie_revision, token: candidates[i].1.clone() },
            );
            i = i + 1;
        }
        proof {
            assert(model::views(requests@) =~= old(self)@.refreshes(deadline));
        }
        requests
    }

    /// Looks for logins that are to be refreshed.
    pub fn check_and_refresh_cookies(&mut self) -> (r: Vec<RefreshRequest>)
        ensures
            exists|now: i64|
                now >= 0 && {
                    let deadline = #[trigger] storage::deadline(now, COOKIE_REFRESH_BEFORE as i64);
                    &&& final(self)@ == old(self)@.refreshing(deadline).dated(final(self).notice.changed_at)
                    &&& model::views(r@) == old(self)@.refreshes(deadline)
                },
    {
        self.check_and_refresh_cookies_at(unix_now())
    }

    /// Starts an attempt to log in to the current platform, in place of the
    /// one before.
    pub fn start_login(&mut self) -> (r: LoginRequest)
        requires
            old(self)@.login_request_id < u64::MAX,
        ensures
            final(self)@ == old(self)@.login_started(),
            r == (LoginRequest {
                cancelled: old(self)@.login_cancel,
                request_id: (old(self)@.login_request_id + 1) as u64,
                platform: old(self)@.platform,
            }),
    {
        let cancelled = self.cancel_login();
        self.login_request_id = self.login_request_id + 1;
        let request_id: u64 = self.login_request_id;
        self.login_cancel = Some(request_id);
        self.login_overlay =
        Some(
            LoginOverlay {
                request_id,
                phase: LoginPhase::Creating,
                qr_lines: Vec::new(),
                detail: "正在向平台申请登录二维码...".to_owned(),
            },
        );
        proof {
            assert(self@.login_overlay->Some_0.qr_lines =~= seq![]);
        }
        LoginRequest { cancelled, request_id, platform: self.platform }
    }

    /// Ends the login attempt, and gives its number if it has to be told.
    pub fn cancel_login(&mut self) -> (r: Option<u64>)
        ensures
            final(self)@ == old(self)@.login_cancelled(),
            r == old(self)@.login_cancel,
    {
        let cancelled = self.login_cancel;
        self.login_cancel = None;
        self.login_overlay = None;
        cancelled
    }

    /// Whether news of the given login attempt still count.
    pub fn awaits_login(&self, request_id: u64) -> (r: bool)
        ensures
            r == self@.awaits_login(request_id),
    {
        match &self.login_overlay {
            Some(overlay) => overlay.request_id == request_id && overlay.phase.is_open(),
            None => false,
        }
    }

    /// Shows the code of a login attempt, or that there is none, and gives
    /// the attempt that is to be ended for it.
    pub fn show_qr(&mut self, request_id: u64, prepared: Result<Vec<String>, QrFailure>) -> (r:
        Option<u64>)
        ensures
            final(self)@ == old(self)@.qr_shown(
                request_id,
                match prepared {
                    Ok(lines) => Ok(model::views(lines@)),
                    Err(failure) => Err(failure),
                },
            ),
            r == old(self)@.qr_cancels(
                request_id,
                match prepared {
                    Ok(lines) => Ok(model::views(lines@)),
                    Err(failure) => Err(failure),
                },
            ),
    {
        if !self.awaits_login(request_id) {
            return None;
        }
        let mut cancelled: Option<u64> = None;
        if let Some(overlay) = &mut self.login_overlay {
            match prepared {
                Ok(lines) => {
                    overlay.qr_lines = lines;
                    overlay.phase = LoginPhase::WaitingScan;
                    overlay.detail = "请扫描终端中的二维码登录".to_owned();
                },
                Err(failure) => {
                    overlay.phase = LoginPhase::Failed;
                    overlay.detail = "二维码处理失败:".to_owned().concat(failure.message());
                    cancelled = self.login_cancel;
                    self.login_cancel = None;
                },
            }
        }
        cancelled
    }

    /// Moves a login attempt to another phase.
    pub fn move_login(&mut self, request_id: u64, phase: LoginPhase, detail: String)
        ensures
            final(self)@ == old(self)@.login_moved(request_id, phase, detail@),
    {
        if !self.awaits_login(request_id) {
            return;
        }
        if let Some(overlay) = &mut self.login_overlay {
            overlay.phase = phase;
            overlay.detail = detail;
        }
        if !phase.is_open() {
            self.login_cancel = None;
        }
    }

    /// Takes over a new login of a platform.
    fn renew(&mut self, platform: Platform, token: LoginToken)
        requires
            old(self)@.cookie_revisions[app_model::index(platform)] < u64::MAX,
        ensures
            final(self)@ == old(self)@.renewed(platform, token@),
    {
        self.cookies.set(token);
        let i: usize = platform_index(platform);
        let revision: u64 = self.cookie_revisions[i];
        self.cookie_revisions[i] = revision + 1;
        self.cookie_refresh_failed = drop_platform(&self.cookie_refresh_failed, platform);
        proof {
            assert(self@.cookie_revisions =~= old(self)@.renewed(platform, token@).cookie_revisions);
        }
    }

    /// Takes over the login that an attempt has given, and says whether the
    /// logins are to be stored.
    pub fn finish_login(&mut self, request_id: u64, token: LoginToken) -> (r: bool)
        requires
            old(self)@.awaits_login(request_id) ==> old(self)@.cookie_revisions[app_model::index(
                token@.platform(),
            )] < u64::MAX,
        ensures
            final(self)@ == old(self)@.logged_in(request_id, token@),
            r == old(self)@.awaits_login(request_id),
    {
        if !self.awaits_login(request_id) {
            return false;
        }
        self.renew(token.platform(), token);
        self.login_overlay = None;
        self.login_cancel = None;
        true
    }

    /// Takes over what a refresh has given, and says whether the logins are
    /// to be stored.
    pub fn finish_refresh(
        &mut self,
        platform: Platform,
        cookie_revision: u64,
        result: Result<LoginToken, String>,
    ) -> (r: bool)
        requires
            cookie_revision == old(self)@.cookie_revisions[app_model::index(platform)]
                && result is Ok ==> cookie_revision < u64::MAX,
        ensures
            final(self)@ == old(self)@.refresh_finished(
                platform,
                cookie_revision,
                match result {
                    Ok(token) => Ok(token@),
                    Err(error) => Err(error@),
                },
            ).dated(final(self).notice.changed_at),
            r == (cookie_revision == old(self)@.cookie_revisions[app_model::index(platform)]
                && result is Ok),
    {
        self.cookie_refresh_pending = self.cookie_refresh_pending.saturating_sub(1);
        if cookie_revision != self.cookie_revisions[platform_index(platform)] {
            return false;
        }
        match result {
            Ok(token) => {
                self.renew(platform, token);
                true
            },
            Err(error) => {
                if !is_among(&self.cookie_refresh_failed, platform) {
                    self.cookie_refresh_failed.push(platform);
                }
                let text = App::platform_label(platform).to_owned().concat(
                    " Cookie 自动更新失败:",
                ).concat(error.as_str()).concat(";请按 Ctrl+L 重新登录");
                self.set_notice(NoticeKind::Warning, text.as_str());
                false
            },
        }
    }

    /// Says how storing the logins went.
    pub fn finish_save(&mut self, reason: SaveReason, result: Result<(), String>)
        ensures
            final(self)@ == old(self)@.saved(
                reason,
                match result {
                    Ok(_) => Ok(()),
                    Err(error) => Err(error@),
                },
            ).dated(final(self).notice.changed_at),
    {
        match reason {
            SaveReason::Login(platform) => match result {
                Ok(_) => {
                    let text = App::platform_label(platform).to_owned().concat(
                        " 登录成功,登录信息已保存",
                    );
                    self.set_notice(NoticeKind::Success, text.as_str());
                },
                Err(error) => {
                    let text = "登录成功,但保存登录信息失败:".to_owned().concat(error.as_str());
                    self.set_notice(NoticeKind::Warning, text.as_str());
                },
            },
            SaveReason::Refresh(platform) => match result {
                Ok(_) => {
                    let text = App::platform_label(platform).to_owned().concat(
                        " Cookie 已自动更新并立即保存",
                    );
                    self.set_notice(NoticeKind::Success, text.as_str());
                },
                Err(error) => {
                    let text = App::platform_label(platform).to_owned().concat(
                        " Cookie 已更新,但写入 ",
                    ).concat(self.paths.cookie_file.as_str()).concat(" 失败:").concat(
                        error.as_str(),
                    );
                    self.set_notice(NoticeKind::Warning, text.as_str());
                },
            },
        }
    }
}

} // verus!
