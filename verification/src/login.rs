//! An attempt to log in: a session is created, its code is shown, and its
//! status is asked for again and again until it is settled.

use vstd::prelude::*;

use crate::app::{AppMessage, LoginPhase};
use crate::app_model::Message;
use crate::model;
use crate::music::{Login, LoginToken, Platform};
use crate::qr::{validate_qr_payload, QrFailure};
use crate::text;

verus! {

/// How many seconds pass before the status is asked for again.
pub const POLL_PAUSE_SECONDS: u64 = 2;

/// What a platform says of an attempt.
#[derive(Debug)]
pub enum LoginStatus {
    Success(LoginToken),
    QrCodeExpired,
    WaitingScan,
    WaitingConfirm,
}

/// What is to be done next for an attempt.
#[derive(Clone, Copy, Debug, PartialEq, Eq, Structural)]
pub enum PollStage {
    CreateSession,
    QueryStatus,
    Pause,
    Ended,
}

/// What came of the last thing that was to be done.
#[derive(Debug)]
pub enum PollEvent {
    /// The session was created, with this payload for its code.
    SessionCreated(String),
    SessionFailed(String),
    Status(LoginStatus),
    /// The status is not known. If the connection over which the Tencent
    /// platform tells it was lost, there is a cause.
    StatusFailed { lost_connection: Option<String>, error: String },
    PauseOver,
    /// The user has ended the attempt.
    Cancelled,
}

/// An attempt to log in.
#[derive(Debug)]
pub struct LoginPoll {
    pub request_id: u64,
    pub platform: Platform,
    pub stage: PollStage,
}

/// What a platform says of an attempt.
pub enum StatusModel {
    Success(Login),
    QrCodeExpired,
    WaitingScan,
    WaitingConfirm,
}

/// What came of the last thing that was to be done.
pub enum PollModel {
    SessionCreated(Seq<char>),
    SessionFailed(Seq<char>),
    Status(StatusModel),
    StatusFailed(Option<Seq<char>>, Seq<char>),
    PauseOver,
    Cancelled,
}

impl View for LoginStatus {
    type V = StatusModel;

    open spec fn view(&self) -> StatusModel {
        match self {
            LoginStatus::Success(token) => StatusModel::Success(token@),
            LoginStatus::QrCodeExpired => StatusModel::QrCodeExpired,
            LoginStatus::WaitingScan => StatusModel::WaitingScan,
            LoginStatus::WaitingConfirm => StatusModel::WaitingConfirm,
        }
    }
}

impl View for PollEvent {
    type V = PollModel;

    open spec fn view(&self) -> PollModel {
        match self {
            PollEvent::SessionCreated(payload) => PollModel::SessionCreated(payload@),
            PollEvent::SessionFailed(error) => PollModel::SessionFailed(error@),
            PollEvent::Status(status) => PollModel::Status(status@),
            PollEvent::StatusFailed { lost_connection, error } => PollModel::StatusFailed(
                model::view_of(*lost_connection),
                error@,
            ),
            PollEvent::PauseOver => PollModel::PauseOver,
            PollEvent::Cancelled => PollModel::Cancelled,
        }
    }
}

impl PollStage {
    /// What is to be done after an event. An event that does not fit what was
    /// to be done changes nothing.
    pub open spec fn after(self, platform: Platform, event: PollModel) -> PollStage {
        match (self, event) {
            (PollStage::Ended, _) => PollStage::Ended,
            (_, PollModel::Cancelled) => PollStage::Ended,
            (PollStage::CreateSession, PollModel::SessionCreated(payload)) => if text::blank(
                payload,
            ) {
                PollStage::Ended
            } else {
                PollStage::QueryStatus
            },
            (PollStage::CreateSession, PollModel::SessionFailed(_)) => PollStage::Ended,
            (
                PollStage::QueryStatus,
                PollModel::Status(StatusModel::WaitingScan | StatusModel::WaitingConfirm),
            ) => PollStage::Pause,
            (PollStage::QueryStatus, PollModel::Status(_)) => PollStage::Ended,
            (PollStage::QueryStatus, PollModel::StatusFailed(lost_connection, _)) => if recoverable(
                platform,
                lost_connection,
            ) {
                PollStage::Pause
            } else {
                PollStage::Ended
            },
            (PollStage::Pause, PollModel::PauseOver) => PollStage::QueryStatus,
            _ => self,
        }
    }

    /// What an event has to say to the user.
    pub open spec fn report(
        self,
        platform: Platform,
        request_id: u64,
        event: PollModel,
    ) -> Option<Message> {
        match (self, event) {
            (PollStage::CreateSession, PollModel::SessionCreated(payload)) => if text::blank(
                payload,
            ) {
                Some(
                    Message::LoginPhase(
                        request_id,
                        LoginPhase::Failed,
                        QrFailure::EmptyPayload.text(),
                    ),
                )
            } else {
                Some(Message::LoginQr(request_id, payload))
            },
            (PollStage::CreateSession, PollModel::SessionFailed(error)) => Some(
                Message::LoginPhase(
                    request_id,
                    LoginPhase::Failed,
                    "创建登录会话失败:"@ + error,
                ),
            ),
            (PollStage::QueryStatus, PollModel::Status(status)) => Some(
                match status {
                    StatusModel::Success(login) => Message::LoginSuccess(request_id, login),
                    StatusModel::QrCodeExpired => Message::LoginPhase(
                        request_id,
                        LoginPhase::Expired,
                        "二维码已过期,按 Ctrl+L 重新生成"@,
                    ),
                    StatusModel::WaitingScan => Message::LoginPhase(
                        request_id,
                        LoginPhase::WaitingScan,
                        "等待扫码..."@,
                    ),
                    StatusModel::WaitingConfirm => Message::LoginPhase(
                        request_id,
                        LoginPhase::WaitingConfirm,
                        "已扫码,请在手机上确认登录..."@,
                    ),
                },
            ),
            (PollStage::QueryStatus, PollModel::StatusFailed(lost_connection, error)) => Some(
                if recoverable(platform, lost_connection) {
                    Message::LoginPhase(
                        request_id,
                        LoginPhase::WaitingScan,
                        "QQ 登录连接波动,正在自动重连:"@ + lost_connection->Some_0,
                    )
                } else {
                    Message::LoginPhase(
                        request_id,
                        LoginPhase::Failed,
                        "登录状态查询失败:"@ + error,
                    )
                },
            ),
            _ => None,
        }
    }
}

/// Whether an attempt goes on although its status is not known.
pub open spec fn recoverable(platform: Platform, lost_connection: Option<Seq<char>>) -> bool {
    lost_connection is Some && platform == Platform::Tencent
}

impl LoginPoll {
    /// A new attempt.
    pub fn new(request_id: u64, platform: Platform) -> (r: LoginPoll)
        ensures
            r == (LoginPoll { request_id, platform, stage: PollStage::CreateSession }),
    {
        LoginPoll { request_id, platform, stage: PollStage::CreateSession }
    }

    /// Takes in what came of the last thing that was to be done, and gives
    /// the news for the user.
    pub fn step(&mut self, event: PollEvent) -> (r: Option<AppMessage>)
        ensures
            *final(self) == (LoginPoll {
                stage: old(self).stage.after(old(self).platform, event@),
                ..*old(self)
            }),
            model::view_of(r) == old(self).stage.report(
                old(self).platform,
                old(self).request_id,
                event@,
            ),
    {
        match event {
            PollEvent::SessionCreated(payload) => if self.stage == PollStage::CreateSession {
                match validate_qr_payload(payload.as_str()) {
                    Ok(_) => {
                        self.stage = PollStage::QueryStatus;
                        Some(AppMessage::LoginQr { request_id: self.request_id, payload })
                    },
                    Err(failure) => {
                        self.stage = PollStage::Ended;
                        Some(self.phase(LoginPhase::Failed, failure.message().to_owned()))
                    },
                }
            } else {
                None
            },
            PollEvent::SessionFailed(error) => if self.stage == PollStage::CreateSession {
                self.stage = PollStage::Ended;
                Some(
                    self.phase(
                        LoginPhase::Failed,
                        "创建登录会话失败:".to_owned().concat(error.as_str()),
                    ),
                )
            } else {
                None
            },
            PollEvent::Status(status) => if self.stage == PollStage::QueryStatus {
                Some(self.status(status))
            } else {
                None
            },
            PollEvent::StatusFailed { lost_connection, error } => {
                if self.stage != PollStage::QueryStatus {
                    return None;
                }
                if let Some(cause) = lost_connection {
                    if self.platform == Platform::Tencent {
                        self.stage = PollStage::Pause;
                        return Some(
                            self.phase(
                                LoginPhase::WaitingScan,
                                "QQ 登录连接波动,正在自动重连:".to_owned().concat(cause.as_str()),
                            ),
                        );
                    }
                }
                self.stage = PollStage::Ended;
                Some(
                    self.phase(
                        LoginPhase::Failed,
                        "登录状态查询失败:".to_owned().concat(error.as_str()),
                    ),
                )
            },
            PollEvent::PauseOver => {
                if self.stage == PollStage::Pause {
                    self.stage = PollStage::QueryStatus;
                }
                None
            },
            PollEvent::Cancelled => {
                self.stage = PollStage::Ended;
                None
            },
        }
    }

    /// Takes in the status of an attempt.
    fn status(&mut self, status: LoginStatus) -> (r: AppMessage)
        requires
            old(self).stage == PollStage::QueryStatus,
        ensures
            *final(self) == (LoginPoll {
                stage: old(self).stage.after(old(self).platform, PollModel::Status(status@)),
                ..*old(self)
            }),
            Some(r@) == old(self).stage.report(
                old(self).platform,
                old(self).request_id,
                PollModel::Status(status@),
            ),
    {
        match status {
            LoginStatus::Success(token) => {
                self.stage = PollStage::Ended;
                AppMessage::LoginSuccess { request_id: self.request_id, token }
            },
            LoginStatus::QrCodeExpired => {
                self.stage = PollStage::Ended;
                self.phase(LoginPhase::Expired, "二维码已过期,按 Ctrl+L 重新生成".to_owned())
            },
            LoginStatus::WaitingScan => {
                self.stage = PollStage::Pause;
                self.phase(LoginPhase::WaitingScan, "等待扫码...".to_owned())
            },
            LoginStatus::WaitingConfirm => {
                self.stage = PollStage::Pause;
                self.phase(
                    LoginPhase::WaitingConfirm,
                    "已扫码,请在手机上确认登录...".to_owned(),
                )
            },
        }
    }

    /// News of the phase of an attempt.
    fn phase(&self, phase: LoginPhase, detail: String) -> (r: AppMessage)
        ensures
            r@ == Message::LoginPhase(self.request_id, phase, detail@),
    {
        AppMessage::LoginPhase { request_id: self.request_id, phase, detail }
    }
}

} // verus!
