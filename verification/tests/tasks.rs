//! Downloads and login attempts, step by step.

use dqn::app::{AppMessage, DownloadRequest, DownloadState, LoginPhase, SavedFile};
use dqn::job::{DownloadJob, JobEvent, Stage, MAX_NAMES};
use dqn::login::{LoginPoll, LoginStatus, PollEvent, PollStage};
use dqn::music::{
    LoginToken, NeteaseLoginToken, Platform, Song, SongAlbum, SongArtist, SongQuality, UrlResult,
};

fn request(cookie: Option<&str>) -> DownloadRequest {
    DownloadRequest {
        job_id: 7,
        platform: Platform::Netease,
        song: Song {
            id: "test".to_owned(),
            name: "a/b".to_owned(),
            pic_url: String::new(),
            artists: vec![SongArtist {
                id: "1".to_owned(),
                name: "x".to_owned(),
            }],
            album: SongAlbum {
                id: "test".to_owned(),
                name: "test".to_owned(),
            },
        },
        quality: SongQuality::Lossless,
        token: None,
        media_cookie: cookie.map(str::to_owned),
        directory: "dir".to_owned(),
    }
}

fn resolved(url: &str) -> JobEvent {
    JobEvent::Resolved(UrlResult {
        id: "test".to_owned(),
        level: SongQuality::Standard,
        url: url.to_owned(),
    })
}

fn job_after(events: Vec<JobEvent>) -> (DownloadJob, Vec<AppMessage>) {
    let mut job = DownloadJob::new(request(None));
    let mut last = Vec::new();
    for event in events {
        last = job.step(event);
    }
    (job, last)
}

fn to_reserved() -> Vec<JobEvent> {
    vec![
        JobEvent::Permitted,
        resolved("https://x/song.mp3"),
        JobEvent::DirectoryReady,
        JobEvent::ClientReady,
        JobEvent::Responded(Some(6)),
        JobEvent::NameChecked { exists: false },
        JobEvent::PartialCreated,
    ]
}

fn failure(messages: &[AppMessage]) -> &str {
    match messages {
        [AppMessage::DownloadStage {
            job_id: 7,
            state: DownloadState::Failed(error),
        }] => error,
        _ => panic!("{messages:?}"),
    }
}

#[test]
fn complete_download_is_renamed_and_reported() {
    let mut events = to_reserved();
    events.push(JobEvent::ChunkRead(4));
    events.push(JobEvent::ChunkWritten);
    events.push(JobEvent::ChunkRead(2));
    let (mut job, messages) = job_after(events);
    assert!(messages.is_empty());
    assert!(matches!(
        job.stage,
        Stage::WriteChunk {
            sequence: 0,
            total: Some(6),
            received: 6
        }
    ));
    let messages = job.step(JobEvent::ChunkWritten);
    assert!(matches!(
        messages[..],
        [AppMessage::DownloadProgress {
            job_id: 7,
            received: 6,
            total: Some(6)
        }]
    ));
    assert!(job.step(JobEvent::StreamEnded).is_empty());
    assert!(matches!(job.stage, Stage::Flush { sequence: 0 }));
    assert!(job.step(JobEvent::Flushed).is_empty());
    assert!(matches!(job.stage, Stage::Rename { sequence: 0 }));
    assert_eq!(job.file_name(0), "a_b - x.mp3");
    assert_eq!(job.partial_name(0), "a_b - x.mp3.part");
    let messages = job.step(JobEvent::Renamed(SavedFile {
        path: "dir/a_b - x.mp3".to_owned(),
        file_name: Some("a_b - x.mp3".to_owned()),
    }));
    assert!(matches!(
        &messages[..],
        [AppMessage::DownloadStage { job_id: 7, state: DownloadState::Completed(file) }]
            if file.path == "dir/a_b - x.mp3"
    ));
    assert!(matches!(job.stage, Stage::Finished));
    assert!(job.step(JobEvent::Flushed).is_empty());
    assert!(matches!(job.stage, Stage::Finished));
}

#[test]
fn first_steps_are_reported() {
    let mut job = DownloadJob::new(request(None));
    assert!(matches!(job.stage, Stage::AcquirePermit));
    let messages = job.step(JobEvent::Permitted);
    assert!(matches!(
        messages[..],
        [AppMessage::DownloadStage {
            job_id: 7,
            state: DownloadState::Resolving
        }]
    ));
    let messages = job.step(resolved("https://x/song.mp3"));
    assert!(matches!(
        messages[..],
        [
            AppMessage::DownloadResolved {
                job_id: 7,
                actual_quality: SongQuality::Standard
            },
            AppMessage::DownloadStage {
                job_id: 7,
                state: DownloadState::Downloading
            }
        ]
    ));
    assert_eq!(job.url, "https://x/song.mp3");
    assert!(job.step(JobEvent::DirectoryReady).is_empty());
    assert_eq!(job.extension, "mp3");
}

#[test]
fn stalled_download_is_discarded() {
    let mut events = to_reserved();
    events.push(JobEvent::ChunkRead(2));
    events.push(JobEvent::ChunkWritten);
    events.push(JobEvent::ReadFailed { timed_out: true });
    let (mut job, messages) = job_after(events);
    assert!(messages.is_empty());
    assert!(matches!(job.stage, Stage::Discard { sequence: 0, .. }));
    assert_eq!(failure(&job.step(JobEvent::Discarded)), "下载读取超时,请重试");
    assert!(matches!(job.stage, Stage::Finished));
}

#[test]
fn failures_after_the_partial_file_discard_it() {
    let read = || vec![JobEvent::ChunkRead(1)];
    let written = || vec![JobEvent::ChunkRead(1), JobEvent::ChunkWritten];
    let ended = || {
        vec![
            JobEvent::ChunkRead(1),
            JobEvent::ChunkWritten,
            JobEvent::StreamEnded,
        ]
    };
    for (tail, last, error) in [
        (Vec::new(), JobEvent::StreamEnded, "下载服务器返回了空文件"),
        (
            written(),
            JobEvent::ReadFailed { timed_out: false },
            "读取下载数据失败",
        ),
        (read(), JobEvent::WriteFailed, "写入下载文件失败"),
        (ended(), JobEvent::FlushFailed, "刷新下载文件失败"),
    ] {
        let mut events = to_reserved();
        events.extend(tail);
        events.push(last);
        let (mut job, messages) = job_after(events);
        assert!(messages.is_empty());
        assert!(matches!(job.stage, Stage::Discard { .. }));
        assert_eq!(failure(&job.step(JobEvent::Discarded)), error);
    }
    let mut events = to_reserved();
    events.extend(ended());
    events.push(JobEvent::Flushed);
    events.push(JobEvent::RenameFailed("dir/f".to_owned()));
    events.push(JobEvent::Discarded);
    let (_, messages) = job_after(events);
    assert_eq!(failure(&messages), "无法完成下载文件:dir/f");
}

#[test]
fn failures_before_the_partial_file_end_the_download() {
    let up_to = |count: usize| -> Vec<JobEvent> { to_reserved().into_iter().take(count).collect() };
    for (count, last, error) in [
        (0, JobEvent::SchedulerClosed, "下载调度器已关闭"),
        (
            1,
            resolved(" \n"),
            "平台未返回可用链接,可能需要会员,登录或更换音质",
        ),
        (
            1,
            JobEvent::ResolveFailed("e".to_owned()),
            "获取播放链接失败:e",
        ),
        (2, JobEvent::DirectoryFailed, "无法创建下载目录:dir"),
        (3, JobEvent::ClientFailed, "无法初始化下载客户端"),
        (
            4,
            JobEvent::SendFailed { timed_out: true },
            "连接下载地址或等待响应超时,请重试",
        ),
        (
            4,
            JobEvent::SendFailed { timed_out: false },
            "连接下载地址失败",
        ),
        (4, JobEvent::StatusRefused, "下载服务器返回错误状态"),
        (
            6,
            JobEvent::PartialFailed("dir/f.part".to_owned()),
            "无法创建临时下载文件:dir/f.part",
        ),
    ] {
        let mut events = up_to(count);
        events.push(last);
        let (job, messages) = job_after(events);
        assert_eq!(failure(&messages), error);
        assert!(matches!(job.stage, Stage::Finished));
    }
    let (_, messages) = job_after(vec![
        JobEvent::Permitted,
        resolved("https://x/download?id=1"),
        JobEvent::DirectoryReady,
    ]);
    assert_eq!(failure(&messages), "平台返回的下载链接没有可用的原始扩展名");
}

#[test]
fn taken_names_are_passed_over() {
    let mut events: Vec<JobEvent> = to_reserved().into_iter().take(5).collect();
    events.push(JobEvent::NameChecked { exists: true });
    events.push(JobEvent::NameChecked { exists: false });
    events.push(JobEvent::PartialExists);
    let (mut job, _) = job_after(events);
    assert!(matches!(job.stage, Stage::CheckName { sequence: 2, .. }));
    assert_eq!(job.file_name(2), "a_b - x (2).mp3");
    assert_eq!(job.partial_name(2), "a_b - x (2).mp3.part");
    for _ in 2..MAX_NAMES - 1 {
        assert!(job.step(JobEvent::NameChecked { exists: true }).is_empty());
    }
    assert!(matches!(job.stage, Stage::CheckName { sequence: 9999, .. }));
    let messages = job.step(JobEvent::NameChecked { exists: true });
    assert_eq!(
        failure(&messages),
        "同名下载文件过多,请整理下载目录后重试"
    );
}

#[test]
fn unexpected_events_change_nothing() {
    let (mut job, _) = job_after(to_reserved());
    for event in [JobEvent::Permitted, JobEvent::Discarded, JobEvent::Flushed] {
        assert!(job.step(event).is_empty());
        assert!(matches!(
            job.stage,
            Stage::ReadChunk {
                sequence: 0,
                total: Some(6),
                received: 0
            }
        ));
    }
}

#[test]
fn empty_cookies_are_left_out() {
    assert_eq!(DownloadJob::new(request(None)).cookie(), None);
    assert_eq!(DownloadJob::new(request(Some(""))).cookie(), None);
    assert_eq!(
        DownloadJob::new(request(Some("a=b"))).cookie(),
        Some("a=b".to_owned())
    );
}

fn phase_of(message: Option<AppMessage>) -> (LoginPhase, String) {
    match message {
        Some(AppMessage::LoginPhase {
            request_id: 3,
            phase,
            detail,
        }) => (phase, detail),
        other => panic!("{other:?}"),
    }
}

fn polling(platform: Platform) -> LoginPoll {
    let mut poll = LoginPoll::new(3, platform);
    assert_eq!(poll.stage, PollStage::CreateSession);
    let message = poll.step(PollEvent::SessionCreated("https://x".to_owned()));
    assert!(
        matches!(message, Some(AppMessage::LoginQr { request_id: 3, payload }) if payload == "https://x")
    );
    assert_eq!(poll.stage, PollStage::QueryStatus);
    poll
}

#[test]
fn login_attempt_is_polled_until_it_succeeds() {
    let mut poll = polling(Platform::Netease);
    let (phase, detail) = phase_of(poll.step(PollEvent::Status(LoginStatus::WaitingScan)));
    assert_eq!((phase, detail.as_str()), (LoginPhase::WaitingScan, "等待扫码..."));
    assert_eq!(poll.stage, PollStage::Pause);
    assert!(poll.step(PollEvent::PauseOver).is_none());
    assert_eq!(poll.stage, PollStage::QueryStatus);
    let (phase, detail) = phase_of(poll.step(PollEvent::Status(LoginStatus::WaitingConfirm)));
    assert_eq!(
        (phase, detail.as_str()),
        (LoginPhase::WaitingConfirm, "已扫码,请在手机上确认登录...")
    );
    poll.step(PollEvent::PauseOver);
    let token = LoginToken::Netease(NeteaseLoginToken::new("u", "r", "c", None));
    let message = poll.step(PollEvent::Status(LoginStatus::Success(token)));
    assert!(matches!(
        message,
        Some(AppMessage::LoginSuccess { request_id: 3, .. })
    ));
    assert_eq!(poll.stage, PollStage::Ended);
    assert!(poll
        .step(PollEvent::Status(LoginStatus::WaitingScan))
        .is_none());
}

#[test]
fn login_attempt_ends_on_failures() {
    let mut poll = LoginPoll::new(3, Platform::Netease);
    let (phase, detail) = phase_of(poll.step(PollEvent::SessionFailed("e".to_owned())));
    assert_eq!((phase, detail.as_str()), (LoginPhase::Failed, "创建登录会话失败:e"));
    assert_eq!(poll.stage, PollStage::Ended);

    let mut poll = LoginPoll::new(3, Platform::Netease);
    let (phase, detail) = phase_of(poll.step(PollEvent::SessionCreated("  ".to_owned())));
    assert_eq!((phase, detail.as_str()), (LoginPhase::Failed, "平台返回了空二维码"));
    assert_eq!(poll.stage, PollStage::Ended);

    let mut poll = polling(Platform::Netease);
    let (phase, detail) = phase_of(poll.step(PollEvent::Status(LoginStatus::QrCodeExpired)));
    assert_eq!(
        (phase, detail.as_str()),
        (LoginPhase::Expired, "二维码已过期,按 Ctrl+L 重新生成")
    );
    assert_eq!(poll.stage, PollStage::Ended);
}

#[test]
fn lost_connection_is_retried_on_tencent_only() {
    let lost = || PollEvent::StatusFailed {
        lost_connection: Some("mqtt".to_owned()),
        error: "tencent mqtt login failed: mqtt".to_owned(),
    };
    let mut poll = polling(Platform::Tencent);
    let (phase, detail) = phase_of(poll.step(lost()));
    assert_eq!(
        (phase, detail.as_str()),
        (
            LoginPhase::WaitingScan,
            "QQ 登录连接波动,正在自动重连:mqtt"
        )
    );
    assert_eq!(poll.stage, PollStage::Pause);
    poll.step(PollEvent::PauseOver);
    let (phase, detail) = phase_of(poll.step(PollEvent::StatusFailed {
        lost_connection: None,
        error: "e".to_owned(),
    }));
    assert_eq!((phase, detail.as_str()), (LoginPhase::Failed, "登录状态查询失败:e"));
    assert_eq!(poll.stage, PollStage::Ended);

    let mut poll = polling(Platform::Netease);
    let (phase, detail) = phase_of(poll.step(lost()));
    assert_eq!(
        (phase, detail.as_str()),
        (
            LoginPhase::Failed,
            "登录状态查询失败:tencent mqtt login failed: mqtt"
        )
    );
    assert_eq!(poll.stage, PollStage::Ended);
}

#[test]
fn cancelled_login_attempt_says_nothing() {
    let mut poll = polling(Platform::Tencent);
    assert!(poll.step(PollEvent::Cancelled).is_none());
    assert_eq!(poll.stage, PollStage::Ended);
    assert!(poll.step(PollEvent::PauseOver).is_none());
    assert_eq!(poll.stage, PollStage::Ended);
}
