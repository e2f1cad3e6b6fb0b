//! What a download and a login attempt do, step by step.

use vstd::prelude::*;

use crate::app::{LoginPhase, COOKIE_REFRESH_BEFORE, MAX_CONCURRENT_DOWNLOADS};
use crate::app_model::{Message, RequestModel, StateModel};
use crate::download;
use crate::job;
use crate::job::{
    EventModel, JobModel, StageModel, CONNECT_TIMEOUT_SECONDS, READ_TIMEOUT_SECONDS,
};
use crate::login::{PollModel, PollStage, StatusModel, POLL_PAUSE_SECONDS};
use crate::music::{Login, Platform, SongQuality};
use crate::text;

verus! {

/// A download after some events.
pub open spec fn run(job: JobModel, events: Seq<EventModel>) -> JobModel
    decreases events.len(),
{
    if events.len() == 0 {
        job
    } else {
        run(job, events.drop_last()).after(events.last())
    }
}

/// The events of chunks of the given lengths that arrive and are written.
pub open spec fn chunk_events(lengths: Seq<u64>) -> Seq<EventModel>
    decreases lengths.len(),
{
    if lengths.len() == 0 {
        seq![]
    } else {
        chunk_events(lengths.drop_last()) + seq![
            EventModel::ChunkRead(lengths.last()),
            EventModel::ChunkWritten,
        ]
    }
}

/// The bytes in chunks of the given lengths.
pub open spec fn total_length(lengths: Seq<u64>) -> nat
    decreases lengths.len(),
{
    if lengths.len() == 0 {
        0
    } else {
        total_length(lengths.drop_last()) + lengths.last() as nat
    }
}

/// A download that is asked for.
pub open spec fn new_job(request: RequestModel) -> JobModel {
    JobModel { request, url: seq![], extension: seq![], stage: StageModel::AcquirePermit }
}

/// A download whose steps all succeed is completed, however many chunks of
/// whatever lengths the server sends and whether or not it announces a size, as
/// long as it sends any bytes at all. The count of bytes is that of all chunks.
pub proof fn law_downloads_that_succeed_are_completed(
    request: RequestModel,
    quality: SongQuality,
    url: Seq<char>,
    total: Option<u64>,
    lengths: Seq<u64>,
    path: Seq<char>,
    name: Option<Seq<char>>,
)
    requires
        !text::blank(url),
        download::url_extension(url) is Ok,
        0 < total_length(lengths) <= u64::MAX,
    ensures
        ({
            let start = new_job(request).after(EventModel::Permitted).after(
                EventModel::Resolved(quality, url),
            ).after(EventModel::DirectoryReady).after(EventModel::ClientReady).after(
                EventModel::Responded(total),
            ).after(EventModel::NameChecked(false)).after(EventModel::PartialCreated);
            let received = run(start, chunk_events(lengths));
            let flushing = received.after(EventModel::StreamEnded);
            let renaming = flushing.after(EventModel::Flushed);
            let done = renaming.after(EventModel::Renamed(path, name));
            &&& start.stage == StageModel::ReadChunk(0, total, 0)
            &&& start.request == request
            &&& start.url == url
            &&& Ok::<Seq<char>, download::UrlFailure>(start.extension) == download::url_extension(
                url,
            )
            &&& received.stage == StageModel::ReadChunk(0, total, total_length(lengths) as u64)
            &&& flushing.stage == StageModel::Flush(0)
            &&& renaming.stage == StageModel::Rename(0)
            &&& done.stage is Finished
            &&& done.url == url
            &&& done.extension == start.extension
            &&& done.request == request
            &&& renaming.report(EventModel::Renamed(path, name)) == seq![
                Message::DownloadStage(request.job_id, StateModel::Completed(path, name)),
            ]
        }),
{
    let start = new_job(request).after(EventModel::Permitted).after(
        EventModel::Resolved(quality, url),
    ).after(EventModel::DirectoryReady).after(EventModel::ClientReady).after(
        EventModel::Responded(total),
    ).after(EventModel::NameChecked(false)).after(EventModel::PartialCreated);
    assert(start.stage == StageModel::ReadChunk(0, total, 0));
    lemma_chunks(start, 0, total, lengths);
}

/// Chunks are counted one by one.
proof fn lemma_chunks(job: JobModel, sequence: u32, total: Option<u64>, lengths: Seq<u64>)
    requires
        job.stage == StageModel::ReadChunk(sequence, total, 0),
        total_length(lengths) <= u64::MAX,
    ensures
        run(job, chunk_events(lengths)) == (JobModel {
            stage: StageModel::ReadChunk(sequence, total, total_length(lengths) as u64),
            ..job
        }),
    decreases lengths.len(),
{
    if lengths.len() > 0 {
        let rest = lengths.drop_last();
        lemma_chunks(job, sequence, total, rest);
        let events = chunk_events(lengths);
        let one = chunk_events(rest).push(EventModel::ChunkRead(lengths.last()));
        assert(events.drop_last() =~= one);
        assert(one.drop_last() =~= chunk_events(rest));
        assert(events.last() == EventModel::ChunkWritten);
        assert(one.last() == EventModel::ChunkRead(lengths.last()));
        assert(run(job, one) == run(job, chunk_events(rest)).after(
            EventModel::ChunkRead(lengths.last()),
        ));
        assert(run(job, events) == run(job, one).after(EventModel::ChunkWritten));
    }
}

/// At the end of the stream a file with bytes is flushed, whether or not a size
/// was announced and whatever it was; one without is thrown away as empty.
pub proof fn law_only_empty_files_are_empty(
    job: JobModel,
    sequence: u32,
    total: Option<u64>,
    received: u64,
)
    requires
        job.stage == StageModel::ReadChunk(sequence, total, received),
    ensures
        received > 0 ==> job.after(EventModel::StreamEnded) == (JobModel {
            stage: StageModel::Flush(sequence),
            ..job
        }),
        received == 0 ==> job.after(EventModel::StreamEnded) == (JobModel {
            stage: StageModel::Discard(sequence, "下载服务器返回了空文件"@),
            ..job
        }),
        job.report(EventModel::StreamEnded).len() == 0,
{
}

/// What is asked for, and from where, does not change on the way.
pub proof fn law_downloads_keep_what_was_asked_for(job: JobModel, event: EventModel)
    ensures
        job.after(event).request == job.request,
        !(job.stage is ResolveUrl) ==> job.after(event).url == job.url,
        !(job.stage is CreateDirectory) ==> job.after(event).extension == job.extension,
{
}

/// Each thing that succeeds is followed by the next, and the user is told.
pub proof fn law_success_leads_on(
    job: JobModel,
    quality: SongQuality,
    url: Seq<char>,
    total: Option<u64>,
    sequence: u32,
    received: u64,
    length: u64,
    path: Seq<char>,
    name: Option<Seq<char>>,
)
    ensures
        ({
            let id = job.request.job_id;
            &&& job.stage is AcquirePermit ==> {
                &&& job.after(EventModel::Permitted) == (JobModel {
                    stage: StageModel::ResolveUrl,
                    ..job
                })
                &&& job.report(EventModel::Permitted) == seq![
                    Message::DownloadStage(id, StateModel::Resolving),
                ]
            }
            &&& job.stage is ResolveUrl && !text::blank(url) ==> {
                &&& job.after(EventModel::Resolved(quality, url)) == (JobModel {
                    stage: StageModel::CreateDirectory,
                    url,
                    ..job
                })
                &&& job.report(EventModel::Resolved(quality, url)) == seq![
                    Message::DownloadResolved(id, quality),
                    Message::DownloadStage(id, StateModel::Downloading),
                ]
            }
            &&& job.stage is CreateDirectory && download::url_extension(job.url) is Ok ==> {
                &&& job.after(EventModel::DirectoryReady) == (JobModel {
                    stage: StageModel::BuildClient,
                    extension: download::url_extension(job.url)->Ok_0,
                    ..job
                })
                &&& job.report(EventModel::DirectoryReady).len() == 0
            }
            &&& job.stage is BuildClient ==> {
                &&& job.after(EventModel::ClientReady) == (JobModel {
                    stage: StageModel::SendRequest,
                    ..job
                })
                &&& job.report(EventModel::ClientReady).len() == 0
            }
            &&& job.stage is SendRequest ==> {
                &&& job.after(EventModel::Responded(total)) == (JobModel {
                    stage: StageModel::CheckName(0, total),
                    ..job
                })
                &&& job.report(EventModel::Responded(total)).len() == 0
            }
            &&& job.stage == StageModel::CheckName(sequence, total) ==> {
                &&& job.after(EventModel::NameChecked(false)) == (JobModel {
                    stage: StageModel::CreatePartial(sequence, total),
                    ..job
                })
                &&& job.report(EventModel::NameChecked(false)).len() == 0
            }
            &&& job.stage == StageModel::CreatePartial(sequence, total) ==> {
                &&& job.after(EventModel::PartialCreated) == (JobModel {
                    stage: StageModel::ReadChunk(sequence, total, 0),
                    ..job
                })
                &&& job.report(EventModel::PartialCreated) == seq![
                    Message::DownloadProgress(id, 0, total),
                ]
            }
            &&& job.stage == StageModel::ReadChunk(sequence, total, received) && received + length
                <= u64::MAX ==> {
                &&& job.after(EventModel::ChunkRead(length)) == (JobModel {
                    stage: StageModel::WriteChunk(sequence, total, (received + length) as u64),
                    ..job
                })
                &&& job.report(EventModel::ChunkRead(length)).len() == 0
            }
            &&& job.stage == StageModel::WriteChunk(sequence, total, received) ==> {
                &&& job.after(EventModel::ChunkWritten) == (JobModel {
                    stage: StageModel::ReadChunk(sequence, total, received),
                    ..job
                })
                &&& job.report(EventModel::ChunkWritten) == seq![
                    Message::DownloadProgress(id, received, total),
                ]
            }
            &&& job.stage == StageModel::Flush(sequence) ==> {
                &&& job.after(EventModel::Flushed) == (JobModel {
                    stage: StageModel::Rename(sequence),
                    ..job
                })
                &&& job.report(EventModel::Flushed).len() == 0
            }
            &&& job.stage is Rename ==> {
                &&& job.after(EventModel::Renamed(path, name)) == (JobModel {
                    stage: StageModel::Finished,
                    ..job
                })
                &&& job.report(EventModel::Renamed(path, name)) == seq![
                    Message::DownloadStage(id, StateModel::Completed(path, name)),
                ]
            }
        }),
{
}

/// The error with which a download ends at once, before it has a file.
pub open spec fn ends_with(job: JobModel, event: EventModel, error: Seq<char>) -> bool {
    &&& job.after(event) == (JobModel { stage: StageModel::Finished, ..job })
    &&& job.report(event) == seq![
        Message::DownloadStage(job.request.job_id, StateModel::Failed(error)),
    ]
}

/// What fails before there is a file ends the download, and the user is told
/// why.
pub proof fn law_early_failures_end_the_download(
    job: JobModel,
    quality: SongQuality,
    text: Seq<char>,
    timed_out: bool,
)
    ensures
        job.stage is AcquirePermit ==> ends_with(
            job,
            EventModel::SchedulerClosed,
            "下载调度器已关闭"@,
        ),
        job.stage is ResolveUrl && text::blank(text) ==> ends_with(
            job,
            EventModel::Resolved(quality, text),
            "平台未返回可用链接,可能需要会员,登录或更换音质"@,
        ),
        job.stage is ResolveUrl ==> ends_with(
            job,
            EventModel::ResolveFailed(text),
            "获取播放链接失败:"@ + text,
        ),
        job.stage is CreateDirectory ==> ends_with(
            job,
            EventModel::DirectoryFailed,
            "无法创建下载目录:"@ + job.request.directory,
        ),
        job.stage is CreateDirectory && download::url_extension(job.url) is Err ==> ends_with(
            job,
            EventModel::DirectoryReady,
            download::url_extension(job.url)->Err_0.text(),
        ),
        job.stage is BuildClient ==> ends_with(
            job,
            EventModel::ClientFailed,
            "无法初始化下载客户端"@,
        ),
        job.stage is SendRequest ==> ends_with(
            job,
            EventModel::SendFailed(timed_out),
            if timed_out {
                "连接下载地址或等待响应超时,请重试"@
            } else {
                "连接下载地址失败"@
            },
        ),
        job.stage is SendRequest ==> ends_with(
            job,
            EventModel::StatusRefused,
            "下载服务器返回错误状态"@,
        ),
        job.stage is CreatePartial ==> ends_with(
            job,
            EventModel::PartialFailed(text),
            "无法创建临时下载文件:"@ + text,
        ),
{
}

/// A name that is taken is followed by the next, up to ten thousand of them.
pub proof fn law_taken_names_are_passed_over(job: JobModel, sequence: u32, total: Option<u64>)
    requires
        job.stage == StageModel::CheckName(sequence, total) || job.stage
            == StageModel::CreatePartial(sequence, total),
    ensures
        ({
            let event = if job.stage is CheckName {
                EventModel::NameChecked(true)
            } else {
                EventModel::PartialExists
            };
            &&& sequence < 9999 ==> {
                &&& job.after(event) == (JobModel {
                    stage: StageModel::CheckName((sequence + 1) as u32, total),
                    ..job
                })
                &&& job.report(event).len() == 0
            }
            &&& sequence >= 9999 ==> ends_with(
                job,
                event,
                "同名下载文件过多,请整理下载目录后重试"@,
            )
        }),
{
}

/// What fails once there is a file has the file removed; then the download
/// ends, and the user is told why.
pub proof fn law_late_failures_remove_the_file(
    job: JobModel,
    sequence: u32,
    total: Option<u64>,
    received: u64,
    text: Seq<char>,
    timed_out: bool,
)
    ensures
        job.stage == StageModel::ReadChunk(sequence, total, received) ==> {
            &&& job.after(EventModel::ReadFailed(timed_out)) == (JobModel {
                stage: StageModel::Discard(
                    sequence,
                    if timed_out {
                        "下载读取超时,请重试"@
                    } else {
                        "读取下载数据失败"@
                    },
                ),
                ..job
            })
            &&& job.report(EventModel::ReadFailed(timed_out)).len() == 0
        },
        job.stage == StageModel::WriteChunk(sequence, total, received) ==> {
            &&& job.after(EventModel::WriteFailed) == (JobModel {
                stage: StageModel::Discard(sequence, "写入下载文件失败"@),
                ..job
            })
            &&& job.report(EventModel::WriteFailed).len() == 0
        },
        job.stage == StageModel::Flush(sequence) ==> {
            &&& job.after(EventModel::FlushFailed) == (JobModel {
                stage: StageModel::Discard(sequence, "刷新下载文件失败"@),
                ..job
            })
            &&& job.report(EventModel::FlushFailed).len() == 0
        },
        job.stage == StageModel::Rename(sequence) ==> {
            &&& job.after(EventModel::RenameFailed(text)) == (JobModel {
                stage: StageModel::Discard(sequence, "无法完成下载文件:"@ + text),
                ..job
            })
            &&& job.report(EventModel::RenameFailed(text)).len() == 0
        },
        job.stage == StageModel::Discard(sequence, text) ==> ends_with(
            job,
            EventModel::Discarded,
            text,
        ),
{
}

/// Whether an event is an outcome of what is to be done at a stage.
pub open spec fn is_outcome(stage: StageModel, event: EventModel) -> bool {
    match stage {
        StageModel::AcquirePermit => event is Permitted || event is SchedulerClosed,
        StageModel::ResolveUrl => event is Resolved || event is ResolveFailed,
        StageModel::CreateDirectory => event is DirectoryReady || event is DirectoryFailed,
        StageModel::BuildClient => event is ClientReady || event is ClientFailed,
        StageModel::SendRequest => event is Responded || event is SendFailed || event
            is StatusRefused,
        StageModel::CheckName(_, _) => event is NameChecked,
        StageModel::CreatePartial(_, _) => event is PartialCreated || event is PartialExists
            || event is PartialFailed,
        StageModel::ReadChunk(_, _, _) => event is ChunkRead || event is StreamEnded || event
            is ReadFailed,
        StageModel::WriteChunk(_, _, _) => event is ChunkWritten || event is WriteFailed,
        StageModel::Flush(_) => event is Flushed || event is FlushFailed,
        StageModel::Rename(_) => event is Renamed || event is RenameFailed,
        StageModel::Discard(_, _) => event is Discarded,
        StageModel::Finished => false,
    }
}

/// Whatever is no outcome of what was to be done changes nothing and says
/// nothing.
pub proof fn law_other_events_are_ignored(job: JobModel, event: EventModel)
    requires
        !is_outcome(job.stage, event),
    ensures
        job.after(event) == job,
        job.report(event).len() == 0,
{
}

/// A cookie is sent if there is one that is not empty.
pub proof fn law_cookies_are_sent(cookie: Option<Seq<char>>)
    ensures
        cookie is Some && cookie->Some_0.len() > 0 ==> job::sent_cookie(cookie) == cookie,
        cookie is None || cookie->Some_0.len() == 0 ==> job::sent_cookie(cookie) is None,
{
}

/// A file is named by its stem and extension, with its number in brackets if
/// it is not the first of its name.
pub proof fn law_files_are_numbered(stem: Seq<char>, extension: Seq<char>, n: nat)
    ensures
        job::numbered_name(stem, 0, extension) == stem + seq!['.'] + extension,
        n > 0 ==> job::numbered_name(stem, n, extension) == stem + seq![' ', '('] + text::decimal(n)
            + seq![')', '.'] + extension,
{
    reveal_strlit(" (");
    reveal_strlit(")");
    reveal_strlit(".");
    assert(job::numbered_name(stem, 0, extension) =~= stem + seq!['.'] + extension);
    if n > 0 {
        assert(job::numbered_name(stem, n, extension) =~= stem + seq![' ', '('] + text::decimal(n)
            + seq![')', '.'] + extension);
    }
}

/// The code of a new session is shown, unless there is none; a session that
/// cannot be had ends the attempt.
pub proof fn law_sessions_bring_their_code(
    platform: Platform,
    id: u64,
    payload: Seq<char>,
    error: Seq<char>,
)
    ensures
        ({
            let created = PollModel::SessionCreated(payload);
            let failed = PollModel::SessionFailed(error);
            let stage = PollStage::CreateSession;
            &&& !text::blank(payload) ==> {
                &&& stage.after(platform, created) == PollStage::QueryStatus
                &&& stage.report(platform, id, created) == Some(Message::LoginQr(id, payload))
            }
            &&& text::blank(payload) ==> {
                &&& stage.after(platform, created) == PollStage::Ended
                &&& stage.report(platform, id, created) == Some(
                    Message::LoginPhase(id, LoginPhase::Failed, "平台返回了空二维码"@),
                )
            }
            &&& stage.after(platform, failed) == PollStage::Ended
            &&& stage.report(platform, id, failed) == Some(
                Message::LoginPhase(id, LoginPhase::Failed, "创建登录会话失败:"@ + error),
            )
        }),
{
}

/// What the platform says of an attempt is told as it is: a success with its
/// login, a code that has expired, a scan or its confirmation that is waited for.
pub proof fn law_status_is_told(platform: Platform, id: u64, login: Login)
    ensures
        ({
            let stage = PollStage::QueryStatus;
            let success = PollModel::Status(StatusModel::Success(login));
            let expired = PollModel::Status(StatusModel::QrCodeExpired);
            let scan = PollModel::Status(StatusModel::WaitingScan);
            let confirm = PollModel::Status(StatusModel::WaitingConfirm);
            &&& stage.after(platform, success) == PollStage::Ended
            &&& stage.report(platform, id, success) == Some(Message::LoginSuccess(id, login))
            &&& stage.after(platform, expired) == PollStage::Ended
            &&& stage.report(platform, id, expired) == Some(
                Message::LoginPhase(
                    id,
                    LoginPhase::Expired,
                    "二维码已过期,按 Ctrl+L 重新生成"@,
                ),
            )
            &&& stage.after(platform, scan) == PollStage::Pause
            &&& stage.report(platform, id, scan) == Some(
                Message::LoginPhase(id, LoginPhase::WaitingScan, "等待扫码..."@),
            )
            &&& stage.after(platform, confirm) == PollStage::Pause
            &&& stage.report(platform, id, confirm) == Some(
                Message::LoginPhase(
                    id,
                    LoginPhase::WaitingConfirm,
                    "已扫码,请在手机上确认登录..."@,
                ),
            )
            &&& PollStage::Pause.after(platform, PollModel::PauseOver) == PollStage::QueryStatus
            &&& PollStage::Pause.report(platform, id, PollModel::PauseOver) is None
        }),
{
}

/// Whatever is no outcome of what was to be done for an attempt changes nothing
/// and says nothing, unless the user ends the attempt.
pub proof fn law_other_poll_events_are_ignored(
    stage: PollStage,
    platform: Platform,
    id: u64,
    event: PollModel,
)
    requires
        !(event is Cancelled),
        match stage {
            PollStage::CreateSession => !(event is SessionCreated) && !(event is SessionFailed),
            PollStage::QueryStatus => !(event is Status) && !(event is StatusFailed),
            PollStage::Pause => !(event is PauseOver),
            PollStage::Ended => true,
        },
    ensures
        stage.after(platform, event) == stage,
        stage.report(platform, id, event) is None,
{
}

/// A lost connection to Tencent is taken up again; any other failure ends the
/// attempt.
pub proof fn law_lost_connections_are_taken_up_again(
    platform: Platform,
    id: u64,
    cause: Option<Seq<char>>,
    error: Seq<char>,
)
    ensures
        ({
            let stage = PollStage::QueryStatus;
            let event = PollModel::StatusFailed(cause, error);
            &&& platform == Platform::Tencent && cause is Some ==> {
                &&& stage.after(platform, event) == PollStage::Pause
                &&& stage.report(platform, id, event) == Some(
                    Message::LoginPhase(
                        id,
                        LoginPhase::WaitingScan,
                        "QQ 登录连接波动,正在自动重连:"@ + cause->Some_0,
                    ),
                )
            }
            &&& platform == Platform::Netease || cause is None ==> {
                &&& stage.after(platform, event) == PollStage::Ended
                &&& stage.report(platform, id, event) == Some(
                    Message::LoginPhase(
                        id,
                        LoginPhase::Failed,
                        "登录状态查询失败:"@ + error,
                    ),
                )
            }
        }),
{
}

/// A download is saved under the name of its song, and under the same name with
/// an ending of its own while it is not complete.
pub proof fn law_partial_files_are_told_by_their_ending(job: JobModel, n: nat)
    ensures
        job.file_name(n) == job::numbered_name(
            download::stem(job.request.song),
            n,
            job.extension,
        ),
        job.partial_name(n) == job.file_name(n) + ".part"@,
{
}

/// How long things take: fifteen seconds for a connection, half a minute for a
/// read, and two seconds between two looks at an attempt. Logins are refreshed a
/// day before they expire, and three downloads run at the same time.
pub proof fn law_times_and_limits()
    ensures
        CONNECT_TIMEOUT_SECONDS == 15,
        READ_TIMEOUT_SECONDS == 30,
        POLL_PAUSE_SECONDS == 2,
        COOKIE_REFRESH_BEFORE == 86_400,
        MAX_CONCURRENT_DOWNLOADS == 3,
{
}

} // verus!
