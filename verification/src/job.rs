//! A download from its place in the queue to its file: what is to be done
//! next, and what the user is told.

use vstd::prelude::*;

use crate::app::{AppMessage, DownloadRequest, DownloadState, SavedFile};
use crate::app_model::{Message, RequestModel, StateModel};
use crate::download;
use crate::download::{file_stem, original_url_extension};
use crate::model;
use crate::music::{SongQuality, UrlResult};
use crate::text;

verus! {

/// How many file names are tried.
pub const MAX_NAMES: u32 = 10_000;

/// How many seconds a connection may take to come up.
pub const CONNECT_TIMEOUT_SECONDS: u64 = 15;

/// How many seconds a read may take.
pub const READ_TIMEOUT_SECONDS: u64 = 30;

/// What is to be done next for a download. `sequence` is the number of the
/// file name that is tried or used, `total` the announced size, `received` how
/// many bytes have arrived.
#[derive(Debug)]
pub enum Stage {
    AcquirePermit,
    ResolveUrl,
    CreateDirectory,
    BuildClient,
    SendRequest,
    /// See whether there is a file with the name.
    CheckName { sequence: u32, total: Option<u64> },
    /// Create the partial file, if there is none.
    CreatePartial { sequence: u32, total: Option<u64> },
    ReadChunk { sequence: u32, total: Option<u64>, received: u64 },
    WriteChunk { sequence: u32, total: Option<u64>, received: u64 },
    Flush { sequence: u32 },
    /// Give the partial file its name.
    Rename { sequence: u32 },
    /// Remove the partial file.
    Discard { sequence: u32, error: String },
    Finished,
}

/// What came of the last thing that was to be done.
#[derive(Debug)]
pub enum JobEvent {
    Permitted,
    SchedulerClosed,
    Resolved(UrlResult),
    ResolveFailed(String),
    DirectoryReady,
    DirectoryFailed,
    ClientReady,
    ClientFailed,
    /// The server has answered, and may have announced a size.
    Responded(Option<u64>),
    SendFailed { timed_out: bool },
    StatusRefused,
    NameChecked { exists: bool },
    PartialCreated,
    PartialExists,
    /// The partial file with the given path cannot be created.
    PartialFailed(String),
    /// So many bytes have arrived.
    ChunkRead(u64),
    StreamEnded,
    ReadFailed { timed_out: bool },
    ChunkWritten,
    WriteFailed,
    Flushed,
    FlushFailed,
    Renamed(SavedFile),
    /// The file cannot be given the path.
    RenameFailed(String),
    /// The partial file was removed, or could not be.
    Discarded,
}

/// A download.
#[derive(Debug)]
pub struct DownloadJob {
    pub request: DownloadRequest,
    pub url: String,
    pub extension: String,
    pub stage: Stage,
}

/// What is to be done next for a download.
pub enum StageModel {
    AcquirePermit,
    ResolveUrl,
    CreateDirectory,
    BuildClient,
    SendRequest,
    CheckName(u32, Option<u64>),
    CreatePartial(u32, Option<u64>),
    ReadChunk(u32, Option<u64>, u64),
    WriteChunk(u32, Option<u64>, u64),
    Flush(u32),
    Rename(u32),
    Discard(u32, Seq<char>),
    Finished,
}

/// What came of the last thing that was to be done.
pub enum EventModel {
    Permitted,
    SchedulerClosed,
    Resolved(SongQuality, Seq<char>),
    ResolveFailed(Seq<char>),
    DirectoryReady,
    DirectoryFailed,
    ClientReady,
    ClientFailed,
    Responded(Option<u64>),
    SendFailed(bool),
    StatusRefused,
    NameChecked(bool),
    PartialCreated,
    PartialExists,
    PartialFailed(Seq<char>),
    ChunkRead(u64),
    StreamEnded,
    ReadFailed(bool),
    ChunkWritten,
    WriteFailed,
    Flushed,
    FlushFailed,
    Renamed(Seq<char>, Option<Seq<char>>),
    RenameFailed(Seq<char>),
    Discarded,
}

/// A download.
pub struct JobModel {
    pub request: RequestModel,
    pub url: Seq<char>,
    pub extension: Seq<char>,
    pub stage: StageModel,
}

impl View for Stage {
    type V = StageModel;

    open spec fn view(&self) -> StageModel {
        match self {
            Stage::AcquirePermit => StageModel::AcquirePermit,
            Stage::ResolveUrl => StageModel::ResolveUrl,
            Stage::CreateDirectory => StageModel::CreateDirectory,
            Stage::BuildClient => StageModel::BuildClient,
            Stage::SendRequest => StageModel::SendRequest,
            Stage::CheckName { sequence, total } => StageModel::CheckName(*sequence, *total),
            Stage::CreatePartial { sequence, total } => StageModel::CreatePartial(
                *sequence,
                *total,
            ),
            Stage::ReadChunk { sequence, total, received } => StageModel::ReadChunk(
                *sequence,
                *total,
                *received,
            ),
            Stage::WriteChunk { sequence, total, received } => StageModel::WriteChunk(
                *sequence,
                *total,
                *received,
            ),
            Stage::Flush { sequence } => StageModel::Flush(*sequence),
            Stage::Rename { sequence } => StageModel::Rename(*sequence),
            Stage::Discard { sequence, error } => StageModel::Discard(*sequence, error@),
            Stage::Finished => StageModel::Finished,
        }
    }
}

impl View for JobEvent {
    type V = EventModel;

    open spec fn view(&self) -> EventModel {
        match self {
            JobEvent::Permitted => EventModel::Permitted,
            JobEvent::SchedulerClosed => EventModel::SchedulerClosed,
            JobEvent::Resolved(playback) => EventModel::Resolved(playback.level, playback.url@),
            JobEvent::ResolveFailed(error) => EventModel::ResolveFailed(error@),
            JobEvent::DirectoryReady => EventModel::DirectoryReady,
            JobEvent::DirectoryFailed => EventModel::DirectoryFailed,
            JobEvent::ClientReady => EventModel::ClientReady,
            JobEvent::ClientFailed => EventModel::ClientFailed,
            JobEvent::Responded(total) => EventModel::Responded(*total),
            JobEvent::SendFailed { timed_out } => EventModel::SendFailed(*timed_out),
            JobEvent::StatusRefused => EventModel::StatusRefused,
            JobEvent::NameChecked { exists } => EventModel::NameChecked(*exists),
            JobEvent::PartialCreated => EventModel::PartialCreated,
            JobEvent::PartialExists => EventModel::PartialExists,
            JobEvent::PartialFailed(path) => EventModel::PartialFailed(path@),
            JobEvent::ChunkRead(length) => EventModel::ChunkRead(*length),
            JobEvent::StreamEnded => EventModel::StreamEnded,
            JobEvent::ReadFailed { timed_out } => EventModel::ReadFailed(*timed_out),
            JobEvent::ChunkWritten => EventModel::ChunkWritten,
            JobEvent::WriteFailed => EventModel::WriteFailed,
            JobEvent::Flushed => EventModel::Flushed,
            JobEvent::FlushFailed => EventModel::FlushFailed,
            JobEvent::Renamed(file) => EventModel::Renamed(
                file.path@,
                model::view_of(file.file_name),
            ),
            JobEvent::RenameFailed(path) => EventModel::RenameFailed(path@),
            JobEvent::Discarded => EventModel::Discarded,
        }
    }
}

impl View for DownloadJob {
    type V = JobModel;

    open spec fn view(&self) -> JobModel {
        JobModel {
            request: self.request@,
            url: self.url@,
            extension: self.extension@,
            stage: self.stage@,
        }
    }
}

/// The name of the file with the given number: the first has none in it.
pub open spec fn numbered_name(stem: Seq<char>, sequence: nat, extension: Seq<char>) -> Seq<char> {
    stem + (if sequence == 0 {
        seq![]
    } else {
        " ("@ + text::decimal(sequence) + ")"@
    }) + "."@ + extension
}

/// Why a response did not come.
pub open spec fn send_error(timed_out: bool) -> Seq<char> {
    if timed_out {
        "连接下载地址或等待响应超时,请重试"@
    } else {
        "连接下载地址失败"@
    }
}

/// Why data did not come.
pub open spec fn read_error(timed_out: bool) -> Seq<char> {
    if timed_out {
        "下载读取超时,请重试"@
    } else {
        "读取下载数据失败"@
    }
}

/// The error if all names are taken.
pub open spec fn names_error() -> Seq<char> {
    "同名下载文件过多,请整理下载目录后重试"@
}

/// Why a download fails on an event before there is a partial file.
pub open spec fn early_error(job: JobModel, event: EventModel) -> Option<Seq<char>> {
    match (job.stage, event) {
        (StageModel::AcquirePermit, EventModel::SchedulerClosed) => Some("下载调度器已关闭"@),
        (StageModel::ResolveUrl, EventModel::Resolved(_, url)) => if text::blank(url) {
            Some("平台未返回可用链接,可能需要会员,登录或更换音质"@)
        } else {
            None
        },
        (StageModel::ResolveUrl, EventModel::ResolveFailed(error)) => Some(
            "获取播放链接失败:"@ + error,
        ),
        (StageModel::CreateDirectory, EventModel::DirectoryReady) => match download::url_extension(
            job.url,
        ) {
            Ok(_) => None,
            Err(failure) => Some(failure.text()),
        },
        (StageModel::CreateDirectory, EventModel::DirectoryFailed) => Some(
            "无法创建下载目录:"@ + job.request.directory,
        ),
        (StageModel::BuildClient, EventModel::ClientFailed) => Some("无法初始化下载客户端"@),
        (StageModel::SendRequest, EventModel::SendFailed(timed_out)) => Some(send_error(timed_out)),
        (StageModel::SendRequest, EventModel::StatusRefused) => Some("下载服务器返回错误状态"@),
        (StageModel::CheckName(sequence, _), EventModel::NameChecked(exists)) => if exists
            && sequence + 1 >= MAX_NAMES {
            Some(names_error())
        } else {
            None
        },
        (StageModel::CreatePartial(sequence, _), EventModel::PartialExists) => if sequence + 1
            >= MAX_NAMES {
            Some(names_error())
        } else {
            None
        },
        (StageModel::CreatePartial(_, _), EventModel::PartialFailed(path)) => Some(
            "无法创建临时下载文件:"@ + path,
        ),
        _ => None,
    }
}

/// Why a download fails on an event once there is a partial file, which then
/// has to be removed.
pub open spec fn late_error(job: JobModel, event: EventModel) -> Option<(u32, Seq<char>)> {
    match (job.stage, event) {
        (StageModel::ReadChunk(sequence, _, received), EventModel::StreamEnded) => if received
            == 0 {
            Some((sequence, "下载服务器返回了空文件"@))
        } else {
            None
        },
        (StageModel::ReadChunk(sequence, _, _), EventModel::ReadFailed(timed_out)) => Some(
            (sequence, read_error(timed_out)),
        ),
        (StageModel::WriteChunk(sequence, _, _), EventModel::WriteFailed) => Some(
            (sequence, "写入下载文件失败"@),
        ),
        (StageModel::Flush(sequence), EventModel::FlushFailed) => Some(
            (sequence, "刷新下载文件失败"@),
        ),
        (StageModel::Rename(sequence), EventModel::RenameFailed(path)) => Some(
            (sequence, "无法完成下载文件:"@ + path),
        ),
        _ => None,
    }
}

/// What is to be done after an event on which the download does not fail. An
/// event that does not fit what was to be done changes nothing.
pub open spec fn next_stage(stage: StageModel, event: EventModel) -> StageModel {
    match (stage, event) {
        (StageModel::AcquirePermit, EventModel::Permitted) => StageModel::ResolveUrl,
        (StageModel::ResolveUrl, EventModel::Resolved(_, _)) => StageModel::CreateDirectory,
        (StageModel::CreateDirectory, EventModel::DirectoryReady) => StageModel::BuildClient,
        (StageModel::BuildClient, EventModel::ClientReady) => StageModel::SendRequest,
        (StageModel::SendRequest, EventModel::Responded(total)) => StageModel::CheckName(0, total),
        (StageModel::CheckName(sequence, total), EventModel::NameChecked(exists)) => if exists {
            StageModel::CheckName((sequence + 1) as u32, total)
        } else {
            StageModel::CreatePartial(sequence, total)
        },
        (StageModel::CreatePartial(sequence, total), EventModel::PartialExists) =>
            StageModel::CheckName((sequence + 1) as u32, total),
        (StageModel::CreatePartial(sequence, total), EventModel::PartialCreated) =>
            StageModel::ReadChunk(sequence, total, 0),
        (StageModel::ReadChunk(sequence, total, received), EventModel::ChunkRead(length)) =>
            StageModel::WriteChunk(sequence, total, (received + length) as u64),
        (StageModel::ReadChunk(sequence, _, _), EventModel::StreamEnded) => StageModel::Flush(
            sequence,
        ),
        (StageModel::WriteChunk(sequence, total, received), EventModel::ChunkWritten) =>
            StageModel::ReadChunk(sequence, total, received),
        (StageModel::Flush(sequence), EventModel::Flushed) => StageModel::Rename(sequence),
        (StageModel::Rename(_), EventModel::Renamed(_, _)) => StageModel::Finished,
        (StageModel::Discard(_, _), EventModel::Discarded) => StageModel::Finished,
        _ => stage,
    }
}

impl JobModel {
    /// The download after an event.
    pub open spec fn after(self, event: EventModel) -> JobModel {
        if early_error(self, event) is Some {
            JobModel { stage: StageModel::Finished, ..self }
        } else if late_error(self, event) is Some {
            let (sequence, error) = late_error(self, event)->Some_0;
            JobModel { stage: StageModel::Discard(sequence, error), ..self }
        } else {
            JobModel {
                url: match (self.stage, event) {
                    (StageModel::ResolveUrl, EventModel::Resolved(_, url)) => url,
                    _ => self.url,
                },
                extension: match (self.stage, event) {
                    (StageModel::CreateDirectory, EventModel::DirectoryReady) =>
                        download::url_extension(self.url)->Ok_0,
                    _ => self.extension,
                },
                stage: next_stage(self.stage, event),
                ..self
            }
        }
    }

    /// What the user is told after an event.
    pub open spec fn report(self, event: EventModel) -> Seq<Message> {
        let id = self.request.job_id;
        if early_error(self, event) is Some {
            seq![
                Message::DownloadStage(id, StateModel::Failed(early_error(self, event)->Some_0)),
            ]
        } else {
            match (self.stage, event) {
                (StageModel::AcquirePermit, EventModel::Permitted) => seq![
                    Message::DownloadStage(id, StateModel::Resolving),
                ],
                (StageModel::ResolveUrl, EventModel::Resolved(level, _)) => seq![
                    Message::DownloadResolved(id, level),
                    Message::DownloadStage(id, StateModel::Downloading),
                ],
                (StageModel::CreatePartial(_, total), EventModel::PartialCreated) => seq![
                    Message::DownloadProgress(id, 0, total),
                ],
                (StageModel::WriteChunk(_, total, received), EventModel::ChunkWritten) => seq![
                    Message::DownloadProgress(id, received, total),
                ],
                (StageModel::Rename(_), EventModel::Renamed(path, file_name)) => seq![
                    Message::DownloadStage(id, StateModel::Completed(path, file_name)),
                ],
                (StageModel::Discard(_, error), EventModel::Discarded) => seq![
                    Message::DownloadStage(id, StateModel::Failed(error)),
                ],
                _ => seq![],
            }
        }
    }

    /// The name of the file with the given number.
    pub open spec fn file_name(self, sequence: nat) -> Seq<char> {
        numbered_name(download::stem(self.request.song), sequence, self.extension)
    }

    /// The name of the partial file with the given number.
    pub open spec fn partial_name(self, sequence: nat) -> Seq<char> {
        self.file_name(sequence) + ".part"@
    }

    /// Whether the bytes that have arrived can be counted.
    pub open spec fn can_count(self, event: EventModel) -> bool {
        match (self.stage, event) {
            (StageModel::ReadChunk(_, _, received), EventModel::ChunkRead(length)) => received
                + length <= u64::MAX,
            _ => true,
        }
    }
}

/// The `Cookie` header of a request: an empty one is left out.
pub open spec fn sent_cookie(media_cookie: Option<Seq<char>>) -> Option<Seq<char>> {
    match media_cookie {
        Some(cookie) if cookie.len() > 0 => Some(cookie),
        _ => None,
    }
}

/// No messages.
fn silent() -> (r: Vec<AppMessage>)
    ensures
        model::views(r@) == Seq::<Message>::empty(),
{
    let messages: Vec<AppMessage> = Vec::new();
    proof {
        assert(model::views(messages@) =~= Seq::<Message>::empty());
    }
    messages
}

/// A single message.
fn single(message: AppMessage) -> (r: Vec<AppMessage>)
    ensures
        model::views(r@) == seq![message@],
{
    let mut messages: Vec<AppMessage> = Vec::new();
    let ghost view = message@;
    messages.push(message);
    proof {
        assert(model::views(messages@) =~= seq![view]);
    }
    messages
}

impl DownloadJob {
    /// A new download.
    pub fn new(request: DownloadRequest) -> (r: DownloadJob)
        ensures
            r@ == (JobModel {
                request: request@,
                url: seq![],
                extension: seq![],
                stage: StageModel::AcquirePermit,
            }),
    {
        DownloadJob {
            request,
            url: String::new(),
            extension: String::new(),
            stage: Stage::AcquirePermit,
        }
    }

    /// The name of the file with the given number.
    pub fn file_name(&self, sequence: u32) -> (r: String)
        ensures
            r@ == self@.file_name(sequence as nat),
    {
        let mut suffix = String::new();
        if sequence > 0 {
            suffix = " (".to_owned().concat(text::decimal_text(sequence as u64).as_str()).concat(
                ")",
            );
        }
        file_stem(&self.request.song).concat(suffix.as_str()).concat(".").concat(
            self.extension.as_str(),
        )
    }

    /// The name of the partial file with the given number.
    pub fn partial_name(&self, sequence: u32) -> (r: String)
        ensures
            r@ == self@.partial_name(sequence as nat),
    {
        self.file_name(sequence).concat(".part")
    }

    /// The `Cookie` header of the request.
    pub fn cookie(&self) -> (r: Option<String>)
        ensures
            model::view_of(r) == sent_cookie(self@.request.media_cookie),
    {
        match &self.request.media_cookie {
            Some(cookie) => if cookie.as_str().unicode_len() > 0 {
                Some(cookie.clone())
            } else {
                None
            },
            None => None,
        }
    }

    /// News of the state of the download.
    fn state(&self, state: DownloadState) -> (r: AppMessage)
        ensures
            r@ == Message::DownloadStage(self@.request.job_id, state@),
    {
        AppMessage::DownloadStage { job_id: self.request.job_id, state }
    }

    /// News of how much has arrived.
    fn progress(&self, received: u64, total: Option<u64>) -> (r: AppMessage)
        ensures
            r@ == Message::DownloadProgress(self@.request.job_id, received, total),
    {
        AppMessage::DownloadProgress { job_id: self.request.job_id, received, total }
    }

    /// Ends the download with an error.
    fn fail(&mut self, error: String) -> (r: Vec<AppMessage>)
        ensures
            final(self)@ == (JobModel { stage: StageModel::Finished, ..old(self)@ }),
            model::views(r@) == seq![
                Message::DownloadStage(
                    old(self)@.request.job_id,
                    StateModel::Failed(error@),
                ),
            ],
    {
        self.stage = Stage::Finished;
        single(self.state(DownloadState::Failed(error)))
    }

    /// Has the partial file removed before the download ends with an error.
    fn discard(&mut self, sequence: u32, error: &str) -> (r: Vec<AppMessage>)
        ensures
            final(self)@ == (JobModel {
                stage: StageModel::Discard(sequence, error@),
                ..old(self)@
            }),
            model::views(r@) == Seq::<Message>::empty(),
    {
        self.stage = Stage::Discard { sequence, error: error.to_owned() };
        silent()
    }

    /// Goes on to the next file name, if there is one.
    fn next_name(&mut self, sequence: u32, total: Option<u64>) -> (r: Vec<AppMessage>)
        ensures
            sequence + 1 >= MAX_NAMES ==> {
                &&& final(self)@ == (JobModel { stage: StageModel::Finished, ..old(self)@ })
                &&& model::views(r@) == seq![
                    Message::DownloadStage(
                        old(self)@.request.job_id,
                        StateModel::Failed(names_error()),
                    ),
                ]
            },
            sequence + 1 < MAX_NAMES ==> {
                &&& final(self)@ == (JobModel {
                    stage: StageModel::CheckName((sequence + 1) as u32, total),
                    ..old(self)@
                })
                &&& model::views(r@) == Seq::<Message>::empty()
            },
    {
        if sequence >= MAX_NAMES - 1 {
            self.fail("同名下载文件过多,请整理下载目录后重试".to_owned())
        } else {
            self.stage = Stage::CheckName { sequence: sequence + 1, total };
            silent()
        }
    }

    /// Takes in the address of the song.
    fn resolve(&mut self, playback: UrlResult) -> (r: Vec<AppMessage>)
        requires
            old(self)@.stage is ResolveUrl,
        ensures
            final(self)@ == old(self)@.after(EventModel::Resolved(playback.level, playback.url@)),
            model::views(r@) == old(self)@.report(
                EventModel::Resolved(playback.level, playback.url@),
            ),
    {
        if text::is_blank(playback.url.as_str()) {
            return self.fail("平台未返回可用链接,可能需要会员,登录或更换音质".to_owned());
        }
        self.url = playback.url;
        self.stage = Stage::CreateDirectory;
        let mut messages = single(
            AppMessage::DownloadResolved {
                job_id: self.request.job_id,
                actual_quality: playback.level,
            },
        );
        let ghost first = messages@;
        messages.push(self.state(DownloadState::Downloading));
        proof {
            assert(model::views(messages@) =~= model::views(first).push(
                Message::DownloadStage(self@.request.job_id, StateModel::Downloading),
            ));
            assert(model::views(messages@) =~= old(self)@.report(
                EventModel::Resolved(playback.level, playback.url@),
            ));
        }
        messages
    }

    /// Takes in that there is a folder for the file.
    fn enter_directory(&mut self) -> (r: Vec<AppMessage>)
        requires
            old(self)@.stage is CreateDirectory,
        ensures
            final(self)@ == old(self)@.after(EventModel::DirectoryReady),
            model::views(r@) == old(self)@.report(EventModel::DirectoryReady),
    {
        match original_url_extension(self.url.as_str()) {
            Ok(extension) => {
                self.extension = extension;
                self.stage = Stage::BuildClient;
                silent()
            },
            Err(failure) => self.fail(failure.message().to_owned()),
        }
    }

    /// Takes in what came of the last thing that was to be done, and gives
    /// the news for the user.
    pub fn step(&mut self, event: JobEvent) -> (r: Vec<AppMessage>)
        requires
            old(self)@.can_count(event@),
        ensures
            final(self)@ == old(self)@.after(event@),
            model::views(r@) == old(self)@.report(event@),
    {
        let mut stage = Stage::Finished;
        std::mem::swap(&mut self.stage, &mut stage);
        match stage {
            Stage::AcquirePermit => match event {
                JobEvent::Permitted => {
                    self.stage = Stage::ResolveUrl;
                    return single(self.state(DownloadState::Resolving));
                },
                JobEvent::SchedulerClosed => {
                    return self.fail("下载调度器已关闭".to_owned());
                },
                _ => {},
            },
            Stage::ResolveUrl => match event {
                JobEvent::Resolved(playback) => {
                    self.stage = Stage::ResolveUrl;
                    return self.resolve(playback);
                },
                JobEvent::ResolveFailed(error) => {
                    return self.fail("获取播放链接失败:".to_owned().concat(error.as_str()));
                },
                _ => {},
            },
            Stage::CreateDirectory => match event {
                JobEvent::DirectoryReady => {
                    self.stage = Stage::CreateDirectory;
                    return self.enter_directory();
                },
                JobEvent::DirectoryFailed => {
                    let error = "无法创建下载目录:".to_owned().concat(
                        self.request.directory.as_str(),
                    );
                    return self.fail(error);
                },
                _ => {},
            },
            Stage::BuildClient => match event {
                JobEvent::ClientReady => {
                    self.stage = Stage::SendRequest;
                    return silent();
                },
                JobEvent::ClientFailed => {
                    return self.fail("无法初始化下载客户端".to_owned());
                },
                _ => {},
            },
            Stage::SendRequest => match event {
                JobEvent::Responded(total) => {
                    self.stage = Stage::CheckName { sequence: 0, total };
                    return silent();
                },
                JobEvent::SendFailed { timed_out } => {
                    return self.fail(
                        if timed_out {
                            "连接下载地址或等待响应超时,请重试".to_owned()
                        } else {
                            "连接下载地址失败".to_owned()
                        },
                    );
                },
                JobEvent::StatusRefused => {
                    return self.fail("下载服务器返回错误状态".to_owned());
                },
                _ => {},
            },
            Stage::CheckName { sequence, total } => match event {
                JobEvent::NameChecked { exists } => {
                    if exists {
                        return self.next_name(sequence, total);
                    }
                    self.stage = Stage::CreatePartial { sequence, total };
                    return silent();
                },
                _ => {},
            },
            Stage::CreatePartial { sequence, total } => match event {
                JobEvent::PartialCreated => {
                    self.stage = Stage::ReadChunk { sequence, total, received: 0 };
                    return single(self.progress(0, total));
                },
                JobEvent::PartialExists => {
                    return self.next_name(sequence, total);
                },
                JobEvent::PartialFailed(path) => {
                    return self.fail("无法创建临时下载文件:".to_owned().concat(path.as_str()));
                },
                _ => {},
            },
            Stage::ReadChunk { sequence, total, received } => match event {
                JobEvent::ChunkRead(length) => {
                    self.stage = Stage::WriteChunk { sequence, total, received: received + length };
                    return silent();
                },
                JobEvent::StreamEnded => {
                    if received == 0 {
                        return self.discard(sequence, "下载服务器返回了空文件");
                    }
                    self.stage = Stage::Flush { sequence };
                    return silent();
                },
                JobEvent::ReadFailed { timed_out } => {
                    return self.discard(
                        sequence,
                        if timed_out {
                            "下载读取超时,请重试"
                        } else {
                            "读取下载数据失败"
                        },
                    );
                },
                _ => {},
            },
            Stage::WriteChunk { sequence, total, received } => match event {
                JobEvent::ChunkWritten => {
                    self.stage = Stage::ReadChunk { sequence, total, received };
                    return single(self.progress(received, total));
                },
                JobEvent::WriteFailed => {
                    return self.discard(sequence, "写入下载文件失败");
                },
                _ => {},
            },
            Stage::Flush { sequence } => match event {
                JobEvent::Flushed => {
                    self.stage = Stage::Rename { sequence };
                    return silent();
                },
                JobEvent::FlushFailed => {
                    return self.discard(sequence, "刷新下载文件失败");
                },
                _ => {},
            },
            Stage::Rename { sequence } => match event {
                JobEvent::Renamed(file) => {
                    return single(self.state(DownloadState::Completed(file)));
                },
                JobEvent::RenameFailed(path) => {
                    let error = "无法完成下载文件:".to_owned().concat(path.as_str());
                    return self.discard(sequence, error.as_str());
                },
                _ => {},
            },
            Stage::Discard { sequence, error } => {
                if let JobEvent::Discarded = event {
                    return self.fail(error);
                }
                self.stage = Stage::Discard { sequence, error };
                return silent();
            },
            Stage::Finished => {},
        }
        self.stage = stage;
        silent()
    }
}

} // verus!
