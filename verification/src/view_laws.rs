//! The mathematical views leave nothing out and change nothing.

use vstd::prelude::*;

use crate::app::{
    App, AppMessage, CodeRequest, DownloadItem, DownloadRequest, DownloadState, LoginOverlay,
    MarkedSong, Reaction, RefreshRequest, SearchRequest,
};
use crate::app_model::{Message, ReactionModel, StateModel};
use crate::job::{DownloadJob, EventModel, JobEvent, Stage, StageModel};
use crate::keys::{Effect, EffectModel};
use crate::login::{LoginStatus, PollEvent, PollModel, StatusModel};
use crate::model;
use crate::music::{Login, LoginToken, NeteaseLoginToken, Song, TencentLoginToken};
use crate::qr::{FileReading, QrStep, ReadingModel, StepModel};
use crate::storage::{AppPaths, CookieStore};

verus! {

/// Sequences and optional values are seen item by item.
pub proof fn law_views_go_item_by_item<T: View>(items: Seq<T>, item: Option<T>)
    ensures
        model::views(items).len() == items.len(),
        forall|i: int| 0 <= i < items.len() ==> #[trigger] model::views(items)[i] == items[i]@,
        model::view_of(item) is Some <==> item is Some,
        item is Some ==> model::view_of(item) == Some(item->Some_0@),
{
}

/// A song is seen with all that it holds.
pub proof fn law_songs_are_seen_whole(song: Song)
    ensures
        song@.id == song.id@,
        song@.name == song.name@,
        song@.pic_url == song.pic_url@,
        song@.artists.len() == song.artists@.len(),
        forall|i: int|
            0 <= i < song.artists@.len() ==> (#[trigger] song@.artists[i]).id
                == song.artists@[i].id@ && song@.artists[i].name == song.artists@[i].name@,
        song@.album.id == song.album.id@,
        song@.album.name == song.album.name@,
{
}

/// Logins are seen with all that they hold.
pub proof fn law_logins_are_seen_whole(
    netease: NeteaseLoginToken,
    tencent: TencentLoginToken,
    token: LoginToken,
)
    ensures
        netease@.music_u == netease.music_u@,
        netease@.music_r_u == netease.music_r_u@,
        netease@.csrf == netease.csrf@,
        netease@.expires_at == netease.expires_at,
        tencent@.music_id == tencent.music_id,
        tencent@.music_key == tencent.music_key@,
        tencent@.refresh_token == tencent.refresh_token@,
        tencent@.refresh_key == tencent.refresh_key@,
        tencent@.login_type == tencent.login_type,
        tencent@.expires_at == tencent.expires_at,
        token matches LoginToken::Netease(t) ==> token@ == Login::Netease(t@),
        token matches LoginToken::Tencent(t) ==> token@ == Login::Tencent(t@),
{
}

/// The stored logins, and the paths, are seen as they are.
pub proof fn law_stores_are_seen_whole(store: CookieStore, paths: AppPaths)
    ensures
        store@.version == store.version,
        store@.netease is Some <==> store.netease is Some,
        store.netease is Some ==> store@.netease == Some(store.netease->Some_0@),
        store@.tencent is Some <==> store.tencent is Some,
        store.tencent is Some ==> store@.tencent == Some(store.tencent->Some_0@),
        paths@.cookie_file == paths.cookie_file@,
        paths@.download_dir == paths.download_dir@,
{
}

/// What is shown of a login attempt is seen as it is: every line of its code.
pub proof fn law_overlays_are_seen_whole(overlay: LoginOverlay)
    ensures
        overlay@.request_id == overlay.request_id,
        overlay@.phase == overlay.phase,
        overlay@.detail == overlay.detail@,
        overlay@.qr_lines.len() == overlay.qr_lines@.len(),
        forall|i: int|
            0 <= i < overlay.qr_lines@.len() ==> #[trigger] overlay@.qr_lines[i]
                == overlay.qr_lines@[i]@,
{
}

/// Marked songs, downloads and their states are seen as they are.
pub proof fn law_downloads_are_seen_whole(
    mark: MarkedSong,
    item: DownloadItem,
    state: DownloadState,
)
    ensures
        mark@.platform == mark.platform,
        mark@.song == mark.song@,
        item@.job_id == item.job_id,
        item@.key == item.key@,
        item@.platform == item.platform,
        item@.song == item.song@,
        item@.requested_quality == item.requested_quality,
        item@.actual_quality == item.actual_quality,
        item@.received == item.received,
        item@.total == item.total,
        item@.state == item.state@,
        state@ is Queued <==> state is Queued,
        state@ is Resolving <==> state is Resolving,
        state@ is Downloading <==> state is Downloading,
        state matches DownloadState::Failed(error) ==> state@ == StateModel::Failed(error@),
        state matches DownloadState::Completed(file) ==> {
            &&& state@ matches StateModel::Completed(path, name)
            &&& path == file.path@
            &&& name is Some <==> file.file_name is Some
            &&& file.file_name is Some ==> name == Some(file.file_name->Some_0@)
        },
{
}

/// Requests are seen as they are.
pub proof fn law_requests_are_seen_whole(
    search: SearchRequest,
    refresh: RefreshRequest,
    download: DownloadRequest,
    code: CodeRequest,
)
    ensures
        search@.request_id == search.request_id,
        search@.keyword == search.keyword@,
        search@.platform == search.platform,
        search@.offset == search.offset,
        search@.limit == search.limit,
        search@.login is Some <==> search.token is Some,
        search.token is Some ==> search@.login == Some(search.token->Some_0@),
        refresh@.platform == refresh.platform,
        refresh@.cookie_revision == refresh.cookie_revision,
        refresh@.login == refresh.token@,
        download@.job_id == download.job_id,
        download@.platform == download.platform,
        download@.song == download.song@,
        download@.quality == download.quality,
        download@.login is Some <==> download.token is Some,
        download.token is Some ==> download@.login == Some(download.token->Some_0@),
        download@.media_cookie is Some <==> download.media_cookie is Some,
        download.media_cookie is Some ==> download@.media_cookie == Some(
            download.media_cookie->Some_0@,
        ),
        download@.directory == download.directory@,
        code@.request_id == code.request_id,
        code@.payload == code.payload@,
        code@.file == code.file@,
        code@.bare == code.bare,
{
}

/// Messages are seen as they are.
pub proof fn law_messages_are_seen_whole(message: AppMessage)
    ensures
        match message {
            AppMessage::SearchFinished { request_id, result: Ok(page) } => {
                &&& message@ matches Message::SearchFinished(id, Ok((songs, more)))
                &&& id == request_id
                &&& more == page.more
                &&& songs.len() == page.songs@.len()
                &&& forall|i: int| 0 <= i < songs.len() ==> #[trigger] songs[i] == page.songs@[i]@
            },
            AppMessage::SearchFinished { request_id, result: Err(error) } => message@
                == Message::SearchFinished(request_id, Err(error@)),
            AppMessage::LoginQr { request_id, payload } => message@ == Message::LoginQr(
                request_id,
                payload@,
            ),
            AppMessage::LoginPhase { request_id, phase, detail } => message@
                == Message::LoginPhase(request_id, phase, detail@),
            AppMessage::LoginSuccess { request_id, token } => message@ == Message::LoginSuccess(
                request_id,
                token@,
            ),
            AppMessage::CookieRefreshFinished { platform, cookie_revision, result: Ok(token) } =>
                message@ == Message::CookieRefreshFinished(platform, cookie_revision, Ok(token@)),
            AppMessage::CookieRefreshFinished { platform, cookie_revision, result: Err(error) } =>
                message@ == Message::CookieRefreshFinished(platform, cookie_revision, Err(error@)),
            AppMessage::DownloadStage { job_id, state } => message@ == Message::DownloadStage(
                job_id,
                state@,
            ),
            AppMessage::DownloadResolved { job_id, actual_quality } => message@
                == Message::DownloadResolved(job_id, actual_quality),
            AppMessage::DownloadProgress { job_id, received, total } => message@
                == Message::DownloadProgress(job_id, received, total),
        },
{
}

/// What is to be done after a message, and how far a code has come, are seen
/// as they are.
pub proof fn law_steps_are_seen_whole(reaction: Reaction, reading: FileReading, step: QrStep)
    ensures
        match reaction {
            Reaction::Nothing => reaction@ is Nothing,
            Reaction::ReadCode(request) => reaction@ == ReactionModel::ReadCode(request@),
            Reaction::CancelLogin(id) => reaction@ == ReactionModel::CancelLogin(id),
            Reaction::Save(reason) => reaction@ == ReactionModel::Save(reason),
        },
        match reading {
            FileReading::NotAnImage => reading@ is NotAnImage,
            FileReading::Codes(contents) => {
                &&& reading@ matches ReadingModel::Codes(texts)
                &&& texts.len() == contents@.len()
                &&& forall|i: int|
                    0 <= i < texts.len() ==> match contents@[i] {
                        Some(text) => (#[trigger] texts[i]) == Some(text@),
                        None => texts[i] is None,
                    }
            },
        },
        match step {
            QrStep::Read { file, bare } => step@ == StepModel::Read(file@, bare),
            QrStep::Done(Ok(lines)) => {
                &&& step@ matches StepModel::Done(Ok(texts))
                &&& texts.len() == lines@.len()
                &&& forall|i: int| 0 <= i < texts.len() ==> #[trigger] texts[i] == lines@[i]@
            },
            QrStep::Done(Err(failure)) => step@ == StepModel::Done(Err(failure)),
        },
{
}

/// A running download is seen as it is.
pub proof fn law_jobs_are_seen_whole(job: DownloadJob)
    ensures
        job@.request == job.request@,
        job@.url == job.url@,
        job@.extension == job.extension@,
        job@.stage == job.stage@,
{
}

/// Stages of a download are seen as they are.
pub proof fn law_stages_are_seen_whole(stage: Stage)
    ensures
        match stage {
            Stage::AcquirePermit => stage@ is AcquirePermit,
            Stage::ResolveUrl => stage@ is ResolveUrl,
            Stage::CreateDirectory => stage@ is CreateDirectory,
            Stage::BuildClient => stage@ is BuildClient,
            Stage::SendRequest => stage@ is SendRequest,
            Stage::CheckName { sequence, total } => stage@ == StageModel::CheckName(
                sequence,
                total,
            ),
            Stage::CreatePartial { sequence, total } => stage@ == StageModel::CreatePartial(
                sequence,
                total,
            ),
            Stage::ReadChunk { sequence, total, received } => stage@ == StageModel::ReadChunk(
                sequence,
                total,
                received,
            ),
            Stage::WriteChunk { sequence, total, received } => stage@ == StageModel::WriteChunk(
                sequence,
                total,
                received,
            ),
            Stage::Flush { sequence } => stage@ == StageModel::Flush(sequence),
            Stage::Rename { sequence } => stage@ == StageModel::Rename(sequence),
            Stage::Discard { sequence, error } => stage@ == StageModel::Discard(sequence, error@),
            Stage::Finished => stage@ is Finished,
        },
{
}

/// What came of the steps of a download is seen as it is.
pub proof fn law_job_events_are_seen_whole(event: JobEvent)
    ensures
        match event {
            JobEvent::Permitted => event@ is Permitted,
            JobEvent::SchedulerClosed => event@ is SchedulerClosed,
            JobEvent::Resolved(playback) => event@ == EventModel::Resolved(
                playback.level,
                playback.url@,
            ),
            JobEvent::ResolveFailed(error) => event@ == EventModel::ResolveFailed(error@),
            JobEvent::DirectoryReady => event@ is DirectoryReady,
            JobEvent::DirectoryFailed => event@ is DirectoryFailed,
            JobEvent::ClientReady => event@ is ClientReady,
            JobEvent::ClientFailed => event@ is ClientFailed,
            JobEvent::Responded(total) => event@ == EventModel::Responded(total),
            JobEvent::SendFailed { timed_out } => event@ == EventModel::SendFailed(timed_out),
            JobEvent::StatusRefused => event@ is StatusRefused,
            JobEvent::NameChecked { exists } => event@ == EventModel::NameChecked(exists),
            JobEvent::PartialCreated => event@ is PartialCreated,
            JobEvent::PartialExists => event@ is PartialExists,
            JobEvent::PartialFailed(path) => event@ == EventModel::PartialFailed(path@),
            JobEvent::ChunkRead(length) => event@ == EventModel::ChunkRead(length),
            JobEvent::StreamEnded => event@ is StreamEnded,
            JobEvent::ReadFailed { timed_out } => event@ == EventModel::ReadFailed(timed_out),
            JobEvent::ChunkWritten => event@ is ChunkWritten,
            JobEvent::WriteFailed => event@ is WriteFailed,
            JobEvent::Flushed => event@ is Flushed,
            JobEvent::FlushFailed => event@ is FlushFailed,
            JobEvent::Renamed(file) => {
                &&& event@ matches EventModel::Renamed(path, name)
                &&& path == file.path@
                &&& name is Some <==> file.file_name is Some
                &&& file.file_name is Some ==> name == Some(file.file_name->Some_0@)
            },
            JobEvent::RenameFailed(path) => event@ == EventModel::RenameFailed(path@),
            JobEvent::Discarded => event@ is Discarded,
        },
{
}

/// What came of the steps of a login attempt is seen as it is.
pub proof fn law_poll_events_are_seen_whole(event: PollEvent)
    ensures
        match event {
            PollEvent::SessionCreated(payload) => event@ == PollModel::SessionCreated(payload@),
            PollEvent::SessionFailed(error) => event@ == PollModel::SessionFailed(error@),
            PollEvent::Status(LoginStatus::Success(token)) => event@ == PollModel::Status(
                StatusModel::Success(token@),
            ),
            PollEvent::Status(LoginStatus::QrCodeExpired) => event@ == PollModel::Status(
                StatusModel::QrCodeExpired,
            ),
            PollEvent::Status(LoginStatus::WaitingScan) => event@ == PollModel::Status(
                StatusModel::WaitingScan,
            ),
            PollEvent::Status(LoginStatus::WaitingConfirm) => event@ == PollModel::Status(
                StatusModel::WaitingConfirm,
            ),
            PollEvent::StatusFailed { lost_connection, error } => {
                &&& event@ matches PollModel::StatusFailed(cause, text)
                &&& text == error@
                &&& cause is Some <==> lost_connection is Some
                &&& lost_connection is Some ==> cause == Some(lost_connection->Some_0@)
            },
            PollEvent::PauseOver => event@ is PauseOver,
            PollEvent::Cancelled => event@ is Cancelled,
        },
{
}

/// What is to be done outside after an event is seen as it is.
pub proof fn law_effects_are_seen_whole(effect: Effect)
    ensures
        match effect {
            Effect::Nothing => effect@ is Nothing,
            Effect::Search(request) => effect@ == EffectModel::Search(request@),
            Effect::Download(requests) => {
                &&& effect@ matches EffectModel::Download(models)
                &&& models.len() == requests@.len()
                &&& forall|i: int| 0 <= i < models.len() ==> #[trigger] models[i] == requests@[i]@
            },
            Effect::Login(request) => effect@ == EffectModel::Login(request),
            Effect::CancelLogin(id) => effect@ == EffectModel::CancelLogin(id),
        },
{
}

/// The application is seen as it is.
pub proof fn law_the_application_is_seen_whole(app: App)
    ensures
        app@.paths == app.paths@,
        app@.cookies == app.cookies@,
        app@.platform == app.platform,
        app@.quality == app.quality,
        app@.query == app.query@,
        app@.input == app.input@,
        app@.input_mode == app.input_mode,
        app@.results.len() == app.results@.len(),
        forall|i: int| 0 <= i < app.results@.len() ==> #[trigger] app@.results[i]
            == app.results@[i]@,
        app@.selected_row == app.selected_row,
        app@.marked.len() == app.marked@.len(),
        forall|i: int| 0 <= i < app.marked@.len() ==> #[trigger] app@.marked[i]
            == app.marked@[i]@,
        app@.page == app.page,
        app@.more == app.more,
        app@.loading == app.loading,
        app@.search_request_id == app.search_request_id,
        app@.downloads.len() == app.downloads@.len(),
        forall|i: int| 0 <= i < app.downloads@.len() ==> #[trigger] app@.downloads[i]
            == app.downloads@[i]@,
        app@.show_help == app.show_help,
        app@.login_overlay is Some <==> app.login_overlay is Some,
        app.login_overlay is Some ==> app@.login_overlay == Some(app.login_overlay->Some_0@),
        app@.should_quit == app.should_quit,
        app@.notice.kind == app.notice.kind,
        app@.notice.text == app.notice.text@,
        app@.notice.changed_at == Some(app.notice.changed_at),
        app@.next_job_id == app.next_job_id,
        app@.login_request_id == app.login_request_id,
        app@.login_cancel == app.login_cancel,
        app@.cookie_refresh_pending == app.cookie_refresh_pending,
        app@.cookie_refresh_failed == app.cookie_refresh_failed@,
        app@.cookie_revisions == app.cookie_revisions@,
{
}

} // verus!
