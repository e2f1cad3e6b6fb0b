//! What holds of downloads and login attempts while they run.

use vstd::prelude::*;

use crate::app::LoginPhase;
use crate::app_model::{AppModel, Message};
use crate::job;
use crate::job::{EventModel, JobModel, StageModel, MAX_NAMES};
use crate::login::{PollModel, PollStage, StatusModel};
use crate::music::Platform;
use crate::text;

verus! {

/// Whether a partial file is there at a stage.
pub open spec fn has_partial(stage: StageModel) -> bool {
    ||| stage is ReadChunk
    ||| stage is WriteChunk
    ||| stage is Flush
    ||| stage is Rename
    ||| stage is Discard
}

/// A partial file comes into being by being created, and is there no more
/// only once it was given its name or was to be removed, which ends the
/// download: it never outlives it.
pub proof fn law_partial_files_end_with_the_download(job: JobModel, event: EventModel)
    ensures
        !has_partial(job.stage) && has_partial(job.after(event).stage) ==> job.stage
            is CreatePartial && event is PartialCreated,
        has_partial(job.stage) && !has_partial(job.after(event).stage) ==> {
            &&& job.after(event).stage is Finished
            &&& (job.stage is Rename && event is Renamed) || (job.stage is Discard && event
                is Discarded)
        },
{
}

/// Nothing is done for a download before it is its turn.
pub proof fn law_downloads_wait_for_their_turn(job: JobModel, event: EventModel)
    requires
        job.stage is AcquirePermit,
    ensures
        job.after(event).stage is AcquirePermit || job.after(event).stage is Finished || event
            is Permitted,
{
}

/// Whether a message says that a download has come to its end.
pub open spec fn is_last(message: Message) -> bool {
    message is DownloadStage && message->DownloadStage_1.finished()
}

/// The number of the download that a message is about.
pub open spec fn about(message: Message) -> Option<u64> {
    match message {
        Message::DownloadStage(id, _) => Some(id),
        Message::DownloadResolved(id, _) => Some(id),
        Message::DownloadProgress(id, _, _) => Some(id),
        _ => None,
    }
}

/// The user is told that a download has come to its end exactly when it has,
/// and all messages carry its number.
pub proof fn law_downloads_report_their_end(job: JobModel, event: EventModel)
    ensures
        forall|i: int|
            0 <= i < job.report(event).len() ==> about(#[trigger] job.report(event)[i]) == Some(
                job.request.job_id,
            ),
        (exists|i: int| 0 <= i < job.report(event).len() && is_last(#[trigger] job.report(event)[i]))
            <==> !(job.stage is Finished) && job.after(event).stage is Finished,
{
    let messages = job.report(event);
    if !(job.stage is Finished) && job.after(event).stage is Finished {
        assert(is_last(messages[0]));
    }
}

/// Nothing follows the end of a download.
pub proof fn law_finished_downloads_are_silent(job: JobModel, event: EventModel)
    requires
        job.stage is Finished,
    ensures
        job.after(event) == job,
        job.report(event).len() == 0,
{
}

/// A download succeeds only by renaming its partial file, which was flushed
/// before, after some bytes had arrived and the server had sent all it had.
pub proof fn law_only_whole_files_are_kept(job: JobModel, event: EventModel)
    ensures
        (exists|i: int|
            0 <= i < job.report(event).len() && (#[trigger] job.report(event)[i]) is DownloadStage
                && job.report(event)[i]->DownloadStage_1 is Completed) ==> job.stage is Rename
            && event is Renamed,
        job.after(event).stage is Rename && !(job.stage is Rename) ==> job.stage is Flush && event
            is Flushed,
        job.after(event).stage is Flush && !(job.stage is Flush) ==> job.stage is ReadChunk && event
            is StreamEnded && job.stage->ReadChunk_2 > 0,
{
}

/// Every byte that arrives is counted, and the count is reported once the
/// bytes are written.
pub proof fn law_progress_counts_every_byte(
    job: JobModel,
    sequence: u32,
    total: Option<u64>,
    received: u64,
    length: u64,
)
    requires
        job.stage == StageModel::ReadChunk(sequence, total, received),
        received + length <= u64::MAX,
    ensures
        ({
            let read = job.after(EventModel::ChunkRead(length));
            let written = read.after(EventModel::ChunkWritten);
            &&& written.stage == StageModel::ReadChunk(sequence, total, (received + length) as u64)
            &&& job.report(EventModel::ChunkRead(length)).len() == 0
            &&& read.report(EventModel::ChunkWritten) == seq![
                Message::DownloadProgress(
                    job.request.job_id,
                    (received + length) as u64,
                    total,
                ),
            ]
        }),
{
}

/// No more names are tried than are allowed for, and they come in order.
pub proof fn law_names_are_tried_in_order(job: JobModel, event: EventModel)
    ensures
        job.after(event).stage is CheckName && job.after(event).stage != job.stage ==> {
            let sequence = job.after(event).stage->CheckName_0;
            &&& sequence < MAX_NAMES
            &&& match job.stage {
                StageModel::SendRequest => sequence == 0,
                StageModel::CheckName(before, _) => sequence == before + 1,
                StageModel::CreatePartial(before, _) => sequence == before + 1,
                _ => false,
            }
        },
{
}

/// Different numbers make for different file names.
pub proof fn law_file_names_are_distinct(
    stem: Seq<char>,
    extension: Seq<char>,
    a: nat,
    b: nat,
)
    ensures
        job::numbered_name(stem, a, extension) == job::numbered_name(stem, b, extension) <==> a
            == b,
{
    reveal_strlit(" (");
    reveal_strlit(")");
    reveal_strlit(".");
    let x = job::numbered_name(stem, a, extension);
    let y = job::numbered_name(stem, b, extension);
    if x == y {
        let n = stem.len() as int;
        let tail = 1 + extension.len();
        let p = x.subrange(n, x.len() - tail);
        let q = y.subrange(n, y.len() - tail);
        if a > 0 {
            assert(p =~= " ("@ + text::decimal(a) + ")"@);
            assert(p.subrange(2, p.len() - 1) =~= text::decimal(a));
        } else {
            assert(p.len() == 0);
        }
        if b > 0 {
            assert(q =~= " ("@ + text::decimal(b) + ")"@);
            assert(q.subrange(2, q.len() - 1) =~= text::decimal(b));
        } else {
            assert(q.len() == 0);
        }
        if a > 0 && b > 0 {
            text::lemma_decimals_differ(a, b);
        }
    }
}

/// An attempt that has ended stays so and says nothing; one that the user
/// ends says nothing either.
pub proof fn law_ended_attempts_are_silent(
    stage: PollStage,
    platform: Platform,
    request_id: u64,
    event: PollModel,
)
    ensures
        stage == PollStage::Ended ==> stage.after(platform, event) == PollStage::Ended
            && stage.report(platform, request_id, event) is None,
        event is Cancelled ==> stage.after(platform, event) == PollStage::Ended && stage.report(
            platform,
            request_id,
            event,
        ) is None,
{
}

/// What an attempt reports is about that attempt; unless the user ends it, it
/// ends exactly with a success, a failure or an expired code, and the view of
/// it is settled with it.
pub proof fn law_attempts_end_with_their_view(
    stage: PollStage,
    platform: Platform,
    request_id: u64,
    event: PollModel,
    app: AppModel,
)
    requires
        stage != PollStage::Ended,
        !(event is Cancelled),
        app.awaits_login(request_id),
    ensures
        match stage.report(platform, request_id, event) {
            None => stage.after(platform, event) != PollStage::Ended,
            Some(message) => {
                &&& match message {
                    Message::LoginQr(id, _) => id == request_id,
                    Message::LoginPhase(id, _, _) => id == request_id,
                    Message::LoginSuccess(id, _) => id == request_id,
                    _ => false,
                }
                &&& message is LoginQr ==> stage.after(platform, event) == PollStage::QueryStatus
                &&& !(message is LoginQr) ==> app.received(message).awaits_login(request_id) == (
                stage.after(platform, event) != PollStage::Ended)
            },
        },
{
}

/// While a scan or its confirmation is waited for, the status is asked for
/// again after a pause.
pub proof fn law_waiting_attempts_go_on(platform: Platform, status: StatusModel)
    requires
        status is WaitingScan || status is WaitingConfirm,
    ensures
        PollStage::QueryStatus.after(platform, PollModel::Status(status)) == PollStage::Pause,
        PollStage::Pause.after(platform, PollModel::PauseOver) == PollStage::QueryStatus,
{
}

} // verus!
