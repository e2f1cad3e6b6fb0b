//! News from the background.

use vstd::prelude::*;

use crate::app::{
    App, AppMessage, CodeRequest, DownloadItem, DownloadState, NoticeKind, Reaction, SaveReason,
};
use crate::app_laws;
use crate::app_model;
use crate::app_model::{AppModel, ItemModel};
use crate::model;
use crate::music::{SearchSongResult, SongQuality};
use crate::qr::{continue_qr, prepare_qr, FileReading, QrStep};
use crate::text;

verus! {

/// Where a download stands; their number if there is none with that number.
fn job_index(downloads: &Vec<DownloadItem>, job_id: u64) -> (r: usize)
    ensures
        r == app_model::job_position(model::views(downloads@), job_id),
        r <= downloads@.len(),
{
    let ghost all = model::views(downloads@);
    let ghost p = |item: ItemModel| item.job_id == job_id;
    let mut i: usize = 0;
    while i < downloads.len() && downloads[i].job_id != job_id
        invariant
            all == model::views(downloads@),
            i <= downloads.len(),
            forall|j: int| 0 <= j < i ==> (#[trigger] all[j]).job_id != job_id,
        decreases downloads.len() - i,
    {
        proof {
            assert(all[i as int] == downloads@[i as int]@);
        }
        i = i + 1;
    }
    proof {
        if i < downloads.len() {
            assert(all[i as int] == downloads@[i as int]@);
        }
        model::lemma_first_where(all, p, i as int);
    }
    i
}

impl App {
    /// Takes over what a search has given. One that was not the last to be
    /// asked for counts no more.
    pub fn finish_search(&mut self, request_id: u64, result: Result<SearchSongResult, String>)
        ensures
            final(self)@ == old(self)@.search_finished(
                request_id,
                match result {
                    Ok(page) => Ok((model::views(page.songs@), page.more)),
                    Err(error) => Err(error@),
                },
            ).dated(final(self).notice.changed_at),
    {
        if request_id != self.search_request_id {
            return;
        }
        self.loading = false;
        match result {
            Ok(page) => {
                let count: usize = page.songs.len();
                self.results = page.songs;
                self.more = page.more;
                self.selected_row = 0;
                if count == 0 {
                    self.set_notice(NoticeKind::Warning, "没有找到歌曲,请尝试其他关键词");
                } else {
                    let text = "第 ".to_owned().concat(
                        text::decimal_text(self.page).as_str(),
                    ).concat(" 页找到 ").concat(text::decimal_text(count as u64).as_str()).concat(
                        " 首歌曲",
                    );
                    self.set_notice(NoticeKind::Success, text.as_str());
                }
            },
            Err(error) => {
                self.results = Vec::new();
                self.more = false;
                let text = "搜索失败:".to_owned().concat(error.as_str());
                self.set_notice(NoticeKind::Error, text.as_str());
                proof {
                    assert(self@.results =~= seq![]);
                }
            },
        }
    }

    /// Moves a download to another stage.
    pub fn reach_stage(&mut self, job_id: u64, state: DownloadState)
        ensures
            final(self)@ == old(self)@.stage_reached(job_id, state@).dated(final(self).notice.changed_at),
    {
        let i: usize = job_index(&self.downloads, job_id);
        if i >= self.downloads.len() {
            return;
        }
        let name = self.downloads[i].song.name.clone();
        let description = match &state {
            DownloadState::Completed(file) => Some(
                (
                    NoticeKind::Success,
                    "<".to_owned().concat(name.as_str()).concat("> 下载完成:").concat(
                        file.path.as_str(),
                    ),
                ),
            ),
            DownloadState::Failed(error) => Some(
                (
                    NoticeKind::Error,
                    "<".to_owned().concat(name.as_str()).concat("> 下载失败:").concat(
                        error.as_str(),
                    ),
                ),
            ),
            _ => None,
        };
        let ghost view = state@;
        self.downloads[i].state = state;
        proof {
            let item = ItemModel { state: view, ..old(self)@.downloads[i as int] };
            assert(self@.downloads =~= old(self)@.downloads.update(i as int, item));
        }
        if let Some((kind, text)) = description {
            self.set_notice(kind, text.as_str());
        }
    }

    /// Records the quality that a download has.
    pub fn resolve_quality(&mut self, job_id: u64, actual_quality: SongQuality)
        ensures
            final(self)@ == old(self)@.resolved(job_id, actual_quality).dated(final(self).notice.changed_at),
    {
        let i: usize = job_index(&self.downloads, job_id);
        if i >= self.downloads.len() {
            return;
        }
        let requested = self.downloads[i].requested_quality;
        self.downloads[i].actual_quality = Some(actual_quality);
        proof {
            let item = ItemModel {
                actual_quality: Some(actual_quality),
                ..old(self)@.downloads[i as int]
            };
            assert(self@.downloads =~= old(self)@.downloads.update(i as int, item));
        }
        if actual_quality != requested {
            let text = "<".to_owned().concat(self.downloads[i].song.name.as_str()).concat(
                "> 请求音质为 ",
            ).concat(App::quality_name(&requested)).concat(",平台实际返回 ").concat(
                App::quality_name(&actual_quality),
            );
            self.set_notice(NoticeKind::Warning, text.as_str());
        }
    }

    /// Records how much of a download has arrived.
    pub fn record_progress(&mut self, job_id: u64, received: u64, total: Option<u64>)
        ensures
            final(self)@ == old(self)@.progressed(job_id, received, total),
    {
        let i: usize = job_index(&self.downloads, job_id);
        if i >= self.downloads.len() {
            return;
        }
        self.downloads[i].received = received;
        self.downloads[i].total = total;
        self.downloads[i].state = DownloadState::Downloading;
        proof {
            let item = ItemModel {
                received,
                total,
                state: app_model::StateModel::Downloading,
                ..old(self)@.downloads[i as int]
            };
            assert(self@.downloads =~= old(self)@.downloads.update(i as int, item));
        }
    }

    /// Takes in how far the code of a login attempt has come.
    fn advance_code(&mut self, request_id: u64, payload: String, step: QrStep) -> (r: Reaction)
        ensures
            final(self)@ == old(self)@.code_advanced(request_id, step@),
            r@ == old(self)@.code_reaction(request_id, payload@, step@),
    {
        if !self.awaits_login(request_id) {
            return Reaction::Nothing;
        }
        match step {
            QrStep::Read { file, bare } => Reaction::ReadCode(
                CodeRequest { request_id, payload, file, bare },
            ),
            QrStep::Done(prepared) => match self.show_qr(request_id, prepared) {
                Some(id) => Reaction::CancelLogin(id),
                None => Reaction::Nothing,
            },
        }
    }

    /// Takes in what was found in a file that was to be read, and says what
    /// is to be done then.
    pub fn finish_reading(&mut self, request: CodeRequest, reading: FileReading) -> (r: Reaction)
        ensures
            final(self)@ == old(self)@.code_advanced(
                request.request_id,
                AppModel::step_after(request@, reading@),
            ),
            r@ == old(self)@.code_reaction(
                request.request_id,
                request.payload@,
                AppModel::step_after(request@, reading@),
            ),
            old(self)@.valid() ==> final(self)@.valid(),
    {
        let step = continue_qr(request.payload.as_str(), request.bare, reading);
        proof {
            if self@.valid() {
                app_laws::law_codes_keep_validity(self@, request.request_id, step@);
            }
        }
        self.advance_code(request.request_id, request.payload, step)
    }

    /// Takes in a message, and says what is to be done then.
    pub fn handle_message(&mut self, message: AppMessage) -> (r: Reaction)
        requires
            old(self)@.can_receive(message@),
        ensures
            final(self)@ == old(self)@.received(message@).dated(final(self).notice.changed_at),
            r@ == old(self)@.reaction(message@),
            old(self)@.valid() ==> final(self)@.valid(),
    {
        proof {
            if self@.valid() {
                app_laws::law_messages_keep_validity(self@, message@);
            }
        }
        self.take_in(message)
    }

    /// Takes in a message.
    fn take_in(&mut self, message: AppMessage) -> (r: Reaction)
        requires
            old(self)@.can_receive(message@),
        ensures
            final(self)@ == old(self)@.received(message@).dated(final(self).notice.changed_at),
            r@ == old(self)@.reaction(message@),
    {
        match message {
            AppMessage::SearchFinished { request_id, result } => {
                self.finish_search(request_id, result);
                Reaction::Nothing
            },
            AppMessage::LoginQr { request_id, payload } => {
                if !self.awaits_login(request_id) {
                    return Reaction::Nothing;
                }
                let step = prepare_qr(payload.as_str());
                self.advance_code(request_id, payload, step)
            },
            AppMessage::LoginPhase { request_id, phase, detail } => {
                self.move_login(request_id, phase, detail);
                Reaction::Nothing
            },
            AppMessage::LoginSuccess { request_id, token } => {
                let platform = token.platform();
                if self.finish_login(request_id, token) {
                    Reaction::Save(SaveReason::Login(platform))
                } else {
                    Reaction::Nothing
                }
            },
            AppMessage::CookieRefreshFinished { platform, cookie_revision, result } => {
                if self.finish_refresh(platform, cookie_revision, result) {
                    Reaction::Save(SaveReason::Refresh(platform))
                } else {
                    Reaction::Nothing
                }
            },
            AppMessage::DownloadStage { job_id, state } => {
                self.reach_stage(job_id, state);
                Reaction::Nothing
            },
            AppMessage::DownloadResolved { job_id, actual_quality } => {
                self.resolve_quality(job_id, actual_quality);
                Reaction::Nothing
            },
            AppMessage::DownloadProgress { job_id, received, total } => {
                self.record_progress(job_id, received, total);
                Reaction::Nothing
            },
        }
    }
}

} // verus!
