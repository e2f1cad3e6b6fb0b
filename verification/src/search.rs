//! Searching, paging and moving through the results.

use vstd::prelude::*;

use crate::app::{App, InputMode, NoticeKind, SearchRequest, PAGE_SIZE};
use crate::model;
use crate::music::{Platform, SongQuality};
use crate::storage::unix_now;
use crate::text;

verus! {

impl App {
    /// What a platform is called.
    pub fn platform_label(platform: Platform) -> (r: &'static str)
        ensures
            r@ == platform.label(),
    {
        match platform {
            Platform::Netease => "网易云音乐",
            Platform::Tencent => "QQ 音乐",
        }
    }

    /// What the selected quality is called.
    pub fn quality_label(&self) -> (r: &'static str)
        ensures
            r@ == self@.quality.label(),
    {
        App::quality_name(&self.quality)
    }

    /// What a quality is called.
    pub fn quality_name(quality: &SongQuality) -> (r: &'static str)
        ensures
            r@ == quality.label(),
    {
        match quality {
            SongQuality::Master => "母带",
            SongQuality::Surround => "环绕声",
            SongQuality::Stereo => "立体声",
            SongQuality::Hires => "Hi-Res",
            SongQuality::Lossless => "无损",
            SongQuality::Exhigh => "极高",
            SongQuality::Standard => "标准",
        }
    }

    /// Selects the next quality.
    pub fn cycle_quality(&mut self)
        ensures
            final(self)@ == old(self)@.quality_cycled().dated(final(self).notice.changed_at),
    {
        self.quality =
        match self.quality {
            SongQuality::Standard => SongQuality::Exhigh,
            SongQuality::Exhigh => SongQuality::Lossless,
            SongQuality::Lossless => SongQuality::Hires,
            SongQuality::Hires => SongQuality::Stereo,
            SongQuality::Stereo => SongQuality::Surround,
            SongQuality::Surround => SongQuality::Master,
            SongQuality::Master => SongQuality::Standard,
        };
        let text = "下载音质已切换为 ".to_owned().concat(self.quality_label());
        self.set_notice(NoticeKind::Info, text.as_str());
    }

    /// Starts a search for the input, with the login that can be used at the
    /// given time.
    pub fn submit_search_at(&mut self, now: i64) -> (r: Option<SearchRequest>)
        requires
            old(self)@.can_search(),
        ensures
            final(self)@ == old(self)@.searched().dated(final(self).notice.changed_at),
            model::view_of(r) == old(self)@.search(now as int),
    {
        let keyword = text::trim(self.input.as_str());
        if keyword.as_str().unicode_len() == 0 {
            self.set_notice(NoticeKind::Warning, "请输入搜索关键词");
            self.input_mode = InputMode::Editing;
            return None;
        }
        if !text::same(keyword.as_str(), self.query.as_str()) {
            self.page = 1;
        }
        self.query = keyword.clone();
        self.input = keyword.clone();
        self.loading = true;
        self.input_mode = InputMode::Normal;
        self.search_request_id = self.search_request_id + 1;
        let request_id: u64 = self.search_request_id;
        let platform = self.platform;
        let offset: u64 = (self.page - 1) * PAGE_SIZE;
        let token = self.cookies.token_for_at(platform, now);
        let page = text::decimal_text(self.page);
        let text = "正在搜索\"".to_owned().concat(keyword.as_str()).concat("\"第 ").concat(
            page.as_str(),
        ).concat(" 页...");
        self.set_notice(NoticeKind::Info, text.as_str());
        Some(SearchRequest { request_id, keyword, platform, offset, limit: PAGE_SIZE, token })
    }

    /// Starts a search for the input.
    pub fn submit_search(&mut self) -> (r: Option<SearchRequest>)
        requires
            old(self)@.can_search(),
        ensures
            final(self)@ == old(self)@.searched().dated(final(self).notice.changed_at),
            exists|now: i64|
                now >= 0 && model::view_of(r) == #[trigger] old(self)@.search(now as int),
    {
        self.submit_search_at(unix_now())
    }

    /// Switches to the other platform and searches there, unless nothing was
    /// searched for before.
    pub fn toggle_platform_at(&mut self, now: i64) -> (r: Option<SearchRequest>)
        requires
            old(self)@.can_toggle(),
        ensures
            final(self)@ == old(self)@.toggled().dated(final(self).notice.changed_at),
            model::view_of(r) == old(self)@.toggle_search(now as int),
    {
        self.search_request_id = self.search_request_id + 1;
        self.loading = false;
        self.platform =
        match self.platform {
            Platform::Netease => Platform::Tencent,
            Platform::Tencent => Platform::Netease,
        };
        self.page = 1;
        self.selected_row = 0;
        self.results = Vec::new();
        self.more = false;
        let text = "已切换到 ".to_owned().concat(App::platform_label(self.platform));
        self.set_notice(NoticeKind::Info, text.as_str());
        proof {
            assert(self@.results =~= old(self)@.switched().results);
            assert(self@ == old(self)@.switched().dated(self.notice.changed_at));
        }
        if text::is_blank(self.query.as_str()) {
            None
        } else {
            self.submit_search_at(now)
        }
    }

    /// Switches to the other platform and searches there, unless nothing was
    /// searched for before.
    pub fn toggle_platform(&mut self) -> (r: Option<SearchRequest>)
        requires
            old(self)@.can_toggle(),
        ensures
            final(self)@ == old(self)@.toggled().dated(final(self).notice.changed_at),
            exists|now: i64|
                now >= 0 && model::view_of(r) == #[trigger] old(self)@.toggle_search(now as int),
    {
        self.toggle_platform_at(unix_now())
    }

    /// Goes back one page.
    pub fn previous_page_at(&mut self, now: i64) -> (r: Option<SearchRequest>)
        requires
            old(self)@.can_page_back(),
        ensures
            final(self)@ == old(self)@.paged_back().dated(final(self).notice.changed_at),
            model::view_of(r) == old(self)@.search_back(now as int),
    {
        if self.loading {
            self.set_notice(NoticeKind::Info, "搜索仍在进行,请稍候");
            None
        } else if self.page > 1 {
            self.page = self.page - 1;
            self.submit_search_at(now)
        } else {
            self.set_notice(NoticeKind::Info, "已经是第一页");
            None
        }
    }

    /// Goes back one page.
    pub fn previous_page(&mut self) -> (r: Option<SearchRequest>)
        requires
            old(self)@.can_page_back(),
        ensures
            final(self)@ == old(self)@.paged_back().dated(final(self).notice.changed_at),
            exists|now: i64|
                now >= 0 && model::view_of(r) == #[trigger] old(self)@.search_back(now as int),
    {
        self.previous_page_at(unix_now())
    }

    /// Goes on one page.
    pub fn next_page_at(&mut self, now: i64) -> (r: Option<SearchRequest>)
        requires
            old(self)@.can_page_on(),
        ensures
            final(self)@ == old(self)@.paged_on().dated(final(self).notice.changed_at),
            model::view_of(r) == old(self)@.search_on(now as int),
    {
        if self.loading {
            self.set_notice(NoticeKind::Info, "搜索仍在进行,请稍候");
            None
        } else if self.more {
            self.page = self.page + 1;
            self.submit_search_at(now)
        } else {
            self.set_notice(NoticeKind::Info, "已经是最后一页");
            None
        }
    }

    /// Goes on one page.
    pub fn next_page(&mut self) -> (r: Option<SearchRequest>)
        requires
            old(self)@.can_page_on(),
        ensures
            final(self)@ == old(self)@.paged_on().dated(final(self).notice.changed_at),
            exists|now: i64|
                now >= 0 && model::view_of(r) == #[trigger] old(self)@.search_on(now as int),
    {
        self.next_page_at(unix_now())
    }

    /// Selects the row above.
    pub fn select_previous(&mut self)
        ensures
            final(self)@ == old(self)@.selected_up(),
    {
        if self.results.len() == 0 {
            return;
        }
        self.selected_row = self.selected_row.saturating_sub(1);
    }

    /// Selects the row below.
    pub fn select_next(&mut self)
        requires
            old(self)@.results.len() > 0 ==> old(self)@.selected_row < usize::MAX,
        ensures
            final(self)@ == old(self)@.selected_down(),
    {
        if self.results.len() == 0 {
            return;
        }
        let last: usize = self.results.len() - 1;
        let below: usize = self.selected_row + 1;
        self.selected_row = if below < last {
            below
        } else {
            last
        };
    }
}

} // verus!
