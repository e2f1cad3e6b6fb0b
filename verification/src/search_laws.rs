//! What searching, paging and moving through the results is for.

use vstd::prelude::*;

use crate::app::{InputMode, NoticeKind};
use crate::app_model::{AppModel, Message};
use crate::music::{Platform, SongModel};
use crate::text;

verus! {

/// The songs of the last search are shown just as the platform gave them, from
/// the first row on, and whether there are more is what the platform says.
pub proof fn law_results_are_taken_over(app: AppModel, songs: Seq<SongModel>, more: bool)
    requires
        0 <= app.search_request_id <= u64::MAX,
    ensures
        ({
            let after = app.received(
                Message::SearchFinished(app.search_request_id as u64, Ok((songs, more))),
            );
            &&& after.results == songs
            &&& after.more == more
            &&& !after.loading
            &&& after.selected_row == 0
            &&& after == (AppModel {
                results: songs,
                more,
                loading: false,
                selected_row: 0,
                notice: after.notice,
                ..app
            })
            &&& songs.len() == 0 ==> after.notice.kind == NoticeKind::Warning && after.notice.text
                == "没有找到歌曲,请尝试其他关键词"@
            &&& songs.len() > 0 ==> after.notice.kind == NoticeKind::Success && after.notice.text
                == "第 "@ + text::decimal(app.page as nat) + " 页找到 "@ + text::decimal(songs.len())
                + " 首歌曲"@
            &&& after.notice.changed_at is None
        }),
{
}

/// A search that failed leaves no results, and says why.
pub proof fn law_failed_searches_leave_nothing(app: AppModel, error: Seq<char>)
    requires
        0 <= app.search_request_id <= u64::MAX,
    ensures
        ({
            let after = app.received(
                Message::SearchFinished(app.search_request_id as u64, Err(error)),
            );
            &&& after.results.len() == 0
            &&& !after.more
            &&& !after.loading
            &&& after == (AppModel {
                results: after.results,
                more: false,
                loading: false,
                notice: after.notice,
                ..app
            })
            &&& after.notice.kind == NoticeKind::Error
            &&& after.notice.text == "搜索失败:"@ + error
            &&& after.notice.changed_at is None
        }),
{
}

/// Wherever the platform announces more songs, the next page can be asked for:
/// the search goes on for the same words, on the same platform, from where the
/// page before it ends.
pub proof fn law_announced_pages_can_be_reached(app: AppModel, songs: Seq<SongModel>, now: int)
    requires
        app.valid(),
        app.search_request_id < u64::MAX,
        app.page * 20 <= u64::MAX,
        app.query == text::trimmed(app.input),
        app.query.len() > 0,
    ensures
        ({
            let shown = app.received(
                Message::SearchFinished(app.search_request_id as u64, Ok((songs, true))),
            );
            let on = shown.paged_on();
            &&& shown.search_on(now) matches Some(request)
            &&& request.keyword == app.query
            &&& request.platform == app.platform
            &&& request.offset == app.page * 20
            &&& request.limit == 20
            &&& request.request_id == app.search_request_id + 1
            &&& on.page == app.page + 1
            &&& on.loading
            &&& on.search_request_id == app.search_request_id + 1
            &&& on.results == songs
        }),
{
}

/// Where the platform announces no more songs, no next page is asked for.
pub proof fn law_no_page_follows_the_last(app: AppModel, now: int)
    requires
        app.loading || !app.more,
    ensures
        app.search_on(now) is None,
        app.paged_on() == (AppModel { notice: app.paged_on().notice, ..app }),
        app.paged_on().notice.kind == NoticeKind::Info,
        app.paged_on().notice.text == if app.loading {
            "搜索仍在进行,请稍候"@
        } else {
            "已经是最后一页"@
        },
{
}

/// The page before is asked for from where it starts; before the first one, or
/// while a search is under way, there is nothing to ask for.
pub proof fn law_previous_pages_can_be_reached(app: AppModel, now: int)
    requires
        0 <= app.search_request_id < u64::MAX,
        (app.page - 1) * 20 <= u64::MAX,
    ensures
        !app.loading && app.page > 1 && app.query == text::trimmed(app.input) && app.query.len() > 0
            ==> {
            &&& app.search_back(now) matches Some(request)
            &&& request.keyword == app.query
            &&& request.platform == app.platform
            &&& request.offset == (app.page - 2) * 20
            &&& request.limit == 20
            &&& app.paged_back().page == app.page - 1
            &&& app.paged_back().loading
        },
        app.loading || app.page <= 1 ==> {
            &&& app.search_back(now) is None
            &&& app.paged_back() == (AppModel { notice: app.paged_back().notice, ..app })
            &&& app.paged_back().notice.kind == NoticeKind::Info
            &&& app.paged_back().notice.text == if app.loading {
                "搜索仍在进行,请稍候"@
            } else {
                "已经是第一页"@
            }
        },
{
}

/// Other words than those searched for last begin at the first page, the same
/// ones stay at their page; nothing but the search changes. The login that goes
/// along is the stored one of the platform, unless it has expired.
pub proof fn law_searches_are_for_the_input(app: AppModel, now: int)
    requires
        0 <= app.search_request_id < u64::MAX,
        1 <= app.page,
        (app.page - 1) * 20 <= u64::MAX,
        !text::blank(app.input),
    ensures
        ({
            let after = app.searched();
            let page = if text::trimmed(app.input) == app.query {
                app.page
            } else {
                1
            };
            &&& app.search(now) matches Some(request)
            &&& request.keyword == text::trimmed(app.input)
            &&& request.platform == app.platform
            &&& request.request_id == app.search_request_id + 1
            &&& request.offset == (page - 1) * 20
            &&& request.limit == 20
            &&& match app.cookies.stored(app.platform) {
                Some(login) => request.login == match login.expires_at() {
                    Some(expiry) => if now >= expiry {
                        None
                    } else {
                        Some(login)
                    },
                    None => Some(login),
                },
                None => request.login is None,
            }
            &&& after == (AppModel {
                page,
                query: text::trimmed(app.input),
                input: text::trimmed(app.input),
                loading: true,
                input_mode: InputMode::Normal,
                search_request_id: app.search_request_id + 1,
                notice: after.notice,
                ..app
            })
            &&& after.notice.kind == NoticeKind::Info
            &&& after.notice.text == "正在搜索\""@ + text::trimmed(app.input) + "\"第 "@
                + text::decimal(page as nat) + " 页..."@
            &&& after.notice.changed_at is None
        }),
{
    text::lemma_blank_trims_to_nothing(app.input);
}

/// Nothing is searched for where the input is blank; the user is asked to type.
pub proof fn law_blank_input_is_not_searched_for(app: AppModel, now: int)
    requires
        text::blank(app.input),
    ensures
        app.search(now) is None,
        app.searched() == (AppModel {
            input_mode: InputMode::Editing,
            notice: app.searched().notice,
            ..app
        }),
        app.searched().notice.kind == NoticeKind::Warning,
        app.searched().notice.text == "请输入搜索关键词"@,
{
    text::lemma_blank_trims_to_nothing(app.input);
}

/// A switch of the platform leads to the other one and starts over there: no
/// results, the first page. What was searched for is searched for again, with
/// the login of the new platform; marks, downloads and logins stay.
pub proof fn law_switching_starts_over_on_the_other_platform(app: AppModel, now: int)
    requires
        0 <= app.search_request_id < u64::MAX - 1,
    ensures
        ({
            let after = app.toggled();
            let other = match app.platform {
                Platform::Netease => Platform::Tencent,
                Platform::Tencent => Platform::Netease,
            };
            &&& after.platform == other
            &&& after == (AppModel {
                platform: other,
                page: 1,
                selected_row: 0,
                results: seq![],
                more: false,
                loading: after.loading,
                search_request_id: after.search_request_id,
                query: after.query,
                input: after.input,
                input_mode: after.input_mode,
                notice: after.notice,
                ..app
            })
            &&& after.search_request_id > app.search_request_id
            &&& text::blank(app.query) ==> {
                &&& app.toggle_search(now) is None
                &&& !after.loading
                &&& after.query == app.query
                &&& after.input == app.input
                &&& after.input_mode == app.input_mode
                &&& after.notice.text == "已切换到 "@ + other.label()
            }
            &&& !text::blank(app.query) && text::blank(app.input) ==> {
                &&& app.toggle_search(now) is None
                &&& !after.loading
            }
            &&& !text::blank(app.query) && !text::blank(app.input) ==> {
                &&& app.toggle_search(now) matches Some(request)
                &&& request.platform == other
                &&& request.keyword == text::trimmed(app.input)
                &&& request.offset == 0
                &&& request.limit == 20
                &&& request.request_id == after.search_request_id
                &&& after.loading
                &&& match app.cookies.stored(other) {
                    Some(login) => request.login == match login.expires_at() {
                        Some(expiry) => if now >= expiry {
                            None
                        } else {
                            Some(login)
                        },
                        None => Some(login),
                    },
                    None => request.login is None,
                }
            }
        }),
{
    text::lemma_blank_trims_to_nothing(app.input);
}

/// The selection moves by one row, and stops at the first and the last.
pub proof fn law_selection_moves_by_one_row(app: AppModel)
    requires
        0 <= app.selected_row,
    ensures
        app.selected_up() == (AppModel { selected_row: app.selected_up().selected_row, ..app }),
        app.selected_down() == (AppModel { selected_row: app.selected_down().selected_row, ..app }),
        app.results.len() > 0 && app.selected_row > 0 ==> app.selected_up().selected_row
            == app.selected_row - 1,
        app.results.len() == 0 || app.selected_row == 0 ==> app.selected_up() == app,
        app.selected_row + 1 < app.results.len() ==> app.selected_down().selected_row
            == app.selected_row + 1,
        app.results.len() > 0 && app.selected_row + 1 >= app.results.len()
            ==> app.selected_down().selected_row == app.results.len() - 1,
        app.results.len() == 0 ==> app.selected_down() == app,
{
}

/// Going to another quality changes the quality, and says so.
pub proof fn law_cycling_changes_only_the_quality(app: AppModel)
    ensures
        ({
            let after = app.quality_cycled();
            &&& after == (AppModel { quality: after.quality, notice: after.notice, ..app })
            &&& after.quality == app.quality.next()
            &&& after.notice.kind == NoticeKind::Info
            &&& after.notice.text == "下载音质已切换为 "@ + after.quality.label()
        }),
{
}

/// Going to another page is a search as if one were there already, and a switch
/// of the platform is one as if nothing had been searched for on it.
pub proof fn law_paging_is_searching(app: AppModel, now: int)
    ensures
        !app.loading && app.more ==> {
            &&& app.paged_on() == (AppModel { page: app.page + 1, ..app }).searched()
            &&& app.search_on(now) == (AppModel { page: app.page + 1, ..app }).search(now)
        },
        !app.loading && app.page > 1 ==> {
            &&& app.paged_back() == (AppModel { page: app.page - 1, ..app }).searched()
            &&& app.search_back(now) == (AppModel { page: app.page - 1, ..app }).search(now)
        },
        !text::blank(app.query) ==> {
            let there = AppModel {
                platform: match app.platform {
                    Platform::Netease => Platform::Tencent,
                    Platform::Tencent => Platform::Netease,
                },
                search_request_id: app.search_request_id + 1,
                loading: false,
                page: 1,
                selected_row: 0,
                results: seq![],
                more: false,
                notice: app.switched().notice,
                ..app
            };
            &&& app.toggled() == there.searched()
            &&& app.toggle_search(now) == there.search(now)
        },
{
}

} // verus!
