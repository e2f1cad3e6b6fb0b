//! What is on the screen.

use vstd::prelude::*;

use crate::app::{InputMode, LoginPhase, NoticeKind};
use crate::app_model::{AppModel, ItemModel, OverlayModel, StateModel};
use crate::download;
use crate::layout;
use crate::layout::{Area, LoginLayout, Screen};
use crate::music::Platform;
use crate::queue_laws;
use crate::sizes;
use crate::text;
use crate::ui;
use crate::ui::{Look, Tone};

verus! {

/// A login goes before everything; otherwise the main view is shown wherever
/// there are 58 columns and 18 rows for it.
pub proof fn law_logins_go_first(login: bool, area: Area)
    ensures
        layout::screen_of(true, area) == Screen::Login,
        area.width >= 58 && area.height >= 18 ==> layout::screen_of(false, area) == Screen::Main,
        area.width < 58 || area.height < 18 ==> layout::screen_of(false, area) == Screen::TooSmall,
{
}

/// A popup is as large as it is wanted where there is room for it, and else as
/// large as there is room, but for a column or a row on each side.
pub proof fn law_popups_are_as_large_as_wanted(area: Area, width: int, height: int)
    requires
        0 <= width <= u16::MAX,
        0 <= height <= u16::MAX,
    ensures
        1 <= width <= area.width - 2 ==> layout::popup(area, width, height).width == width,
        1 <= height <= area.height - 2 ==> layout::popup(area, width, height).height == height,
        area.width >= 3 && width > area.width - 2 ==> layout::popup(area, width, height).width
            == area.width - 2,
        area.height >= 3 && height > area.height - 2 ==> layout::popup(area, width, height).height
            == area.height - 2,
{
}

/// The greatest width of lines is that of one of them, and no other is wider.
pub proof fn law_widest_line_is_the_widest(lines: Seq<Seq<char>>)
    requires
        forall|i: int| 0 <= i < lines.len() ==> (#[trigger] lines[i]).len() <= u16::MAX,
    ensures
        forall|i: int| 0 <= i < lines.len() ==> (#[trigger] lines[i]).len() <= layout::widest(
            lines,
        ),
        lines.len() == 0 ==> layout::widest(lines) == 0,
        lines.len() > 0 ==> exists|i: int|
            0 <= i < lines.len() && (#[trigger] lines[i]).len() == layout::widest(lines),
    decreases lines.len(),
{
    if lines.len() > 0 {
        let rest = lines.drop_last();
        assert forall|i: int| 0 <= i < rest.len() implies (#[trigger] rest[i]).len()
            <= u16::MAX by {
            assert(rest[i] == lines[i]);
        }
        law_widest_line_is_the_widest(rest);
        assert(lines[lines.len() - 1].len() <= u16::MAX);
        assert forall|i: int| 0 <= i < lines.len() implies (#[trigger] lines[i]).len()
            <= layout::widest(lines) by {
            if i < rest.len() {
                assert(rest[i] == lines[i]);
            }
        }
        if layout::widest(lines) == lines.last().len() {
            assert(lines[lines.len() - 1].len() == layout::widest(lines));
        } else {
            let i = choose|i: int|
                0 <= i < rest.len() && (#[trigger] rest[i]).len() == layout::widest(rest);
            assert(lines[i].len() == layout::widest(lines));
        }
    }
}

/// A code that fits is shown: in a frame if there is room for that, and alone
/// while its scan is waited for, in the middle of the screen.
pub proof fn law_codes_that_fit_are_shown(overlay: OverlayModel, area: Area)
    requires
        area.wf(),
        forall|i: int|
            0 <= i < overlay.qr_lines.len() ==> (#[trigger] overlay.qr_lines[i]).len() <= 60000,
        overlay.qr_lines.len() <= 60000,
    ensures
        ({
            let width = layout::widest(overlay.qr_lines);
            let height = overlay.qr_lines.len() as int;
            let framed = width + 4 <= area.width && height + 10 <= area.height;
            let alone = width <= area.width && height <= area.height && overlay.phase
                == LoginPhase::WaitingScan && height > 0;
            &&& framed ==> layout::login_layout_of(overlay, area) == LoginLayout::WithCode(
                layout::popup(
                    area,
                    if width + 2 > 68 {
                        width + 2
                    } else {
                        68
                    },
                    if height + 8 > 11 {
                        height + 8
                    } else {
                        11
                    },
                ),
            )
            &&& !framed && alone ==> {
                &&& layout::login_layout_of(overlay, area) matches LoginLayout::Compact(shown)
                &&& shown.width == width
                &&& shown.height == height
                &&& 0 <= (area.x + area.width - shown.x - shown.width) - (shown.x - area.x) <= 1
                &&& 0 <= (area.y + area.height - shown.y - shown.height) - (shown.y - area.y) <= 1
            }
            &&& !framed && !alone ==> layout::login_layout_of(overlay, area)
                == LoginLayout::WithoutCode(layout::popup(area, 68, 12))
        }),
{
    assert forall|i: int| 0 <= i < overlay.qr_lines.len() implies (
    #[trigger] overlay.qr_lines[i]).len() <= u16::MAX by {
        assert(overlay.qr_lines[i].len() <= 60000);
    }
    law_widest_line_is_the_widest(overlay.qr_lines);
    if overlay.qr_lines.len() > 0 {
        let i = choose|i: int|
            0 <= i < overlay.qr_lines.len() && (#[trigger] overlay.qr_lines[i]).len()
                == layout::widest(overlay.qr_lines);
        assert(overlay.qr_lines[i].len() <= 60000);
    }
}

/// Where a code is shown, all its lines are, one after the other, black on
/// white; a window also has the detail above them and a hint below. Where a code
/// is not shown that is said instead.
pub proof fn law_windows_show_all_lines(overlay: OverlayModel, area: Area, i: int)
    requires
        0 <= i < overlay.qr_lines.len(),
    ensures
        ({
            let n = overlay.qr_lines.len() as int;
            let alone = ui::login_pieces(overlay, LoginLayout::Compact(area));
            let with = ui::login_pieces(overlay, LoginLayout::WithCode(area));
            let without = ui::login_pieces(overlay, LoginLayout::WithoutCode(area));
            &&& alone.len() == n
            &&& alone[i].text == overlay.qr_lines[i]
            &&& alone[i].look == Look::Code
            &&& with.len() == n + 4
            &&& with[0].text == overlay.detail
            &&& with[i + 2].text == overlay.qr_lines[i]
            &&& with[i + 2].look == Look::Code
            &&& with[n + 3].text == "Esc 关闭 - Ctrl+L 重新生成"@
            &&& without.len() == 6
            &&& without[0].text == overlay.detail
            &&& without[2].text
                == "当前终端不足以完整显示二维码,请放大终端窗口后重试."@
            &&& without[3].text == "为保证可扫描,不会显示残缺或缩放后的二维码."@
            &&& without[5].text == "Esc 关闭 - Ctrl+L 重新生成"@
        }),
{
}

/// A window without a code has the detail, coloured by the phase, and the hint.
pub proof fn law_windows_show_the_detail(overlay: OverlayModel, area: Area)
    requires
        overlay.qr_lines.len() == 0,
    ensures
        ({
            let with = ui::login_pieces(overlay, LoginLayout::WithCode(area));
            let without = ui::login_pieces(overlay, LoginLayout::WithoutCode(area));
            &&& with.len() == 4
            &&& without =~= with
            &&& with[0].text == overlay.detail
            &&& with[0].look == match overlay.phase {
                LoginPhase::Creating => Look::Toned(Tone::Accent),
                LoginPhase::WaitingScan => Look::Toned(Tone::Accent),
                LoginPhase::WaitingConfirm => Look::Bold(Tone::Success),
                LoginPhase::Expired => Look::Toned(Tone::Warning),
                LoginPhase::Failed => Look::Toned(Tone::Error),
            }
            &&& with[3].text == "Esc 关闭 - Ctrl+L 重新生成"@
        }),
{
}

/// A row of the results shows the song: its number on all pages, its name, its
/// artists and its album, and whether it is marked.
pub proof fn law_result_rows_show_the_song(app: AppModel, i: int)
    requires
        0 <= i < app.results.len(),
        app.page >= 1,
    ensures
        ({
            let song = app.results[i];
            let row = app.result_row(i);
            let key = queue_laws::spelled(app.platform, song.id);
            &&& row.name == song.name
            &&& row.artists == download::artist_list(song)
            &&& row.album == song.album.name
            &&& row.number == text::decimal(((app.page - 1) * 20 + i + 1) as nat)
            &&& row.mark == if exists|j: int|
                0 <= j < app.marked.len() && (#[trigger] app.marked[j]).key() == key {
                "*"@
            } else {
                " "@
            }
        }),
{
}

/// The title of the results says which page they are, up to which number they
/// go, and whether there are more.
pub proof fn law_results_say_where_they_are(app: AppModel)
    requires
        app.page >= 1,
    ensures
        app.results_title() == " 搜索结果 - 第 "@ + text::decimal(app.page as nat)
            + " 页 - 至 "@ + text::decimal(
            if app.results.len() == 0 {
                0
            } else {
                ((app.page - 1) * 20 + app.results.len()) as nat
            },
        ) + (if app.more {
            " - 还有下一页"@
        } else {
            " - 已到末页"@
        }) + " "@,
{
}

/// The last four downloads are shown, the newest first.
pub proof fn law_last_downloads_are_shown(downloads: Seq<ItemModel>)
    ensures
        ui::rows_of(downloads).len() == if downloads.len() < 4 {
            downloads.len() as int
        } else {
            4
        },
        forall|i: int|
            0 <= i < ui::rows_of(downloads).len() ==> #[trigger] ui::rows_of(downloads)[i]
                == ui::row_of(downloads[downloads.len() - 1 - i]),
{
}

/// The row of a download shows its song, its platform, how far it has come, and
/// in which quality; of a failure it shows why.
pub proof fn law_download_rows_show_the_state(item: ItemModel)
    ensures
        ({
            let row = ui::row_of(item);
            let quality = match item.actual_quality {
                Some(quality) => quality.label(),
                None => item.requested_quality.label(),
            };
            &&& row.title == "["@ + (match item.platform {
                Platform::Netease => "网"@,
                Platform::Tencent => "Q"@,
            }) + "] "@ + item.song.name
            &&& row.progress == ui::progress_of(item)
            &&& match item.state {
                StateModel::Queued => row.icon == "."@ && row.tone == Tone::Muted && row.status
                    == "等待并发槽位 - 请求"@ + quality,
                StateModel::Resolving => row.icon == ">"@ && row.tone == Tone::Warning && row.status
                    == "正在获取播放链接 - 请求"@ + quality,
                StateModel::Downloading => row.icon == "v"@ && row.tone == Tone::Accent
                    && row.status == "正在下载 - 实际"@ + quality,
                StateModel::Completed(_, Some(name)) => row.icon == "*"@ && row.tone
                    == Tone::Success && row.status == "完成 - "@ + quality + " - "@ + name,
                StateModel::Completed(_, None) => row.icon == "*"@ && row.tone == Tone::Success
                    && row.status == "完成 - "@ + quality + " - "@ + "文件"@,
                StateModel::Failed(error) => row.icon == "!"@ && row.tone == Tone::Error
                    && row.status == "失败 - "@ + error,
            }
        }),
{
}

/// How much has arrived is shown, with its share of the size where that is
/// known: in whole percent, rounded down, and never above a hundred.
pub proof fn law_progress_is_shown(item: ItemModel, total: u64)
    ensures
        item.total == Some(total) && total > 0 && item.received * 100 <= u64::MAX ==> {
            &&& ui::progress_of(item) == ui::padded(ui::percent(item.received as nat, total as nat))
                + "% "@ + sizes::bytes_text(item.received as nat)
            &&& item.received <= total ==> ui::percent(item.received as nat, total as nat)
                == item.received as int * 100 / total as int
            &&& item.received >= total ==> ui::percent(item.received as nat, total as nat) == 100
        },
        item.total is None || item.total == Some(0u64) ==> ui::progress_of(item) == if item.received
            > 0 {
            sizes::bytes_text(item.received as nat)
        } else {
            "-"@
        },
{
    if total > 0 && item.received * 100 <= u64::MAX {
        let r = item.received as int;
        let t = total as int;
        if r <= t {
            assert(r * 100 / t <= 100) by (nonlinear_arith)
                requires
                    0 <= r <= t,
                    t > 0,
            ;
        }
        if r >= t {
            assert(r * 100 / t >= 100) by (nonlinear_arith)
                requires
                    r >= t,
                    t > 0,
            ;
        }
    }
}

/// Shares stand in three columns.
pub proof fn law_shares_stand_in_three_columns(n: nat)
    ensures
        n < 10 ==> ui::padded(n) == seq![' ', ' '] + text::decimal(n),
        10 <= n < 100 ==> ui::padded(n) == seq![' '] + text::decimal(n),
        n >= 100 ==> ui::padded(n) == text::decimal(n),
{
    reveal_strlit("  ");
    reveal_strlit(" ");
    assert("  "@ =~= seq![' ', ' ']);
    assert(" "@ =~= seq![' ']);
}

/// The header shows the platform, both logins, the quality and how many songs
/// are marked.
pub proof fn law_header_shows_the_choices(app: AppModel, now: int)
    ensures
        ({
            let line = app.header(now);
            let tone = |state: Seq<char>|
                if state == "已登录"@ {
                    Tone::Success
                } else if state == "登录已过期"@ || state == "登录待确认"@ {
                    Tone::Warning
                } else {
                    Tone::Muted
                };
            &&& line.len() == 10
            &&& line[0].text == " dqn "@ && line[0].look == Look::Badge
            &&& line[1].text == "  平台 "@ && line[1].look == Look::Plain
            &&& line[2].text == app.platform.label() && line[2].look == Look::Bold(Tone::Accent)
            &&& line[3].text == "  登录 网:"@ && line[3].look == Look::Plain
            &&& line[5].text == " Q:"@ && line[5].look == Look::Plain
            &&& line[7].text == "  音质 "@ && line[7].look == Look::Plain
            &&& line[8].look == Look::Toned(Tone::Warning)
            &&& line[9].look == Look::Plain
            &&& line[4].text == app.login_text(Platform::Netease, now)
            &&& line[4].look == Look::Toned(tone(line[4].text))
            &&& line[6].text == app.login_text(Platform::Tencent, now)
            &&& line[6].look == Look::Toned(tone(line[6].text))
            &&& line[8].text == app.quality.label()
            &&& line[9].text == "  已选 "@ + text::decimal(app.marked.len()) + " 首"@
        }),
{
}

/// The search box shows the input, and that a search is under way.
pub proof fn law_search_box_shows_the_input(app: AppModel, milliseconds: nat)
    ensures
        ({
            let line = app.search_line(milliseconds);
            &&& line.len() == 3
            &&& line[0].text == "> "@ && line[0].look == line[1].look
            &&& line[1].text == app.input
            &&& line[2].look == Look::Toned(Tone::Warning)
            &&& line[1].look == if app.input_mode == InputMode::Editing {
                Look::Bold(Tone::Accent)
            } else {
                Look::Toned(Tone::Muted)
            }
            &&& !app.loading ==> line[2].text.len() == 0
            &&& app.loading ==> line[2].text == "  "@ + ui::frame_of(milliseconds)
                + " 搜索中..."@
        }),
{
}

/// The spinner turns: each of its four frames is shown for 150 milliseconds.
pub proof fn law_spinner_turns(milliseconds: nat)
    ensures
        ui::frame_of(milliseconds + 600) == ui::frame_of(milliseconds),
        milliseconds < 150 ==> ui::frame_of(milliseconds) == "|"@,
        150 <= milliseconds < 300 ==> ui::frame_of(milliseconds) == "/"@,
        300 <= milliseconds < 450 ==> ui::frame_of(milliseconds) == "-"@,
        450 <= milliseconds < 600 ==> ui::frame_of(milliseconds) == "\\"@,
{
}

/// The notice is shown, in the colour of its kind for fifteen seconds, and
/// greyed from then on; above it stand the shortcuts and all warnings.
pub proof fn law_footer_shows_the_notice(app: AppModel, now: int, age: int)
    ensures
        ({
            let lines = app.footer(now, age);
            let last = lines.last();
            &&& lines.len() == app.warnings(now).len() + 2
            &&& last.len() == 2
            &&& last[0].text == "提示:"@ && last[0].look == Look::Toned(Tone::Muted)
            &&& last[1].text == app.notice.text
            &&& last[1].look == Look::Toned(
                if age > 15 {
                    Tone::Muted
                } else {
                    match app.notice.kind {
                        NoticeKind::Info => Tone::Accent,
                        NoticeKind::Success => Tone::Success,
                        NoticeKind::Warning => Tone::Warning,
                        NoticeKind::Error => Tone::Error,
                    }
                },
            )
        }),
{
}

/// Sizes below 1024 bytes are exact; larger ones are given in the unit that
/// leaves at least one, to the nearest tenth.
pub proof fn law_sizes_are_given_in_fitting_units(n: nat)
    requires
        n < sizes::DOUBLE_LIMIT,
    ensures
        n < 1024 ==> sizes::bytes_text(n) == text::decimal(n) + " B"@,
        1024 <= n < 1024 * 1024 ==> sizes::bytes_text(n) == sizes::tenths(
            sizes::nearest(n * 10, 1024),
        ) + " "@ + "KiB"@,
        1024 * 1024 <= n < 1024 * 1024 * 1024 ==> sizes::bytes_text(n) == sizes::tenths(
            sizes::nearest(n * 10, 1024 * 1024),
        ) + " "@ + "MiB"@,
        n >= 1024 * 1024 * 1024 ==> sizes::bytes_text(n) == sizes::tenths(
            sizes::nearest(n * 10, 1024 * 1024 * 1024),
        ) + " "@ + "GiB"@,
{
}

/// Rounding goes to the nearest number, and from the middle to the even one.
pub proof fn law_rounding_goes_to_the_nearest(n: nat, d: nat)
    requires
        d > 0,
    ensures
        2 * n <= 2 * d * sizes::nearest(n, d) + d,
        2 * d * sizes::nearest(n, d) <= 2 * n + d,
        2 * n == 2 * d * sizes::nearest(n, d) + d ==> sizes::nearest(n, d) % 2 == 0,
        2 * d * sizes::nearest(n, d) == 2 * n + d ==> sizes::nearest(n, d) % 2 == 0,
{
    let q = n as int / d as int;
    let r = n as int % d as int;
    vstd::arithmetic::div_mod::lemma_fundamental_div_mod(n as int, d as int);
    assert(2 * d * q == 2 * (d * q)) by (nonlinear_arith);
    assert(2 * d * (q + 1) == 2 * (d * q) + 2 * d) by (nonlinear_arith);
}

/// Tenths are written with one digit behind the point.
pub proof fn law_tenths_have_one_digit(n: nat)
    ensures
        sizes::tenths(n) == text::decimal(n / 10) + seq!['.'] + text::decimal(n % 10),
{
    reveal_strlit(".");
    assert("."@ =~= seq!['.']);
}

/// The titles say what they stand above, and the selected row is shown wherever
/// there are rows.
pub proof fn law_titles_say_what_is_shown(app: AppModel)
    ensures
        app.downloads_title() == " 下载任务 "@ + text::decimal(app.downloads.len())
            + " - 保存到 "@ + app.paths.download_dir + " "@,
        app.login_title() == " "@ + app.platform.label() + " 扫码登录 "@,
        app.search_title() == if app.input_mode == InputMode::Editing {
            " 搜索(输入后 Enter,Esc 取消) "@
        } else {
            " 搜索(直接输入文字即可修改) "@
        },
        app.results.len() > 0 ==> app.shown_selection() == Some(app.selected_row),
        app.results.len() == 0 ==> app.shown_selection() is None,
{
}

/// The help names every key that it is for.
pub proof fn law_help_names_the_keys()
    ensures
        ui::help_of().len() == 17,
        ui::help_of()[0].text == "dqn 操作帮助"@,
        ui::help_of()[2].text == "普通文字键     直接编辑搜索词;Enter 搜索;Esc 取消编辑"@,
        ui::help_of()[3].text == "Backspace/Del  修改或清空搜索词;Ctrl+U 也可清空"@,
        ui::help_of()[4].text == "Up/Down        移动当前行"@,
        ui::help_of()[5].text == "Insert         选择/取消当前歌曲"@,
        ui::help_of()[6].text == "Ctrl+A         选择/取消当前页全部歌曲"@,
        ui::help_of()[7].text == "Left/Right     上一页/下一页;Ctrl+R 刷新当前页"@,
        ui::help_of()[8].text == "Ctrl+P / Tab   在网易云音乐与 QQ 音乐间切换"@,
        ui::help_of()[9].text == "Ctrl+T / Ctrl+X 循环切换下载音质"@,
        ui::help_of()[10].text == "Ctrl+D         下载已选歌曲;未多选时下载当前行"@,
        ui::help_of()[11].text == "F8             清理完成和失败的下载记录"@,
        ui::help_of()[12].text == "Ctrl+L         为当前平台扫码登录"@,
        ui::help_of()[13].text == "Ctrl+Q         安全退出;Ctrl+C 强制退出"@,
        ui::help_of()[15].text
            == "下载最多 3 路并发;受版权或会员限制的歌曲可能无可用链接."@,
        ui::help_of()[16].text == "按 Esc / F1 / Ctrl+H 关闭帮助"@,
{
}

/// Shares of numbers whose hundredfold cannot be represented are taken of the
/// largest number that can.
pub proof fn law_huge_shares_are_capped(received: nat, total: nat)
    requires
        total > 0,
        received * 100 > u64::MAX,
    ensures
        ui::percent(received, total) == if u64::MAX as int / total as int >= 100 {
            100
        } else {
            u64::MAX as int / total as int
        },
{
    assert(0 <= u64::MAX as int / total as int) by (nonlinear_arith)
        requires
            total > 0,
    ;
}

/// Lengths count as they are up to 65535, and start over after that.
pub proof fn law_lengths_start_over(n: nat)
    ensures
        n <= u16::MAX ==> layout::low(n) == n,
        layout::low(n + 65536) == layout::low(n),
{
}

} // verus!
