//! Where things go on the screen.

use vstd::prelude::*;

use crate::app::{App, LoginOverlay, LoginPhase};
use crate::app_model::OverlayModel;
use crate::model;

verus! {

/// The least width of the main view.
pub const MIN_WIDTH: u16 = 58;

/// The least height of the main view.
pub const MIN_HEIGHT: u16 = 18;

/// A part of the screen.
#[derive(Clone, Copy, Debug, PartialEq, Eq, Structural)]
pub struct Area {
    pub x: u16,
    pub y: u16,
    pub width: u16,
    pub height: u16,
}

impl Area {
    /// Whether all positions in the area can be represented.
    pub open spec fn wf(self) -> bool {
        &&& self.x + self.width <= u16::MAX
        &&& self.y + self.height <= u16::MAX
    }

    /// Whether the area lies in another one.
    pub open spec fn inside(self, outer: Area) -> bool {
        &&& outer.x <= self.x
        &&& outer.y <= self.y
        &&& self.x + self.width <= outer.x + outer.width
        &&& self.y + self.height <= outer.y + outer.height
    }
}

/// The smaller number.
pub open spec fn at_most(a: int, b: int) -> int {
    if a <= b {
        a
    } else {
        b
    }
}

/// The larger number.
pub open spec fn at_least(a: int, b: int) -> int {
    if a >= b {
        a
    } else {
        b
    }
}

/// The length of a popup that should have the given one, with room around it.
pub open spec fn popup_length(wanted: int, available: int) -> int {
    at_least(at_most(wanted, at_least(available - 2, 0)), 1)
}

/// Where something starts so that as much room is before it as behind.
pub open spec fn middle(start: int, available: int, length: int) -> int {
    start + at_least(available - length, 0) / 2
}

/// The popup of the given size in the middle of an area.
pub open spec fn popup(area: Area, width: int, height: int) -> Area {
    let w = popup_length(width, area.width as int);
    let h = popup_length(height, area.height as int);
    Area {
        x: middle(area.x as int, area.width as int, w) as u16,
        y: middle(area.y as int, area.height as int, h) as u16,
        width: w as u16,
        height: h as u16,
    }
}

/// The popup of the given size in the middle of an area.
pub fn centered(area: Area, width: u16, height: u16) -> (r: Area)
    requires
        area.wf(),
    ensures
        r == popup(area, width as int, height as int),
{
    let w: u16 = popup_side(width, area.width);
    let h: u16 = popup_side(height, area.height);
    Area {
        x: area.x + area.width.saturating_sub(w) / 2,
        y: area.y + area.height.saturating_sub(h) / 2,
        width: w,
        height: h,
    }
}

/// The length of a popup that should have the given one.
fn popup_side(wanted: u16, available: u16) -> (r: u16)
    ensures
        r == popup_length(wanted as int, available as int),
        r >= 1,
{
    let room: u16 = available.saturating_sub(2);
    let length: u16 = if wanted < room {
        wanted
    } else {
        room
    };
    if length < 1 {
        1
    } else {
        length
    }
}

/// A popup lies within any area that is not empty, and as far from one side
/// as from the other.
pub proof fn law_popups_stay_inside(area: Area, width: u16, height: u16)
    requires
        area.wf(),
        area.width > 0,
        area.height > 0,
    ensures
        ({
            let p = popup(area, width as int, height as int);
            let left = p.x - area.x;
            let right = area.x + area.width - p.x - p.width;
            let above = p.y - area.y;
            let below = area.y + area.height - p.y - p.height;
            &&& p.inside(area)
            &&& 0 <= right - left <= 1
            &&& 0 <= below - above <= 1
            &&& p.width <= at_least(width as int, 1)
            &&& p.height <= at_least(height as int, 1)
        }),
{
}

/// What is on the screen.
#[derive(Clone, Copy, Debug, PartialEq, Eq, Structural)]
pub enum Screen {
    Login,
    TooSmall,
    Main,
}

/// What is on a screen of the given size: a login goes before everything, and
/// the main view needs some room.
pub open spec fn screen_of(login: bool, area: Area) -> Screen {
    if login {
        Screen::Login
    } else if area.width < MIN_WIDTH || area.height < MIN_HEIGHT {
        Screen::TooSmall
    } else {
        Screen::Main
    }
}

/// What is on a screen of the given size.
pub fn screen(app: &App, area: Area) -> (r: Screen)
    ensures
        r == screen_of(app@.login_overlay is Some, area),
{
    if app.login_overlay.is_some() {
        Screen::Login
    } else if area.width < MIN_WIDTH || area.height < MIN_HEIGHT {
        Screen::TooSmall
    } else {
        Screen::Main
    }
}

/// The rows of the footer with so many warnings: one for each, one for the
/// shortcuts, one for the notice, and two for the frame.
pub open spec fn footer_height(warnings: int) -> int {
    4 + warnings
}

/// The rows of the main view, but for the results, which take the rest: the
/// header, the search box, the downloads and, with so many warnings, the
/// footer.
pub fn row_heights(warnings: u16) -> (r: (u16, u16, u16, u16))
    requires
        warnings <= 2,
    ensures
        r == (3u16, 3u16, 7u16, footer_height(warnings as int) as u16),
{
    (3, 3, 7, 4 + warnings)
}

/// The last 16 bits of a length.
pub open spec fn low(n: nat) -> int {
    n as int % 65536
}

/// The greatest width of some lines.
pub open spec fn widest(lines: Seq<Seq<char>>) -> int
    decreases lines.len(),
{
    if lines.len() == 0 {
        0
    } else {
        at_least(widest(lines.drop_last()), low(lines.last().len()))
    }
}

/// A sum, as far as it can be represented.
pub open spec fn capped(n: int) -> int {
    at_most(n, u16::MAX as int)
}

/// Whether a code fits in an area with a frame and text around it.
pub open spec fn fits_framed(lines: Seq<Seq<char>>, area: Area) -> bool {
    &&& capped(widest(lines) + 4) <= area.width
    &&& capped(low(lines.len()) + 10) <= area.height
}

/// Whether a code fits in an area by itself.
pub open spec fn fits_compact(lines: Seq<Seq<char>>, area: Area) -> bool {
    &&& widest(lines) <= area.width
    &&& low(lines.len()) <= area.height
}

/// How a login attempt is shown.
#[derive(Clone, Copy, Debug, PartialEq, Eq, Structural)]
pub enum LoginLayout {
    /// Its code alone, in this area.
    Compact(Area),
    /// A popup with its code.
    WithCode(Area),
    /// A popup without its code.
    WithoutCode(Area),
}

/// How a login attempt is shown in an area: with its code in a frame if that
/// fits, else, while a scan is waited for, with its code alone if that fits,
/// else without its code.
pub open spec fn login_layout_of(overlay: OverlayModel, area: Area) -> LoginLayout {
    let lines = overlay.qr_lines;
    let width = widest(lines);
    let height = low(lines.len());
    if fits_framed(lines, area) {
        LoginLayout::WithCode(
            popup(area, at_least(capped(width + 2), 68), at_least(height + 8, 11)),
        )
    } else if fits_compact(lines, area) && overlay.phase == LoginPhase::WaitingScan && lines.len()
        > 0 {
        LoginLayout::Compact(
            Area {
                x: middle(area.x as int, area.width as int, width) as u16,
                y: middle(area.y as int, area.height as int, height) as u16,
                width: width as u16,
                height: height as u16,
            },
        )
    } else {
        LoginLayout::WithoutCode(popup(area, 68, 12))
    }
}

/// The greatest width of some lines.
fn widest_line(lines: &Vec<String>) -> (r: u16)
    ensures
        r == widest(model::views(lines@)),
{
    let ghost all = model::views(lines@);
    let mut width: u16 = 0;
    let mut i: usize = 0;
    proof {
        assert(all.take(0) =~= seq![]);
    }
    while i < lines.len()
        invariant
            all == model::views(lines@),
            i <= lines.len(),
            width == widest(all.take(i as int)),
        decreases lines.len() - i,
    {
        let length: u16 = (lines[i].as_str().unicode_len() % 65536) as u16;
        proof {
            assert(all.take(i + 1).drop_last() =~= all.take(i as int));
            assert(all.take(i + 1).last() == lines@[i as int]@);
        }
        if length > width {
            width = length;
        }
        i = i + 1;
    }
    proof {
        assert(all.take(i as int) =~= all);
    }
    width
}

/// How a login attempt is shown in an area.
pub fn login_layout(overlay: &LoginOverlay, area: Area) -> (r: LoginLayout)
    requires
        area.wf(),
        fits_framed(overlay@.qr_lines, area) ==> low(overlay@.qr_lines.len()) + 8 <= u16::MAX,
    ensures
        r == login_layout_of(overlay@, area),
{
    let width: u16 = widest_line(&overlay.qr_lines);
    let height: u16 = (overlay.qr_lines.len() % 65536) as u16;
    if width.saturating_add(4) <= area.width && height.saturating_add(10) <= area.height {
        let wide: u16 = width.saturating_add(2);
        let high: u16 = height + 8;
        return LoginLayout::WithCode(
            centered(
                area,
                if wide < 68 {
                    68
                } else {
                    wide
                },
                if high < 11 {
                    11
                } else {
                    high
                },
            ),
        );
    }
    if width <= area.width && height <= area.height && overlay.phase == LoginPhase::WaitingScan
        && overlay.qr_lines.len() > 0 {
        return LoginLayout::Compact(
            Area {
                x: area.x + area.width.saturating_sub(width) / 2,
                y: area.y + area.height.saturating_sub(height) / 2,
                width,
                height,
            },
        );
    }
    LoginLayout::WithoutCode(centered(area, 68, 12))
}

/// The rows of a popup with a code that hold no line of it: the detail, the
/// hint and empty ones.
pub open spec fn other_rows() -> int {
    4
}

/// A code is shown whole or not at all: where it is shown, each of its lines
/// fits in the area for it, within the frame if there is one, and so do the
/// other rows. It lies on the screen, even where the screen is too small for
/// the main view.
pub proof fn law_codes_are_shown_whole(overlay: OverlayModel, area: Area, i: int)
    requires
        area.wf(),
        0 <= i < overlay.qr_lines.len(),
        overlay.qr_lines[i].len() <= u16::MAX,
        overlay.qr_lines.len() + 10 <= u16::MAX,
        widest(overlay.qr_lines) + 4 <= u16::MAX,
    ensures
        match login_layout_of(overlay, area) {
            LoginLayout::Compact(shown) => {
                &&& shown.inside(area)
                &&& overlay.qr_lines[i].len() <= shown.width
                &&& overlay.qr_lines.len() == shown.height
            },
            LoginLayout::WithCode(shown) => {
                &&& shown.inside(area)
                &&& overlay.qr_lines[i].len() + 2 <= shown.width
                &&& overlay.qr_lines.len() + other_rows() + 2 <= shown.height
            },
            LoginLayout::WithoutCode(_) => true,
        },
{
    lemma_widest(overlay.qr_lines, i);
}

/// No line is wider than the widest.
proof fn lemma_widest(lines: Seq<Seq<char>>, i: int)
    requires
        0 <= i < lines.len(),
    ensures
        low(lines[i].len()) <= widest(lines),
        0 <= widest(lines) <= u16::MAX,
    decreases lines.len(),
{
    lemma_widest_range(lines);
    if i < lines.len() - 1 {
        lemma_widest(lines.drop_last(), i);
    }
}

/// Widths can be represented.
proof fn lemma_widest_range(lines: Seq<Seq<char>>)
    ensures
        0 <= widest(lines) <= u16::MAX,
    decreases lines.len(),
{
    if lines.len() > 0 {
        lemma_widest_range(lines.drop_last());
    }
}

} // verus!
