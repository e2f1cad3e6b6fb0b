//! Greyscale images and their rendering as a QR code made of half blocks.

use vstd::prelude::*;

use crate::model;

verus! {

/// The light modules that surround a rendered code on each side.
pub const QUIET_ZONE_MODULES: usize = 4;

/// The largest module size, in pixels, that is looked for.
pub const MAX_MODULE_SIZE: u32 = 64;

/// An 8-bit greyscale image, row by row from the top.
#[derive(Debug)]
pub struct Raster {
    pub width: u32,
    pub height: u32,
    pub pixels: Vec<u8>,
}

/// What an image shows.
pub struct Picture {
    pub width: nat,
    pub height: nat,
    pub pixels: Seq<u8>,
}

impl View for Raster {
    type V = Picture;

    open spec fn view(&self) -> Picture {
        Picture { width: self.width as nat, height: self.height as nat, pixels: self.pixels@ }
    }
}

impl Raster {
    /// There is one pixel for each position.
    pub open spec fn wf(&self) -> bool {
        self@.wf()
    }
}

impl Picture {
    /// There is one pixel for each position.
    pub open spec fn wf(self) -> bool {
        &&& self.width <= u32::MAX
        &&& self.height <= u32::MAX
        &&& self.pixels.len() == self.width * self.height
    }

    /// Whether the pixel at column `x` and row `y` is dark.
    pub open spec fn dark(self, x: int, y: int) -> bool {
        &&& 0 <= x < self.width
        &&& 0 <= y < self.height
        &&& self.pixels[y * self.width + x] < 128
    }

    /// Row `y`, dark pixels as `true`.
    pub open spec fn row(self, y: int) -> Seq<bool> {
        Seq::new(self.width, |x: int| self.dark(x, y))
    }

    /// Column `x`, dark pixels as `true`.
    pub open spec fn column(self, x: int) -> Seq<bool> {
        Seq::new(self.height, |y: int| self.dark(x, y))
    }
}

/// The number of dark pixels at the end of a line.
pub open spec fn trailing_run(line: Seq<bool>) -> nat
    decreases line.len(),
{
    if line.len() == 0 || !line.last() {
        0
    } else {
        1 + trailing_run(line.drop_last())
    }
}

/// The lengths of the maximal dark runs of a line that a light pixel ends.
pub open spec fn ended_runs(line: Seq<bool>) -> Seq<nat>
    decreases line.len(),
{
    if line.len() == 0 {
        Seq::empty()
    } else {
        let before = line.drop_last();
        if !line.last() && trailing_run(before) > 0 {
            ended_runs(before).push(trailing_run(before))
        } else {
            ended_runs(before)
        }
    }
}

/// The lengths of all maximal dark runs of a line, in order.
pub open spec fn line_runs(line: Seq<bool>) -> Seq<nat> {
    if trailing_run(line) > 0 {
        ended_runs(line).push(trailing_run(line))
    } else {
        ended_runs(line)
    }
}

/// The runs of the first `n` rows.
pub open spec fn row_runs(image: Picture, n: int) -> Seq<nat>
    decreases n,
{
    if n <= 0 {
        Seq::empty()
    } else {
        row_runs(image, n - 1) + line_runs(image.row(n - 1))
    }
}

/// The runs of the first `n` columns.
pub open spec fn column_runs(image: Picture, n: int) -> Seq<nat>
    decreases n,
{
    if n <= 0 {
        Seq::empty()
    } else {
        column_runs(image, n - 1) + line_runs(image.column(n - 1))
    }
}

/// The lengths of the horizontal and vertical dark runs of an image.
pub open spec fn dark_runs(image: Picture) -> Seq<nat> {
    row_runs(image, image.height as int) + column_runs(image, image.width as int)
}

/// How many of the runs are multiples of `size`.
pub open spec fn multiples(runs: Seq<nat>, size: nat) -> nat
    decreases runs.len(),
{
    if runs.len() == 0 {
        0
    } else {
        multiples(runs.drop_last(), size) + if runs.last() % size == 0 {
            1nat
        } else {
            0nat
        }
    }
}

/// Whether at least nine runs in ten are multiples of `size`, of at least one.
pub open spec fn fits(runs: Seq<nat>, size: nat) -> bool {
    runs.len() > 0 && multiples(runs, size) * 100 >= runs.len() * 90
}

/// The largest size from 2 to `limit` that fits the runs, else 1.
pub open spec fn largest_fit(runs: Seq<nat>, limit: nat) -> nat
    decreases limit,
{
    if limit < 2 {
        1
    } else if fits(runs, limit) {
        limit
    } else {
        largest_fit(runs, (limit - 1) as nat)
    }
}

/// The smaller of two numbers.
pub open spec fn min(a: int, b: int) -> int {
    if a <= b {
        a
    } else {
        b
    }
}

/// The largest module size that is looked for in an image.
pub open spec fn size_limit(image: Picture) -> nat {
    min(min(image.width as int, image.height as int), MAX_MODULE_SIZE as int) as nat
}

/// The width of a module of the code that an image shows, in pixels.
pub open spec fn module_size(image: Picture) -> nat {
    largest_fit(dark_runs(image), size_limit(image))
}

/// Whether `(left, top, right, bottom)` is the smallest rectangle that holds
/// every dark pixel, given that there is one.
pub open spec fn encloses(image: Picture, b: (int, int, int, int)) -> bool {
    &&& forall|x: int, y: int| #[trigger]
        image.dark(x, y) ==> b.0 <= x <= b.2 && b.1 <= y <= b.3
    &&& exists|y: int| #[trigger] image.dark(b.0, y)
    &&& exists|x: int| #[trigger] image.dark(x, b.1)
    &&& exists|y: int| #[trigger] image.dark(b.2, y)
    &&& exists|x: int| #[trigger] image.dark(x, b.3)
}

/// Whether every pixel is light.
pub open spec fn all_light(image: Picture) -> bool {
    forall|x: int, y: int| !#[trigger] image.dark(x, y)
}

/// The smallest rectangle that holds every dark pixel.
pub open spec fn dark_bounds(image: Picture) -> Option<(int, int, int, int)> {
    if all_light(image) {
        None
    } else {
        Some(choose|b: (int, int, int, int)| encloses(image, b))
    }
}

/// The rectangle is unique.
pub proof fn lemma_encloses_unique(image: Picture, a: (int, int, int, int), b: (int, int, int, int))
    requires
        encloses(image, a),
        encloses(image, b),
    ensures
        a == b,
{
    let y = choose|y: int| #[trigger] image.dark(a.0, y);
    assert(image.dark(a.0, y));
    let y = choose|y: int| #[trigger] image.dark(b.0, y);
    assert(image.dark(b.0, y));
    let y = choose|y: int| #[trigger] image.dark(a.2, y);
    assert(image.dark(a.2, y));
    let y = choose|y: int| #[trigger] image.dark(b.2, y);
    assert(image.dark(b.2, y));
    let x = choose|x: int| #[trigger] image.dark(x, a.1);
    assert(image.dark(x, a.1));
    let x = choose|x: int| #[trigger] image.dark(x, b.1);
    assert(image.dark(x, b.1));
    let x = choose|x: int| #[trigger] image.dark(x, a.3);
    assert(image.dark(x, a.3));
    let x = choose|x: int| #[trigger] image.dark(x, b.3);
    assert(image.dark(x, b.3));
}

/// A rectangle that encloses the dark pixels is the one `dark_bounds` names.
pub proof fn lemma_dark_bounds(image: Picture, b: (int, int, int, int))
    requires
        encloses(image, b),
    ensures
        dark_bounds(image) == Some(b),
{
    let y = choose|y: int| #[trigger] image.dark(b.0, y);
    assert(image.dark(b.0, y));
    let c = choose|c: (int, int, int, int)| encloses(image, c);
    lemma_encloses_unique(image, b, c);
}

impl Raster {
    /// The image of the given size, if there is one pixel for each position.
    pub fn new(width: u32, height: u32, pixels: Vec<u8>) -> (r: Option<Raster>)
        ensures
            match r {
                Some(image) => image.wf() && image.width == width && image.height == height
                    && image.pixels@ == pixels@,
                None => pixels@.len() != width * height,
            },
    {
        proof {
            lemma_area(width as int, height as int);
        }
        if pixels.len() as u64 == width as u64 * height as u64 {
            Some(Raster { width, height, pixels })
        } else {
            None
        }
    }

    /// Whether the pixel at column `x` and row `y` is dark.
    pub fn is_dark(&self, x: u32, y: u32) -> (r: bool)
        requires
            self.wf(),
            x < self.width,
            y < self.height,
        ensures
            r == self@.dark(x as int, y as int),
    {
        proof {
            lemma_index(x as int, y as int, self.width as int, self.height as int);
            assert(self.pixels.len() == self.width * self.height);
        }
        self.pixels[y as usize * self.width as usize + x as usize] < 128
    }
}

/// A product of two 32-bit numbers fits 64 bits.
proof fn lemma_area(w: int, h: int)
    requires
        0 <= w <= u32::MAX,
        0 <= h <= u32::MAX,
    ensures
        0 <= w * h <= u64::MAX,
{
    assert(0 <= w * h <= u32::MAX * u32::MAX) by (nonlinear_arith)
        requires
            0 <= w <= u32::MAX,
            0 <= h <= u32::MAX,
    ;
}

/// The position of a pixel lies within the image.
proof fn lemma_index(x: int, y: int, w: int, h: int)
    requires
        0 <= x < w,
        0 <= y < h,
    ensures
        0 <= y * w,
        y * w + x < w * h,
{
    assert(y * w + x < w * h) by (nonlinear_arith)
        requires
            0 <= x < w,
            0 <= y < h,
    ;
    assert(0 <= y * w) by (nonlinear_arith)
        requires
            0 <= y,
            0 <= w,
    ;
}

/// The lengths as numbers.
pub open spec fn lengths(runs: Seq<u32>) -> Seq<nat> {
    runs.map_values(|n: u32| n as nat)
}

/// Appends the dark runs of a line.
fn push_line_runs(out: &mut Vec<u32>, line: &Vec<bool>)
    requires
        line@.len() <= u32::MAX,
    ensures
        lengths(final(out)@) == lengths(old(out)@) + line_runs(line@),
{
    let mut run: u32 = 0;
    let mut i: usize = 0;
    proof {
        assert(line@.take(0) =~= Seq::empty());
        assert(lengths(out@) =~= lengths(old(out)@) + ended_runs(line@.take(0)));
    }
    while i < line.len()
        invariant
            i <= line@.len() <= u32::MAX,
            run == trailing_run(line@.take(i as int)),
            run <= i,
            lengths(out@) == lengths(old(out)@) + ended_runs(line@.take(i as int)),
        decreases line.len() - i,
    {
        proof {
            assert(line@.take(i + 1).drop_last() =~= line@.take(i as int));
            assert(line@.take(i + 1).last() == line@[i as int]);
        }
        if line[i] {
            run = run + 1;
        } else {
            if run > 0 {
                let ghost before = out@;
                out.push(run);
                proof {
                    assert(lengths(out@) =~= lengths(before).push(run as nat));
                    assert(lengths(out@) =~= lengths(old(out)@) + ended_runs(line@.take(i + 1)));
                }
            }
            run = 0;
        }
        i = i + 1;
    }
    proof {
        assert(line@.take(line@.len() as int) =~= line@);
    }
    if run > 0 {
        let ghost before = out@;
        out.push(run);
        proof {
            assert(lengths(out@) =~= lengths(before).push(run as nat));
            assert(lengths(out@) =~= lengths(old(out)@) + line_runs(line@));
        }
    }
}

/// The lengths of the horizontal and vertical dark runs of an image.
fn collect_dark_runs(image: &Raster) -> (r: Vec<u32>)
    requires
        image.wf(),
    ensures
        lengths(r@) == dark_runs(image@),
{
    let mut out: Vec<u32> = Vec::new();
    let mut y: u32 = 0;
    proof {
        assert(lengths(out@) =~= row_runs(image@, 0));
    }
    while y < image.height
        invariant
            image.wf(),
            y <= image.height,
            lengths(out@) == row_runs(image@, y as int),
        decreases image.height - y,
    {
        let mut line: Vec<bool> = Vec::new();
        let mut x: u32 = 0;
        while x < image.width
            invariant
                image.wf(),
                y < image.height,
                x <= image.width,
                line@ == image@.row(y as int).take(x as int),
            decreases image.width - x,
        {
            line.push(image.is_dark(x, y));
            proof {
                assert(line@ =~= image@.row(y as int).take(x + 1));
            }
            x = x + 1;
        }
        proof {
            assert(line@ =~= image@.row(y as int));
        }
        push_line_runs(&mut out, &line);
        y = y + 1;
    }
    let mut x: u32 = 0;
    proof {
        assert(lengths(out@) =~= row_runs(image@, image.height as int) + column_runs(image@, 0));
    }
    while x < image.width
        invariant
            image.wf(),
            x <= image.width,
            lengths(out@) == row_runs(image@, image.height as int) + column_runs(image@, x as int),
        decreases image.width - x,
    {
        let mut line: Vec<bool> = Vec::new();
        let mut y: u32 = 0;
        while y < image.height
            invariant
                image.wf(),
                x < image.width,
                y <= image.height,
                line@ == image@.column(x as int).take(y as int),
            decreases image.height - y,
        {
            line.push(image.is_dark(x, y));
            proof {
                assert(line@ =~= image@.column(x as int).take(y + 1));
            }
            y = y + 1;
        }
        proof {
            assert(line@ =~= image@.column(x as int));
        }
        push_line_runs(&mut out, &line);
        proof {
            assert(lengths(out@) =~= row_runs(image@, image.height as int) + column_runs(
                image@,
                x + 1,
            ));
        }
        x = x + 1;
    }
    out
}

/// Whether a module size fits the runs.
fn size_fits(runs: &Vec<u32>, size: u32) -> (r: bool)
    requires
        size > 0,
    ensures
        r == fits(lengths(runs@), size as nat),
{
    let mut matching: usize = 0;
    let mut i: usize = 0;
    proof {
        assert(lengths(runs@).take(0) =~= Seq::empty());
    }
    while i < runs.len()
        invariant
            size > 0,
            i <= runs@.len(),
            matching <= i,
            matching == multiples(lengths(runs@).take(i as int), size as nat),
        decreases runs.len() - i,
    {
        proof {
            assert(lengths(runs@).take(i + 1).drop_last() =~= lengths(runs@).take(i as int));
            assert(lengths(runs@).take(i + 1).last() == runs@[i as int] as nat);
        }
        if runs[i] % size == 0 {
            matching = matching + 1;
        }
        i = i + 1;
    }
    proof {
        assert(lengths(runs@).take(runs@.len() as int) =~= lengths(runs@));
    }
    runs.len() > 0 && matching as u128 * 100 >= runs.len() as u128 * 90
}

/// The width of a module of the code that an image shows, in pixels.
pub fn detect_module_size(image: &Raster) -> (r: u32)
    requires
        image.wf(),
    ensures
        r == module_size(image@),
        1 <= r <= MAX_MODULE_SIZE,
{
    let runs = collect_dark_runs(image);
    let shorter: u32 = if image.width <= image.height {
        image.width
    } else {
        image.height
    };
    let mut size: u32 = if shorter <= MAX_MODULE_SIZE {
        shorter
    } else {
        MAX_MODULE_SIZE
    };
    while size >= 2
        invariant
            lengths(runs@) == dark_runs(image@),
            size <= MAX_MODULE_SIZE,
            largest_fit(dark_runs(image@), size as nat) == module_size(image@),
        decreases size,
    {
        if size_fits(&runs, size) {
            return size;
        }
        size = size - 1;
    }
    1
}

/// The smallest rectangle, as `(left, top, right, bottom)`, that holds every
/// dark pixel.
pub fn dark_pixel_bounds(image: &Raster) -> (r: Option<(u32, u32, u32, u32)>)
    requires
        image.wf(),
    ensures
        match r {
            Some((left, top, right, bottom)) => {
                &&& encloses(image@, (left as int, top as int, right as int, bottom as int))
                &&& dark_bounds(image@) == Some(
                    (left as int, top as int, right as int, bottom as int),
                )
                &&& left <= right < image.width
                &&& top <= bottom < image.height
            },
            None => all_light(image@) && dark_bounds(image@) is None,
        },
{
    let mut left: u32 = u32::MAX;
    let mut top: u32 = u32::MAX;
    let mut right: u32 = 0;
    let mut bottom: u32 = 0;
    let mut found = false;
    let ghost mut at_left: int = 0;
    let ghost mut at_top: int = 0;
    let ghost mut at_right: int = 0;
    let ghost mut at_bottom: int = 0;
    let mut y: u32 = 0;
    while y < image.height
        invariant
            image.wf(),
            y <= image.height,
            forall|i: int, j: int| #[trigger]
                image@.dark(i, j) && j < y ==> found && left <= i <= right && top <= j <= bottom,
            !found ==> left == u32::MAX && top == u32::MAX && right == 0 && bottom == 0,
            found ==> image@.dark(left as int, at_left) && image@.dark(at_top, top as int)
                && image@.dark(right as int, at_right) && image@.dark(at_bottom, bottom as int),
        decreases image.height - y,
    {
        let mut x: u32 = 0;
        while x < image.width
            invariant
                image.wf(),
                y < image.height,
                x <= image.width,
                forall|i: int, j: int| #[trigger]
                    image@.dark(i, j) && (j < y || (j == y && i < x)) ==> found && left <= i <= right
                        && top <= j <= bottom,
                !found ==> left == u32::MAX && top == u32::MAX && right == 0 && bottom == 0,
                found ==> image@.dark(left as int, at_left) && image@.dark(at_top, top as int)
                    && image@.dark(right as int, at_right) && image@.dark(at_bottom, bottom as int),
            decreases image.width - x,
        {
            if image.is_dark(x, y) {
                if x <= left {
                    left = x;
                    proof {
                        at_left = y as int;
                    }
                }
                if y <= top {
                    top = y;
                    proof {
                        at_top = x as int;
                    }
                }
                if x >= right {
                    right = x;
                    proof {
                        at_right = y as int;
                    }
                }
                if y >= bottom {
                    bottom = y;
                    proof {
                        at_bottom = x as int;
                    }
                }
                found = true;
            }
            x = x + 1;
        }
        y = y + 1;
    }
    if found {
        proof {
            let b = (left as int, top as int, right as int, bottom as int);
            assert(image@.dark(b.0, at_left));
            assert(image@.dark(at_top, b.1));
            assert(image@.dark(b.2, at_right));
            assert(image@.dark(at_bottom, b.3));
            lemma_dark_bounds(image@, b);
        }
        Some((left, top, right, bottom))
    } else {
        None
    }
}

/// The quotient rounded up.
pub open spec fn ceiling(a: int, b: int) -> int {
    (a + b - 1) / b
}

/// How a code lies in an image: the rectangle of its dark pixels and the
/// width of its modules.
pub struct Placement {
    pub left: int,
    pub top: int,
    pub right: int,
    pub bottom: int,
    pub unit: int,
}

impl Placement {
    /// The number of modules in a row.
    pub open spec fn columns(self) -> int {
        ceiling(self.right - self.left + 1, self.unit)
    }

    /// The number of modules in a column.
    pub open spec fn rows(self) -> int {
        ceiling(self.bottom - self.top + 1, self.unit)
    }

    /// Whether the module in the given row and column is dark: the pixel at
    /// its centre tells. Outside the code everything is light.
    pub open spec fn module(self, image: Picture, row: int, column: int) -> bool {
        &&& 0 <= row < self.rows()
        &&& 0 <= column < self.columns()
        &&& image.dark(
            min(self.left + column * self.unit + self.unit / 2, self.right),
            min(self.top + row * self.unit + self.unit / 2, self.bottom),
        )
    }

    /// The characters that show module rows `2 * i` and `2 * i + 1`, counted
    /// from the upper edge of the quiet zone.
    pub open spec fn line(self, image: Picture, i: int) -> Seq<char> {
        Seq::new(
            (self.columns() + 2 * QUIET_ZONE_MODULES) as nat,
            |j: int|
                half_block(
                    self.module(image, 2 * i - QUIET_ZONE_MODULES, j - QUIET_ZONE_MODULES),
                    self.module(image, 2 * i + 1 - QUIET_ZONE_MODULES, j - QUIET_ZONE_MODULES),
                ),
        )
    }

    /// The number of lines: two module rows, quiet zone included, on each.
    pub open spec fn height(self) -> int {
        ceiling(self.rows() + 2 * QUIET_ZONE_MODULES, 2)
    }
}

/// Two modules, one above the other, as one character.
pub open spec fn half_block(upper: bool, lower: bool) -> char {
    if upper && lower {
        '█'
    } else if upper {
        '▀'
    } else if lower {
        '▄'
    } else {
        ' '
    }
}

/// What stands in place of a code when an image shows none.
pub open spec fn empty_image_notice() -> Seq<char> {
    "平台返回的二维码图片为空"@
}

/// How the code lies in an image with dark pixels.
pub open spec fn placement(image: Picture, b: (int, int, int, int)) -> Placement {
    Placement {
        left: b.0,
        top: b.1,
        right: b.2,
        bottom: b.3,
        unit: module_size(image) as int,
    }
}

/// An image as lines of half blocks, one character wide and half a character
/// high for each module, with a quiet zone around.
pub open spec fn terminal_lines(image: Picture) -> Seq<Seq<char>> {
    match dark_bounds(image) {
        None => seq![empty_image_notice()],
        Some(b) => Seq::new(
            placement(image, b).height() as nat,
            |i: int| placement(image, b).line(image, i),
        ),
    }
}
/// The module in the given row and column, both counted from the edge of the
/// quiet zone.
fn module_at(
    image: &Raster,
    bounds: (u32, u32, u32, u32),
    unit: u32,
    row: u64,
    column: u64,
    Ghost(p): Ghost<Placement>,
) -> (r: bool)
    requires
        image.wf(),
        bounds.0 <= bounds.2 < image.width,
        bounds.1 <= bounds.3 < image.height,
        1 <= unit <= MAX_MODULE_SIZE,
        p.left == bounds.0,
        p.top == bounds.1,
        p.right == bounds.2,
        p.bottom == bounds.3,
        p.unit == unit,
    ensures
        r == p.module(image@, row - QUIET_ZONE_MODULES, column - QUIET_ZONE_MODULES),
{
    let columns: u64 = ((bounds.2 - bounds.0) as u64 + unit as u64) / unit as u64;
    let rows: u64 = ((bounds.3 - bounds.1) as u64 + unit as u64) / unit as u64;
    let zone: u64 = QUIET_ZONE_MODULES as u64;
    if row < zone || column < zone || row - zone >= rows || column - zone >= columns {
        return false;
    }
    let c: u64 = column - zone;
    let l: u64 = row - zone;
    proof {
        lemma_step(c as int, columns as int, bounds.2 - bounds.0, unit as int);
        lemma_step(l as int, rows as int, bounds.3 - bounds.1, unit as int);
    }
    let x: u64 = bounds.0 as u64 + c * unit as u64 + unit as u64 / 2;
    let y: u64 = bounds.1 as u64 + l * unit as u64 + unit as u64 / 2;
    let x: u32 = if x <= bounds.2 as u64 {
        x as u32
    } else {
        bounds.2
    };
    let y: u32 = if y <= bounds.3 as u64 {
        y as u32
    } else {
        bounds.3
    };
    image.is_dark(x, y)
}

/// A module begins within the rectangle.
proof fn lemma_step(index: int, count: int, span: int, unit: int)
    requires
        0 <= index < count,
        unit >= 1,
        span >= 0,
        count == (span + unit) / unit,
    ensures
        0 <= index * unit <= span,
{
    assert(count * unit <= span + unit) by (nonlinear_arith)
        requires
            count == (span + unit) / unit,
            unit >= 1,
    ;
    assert(0 <= index * unit <= span) by (nonlinear_arith)
        requires
            0 <= index <= count - 1,
            unit >= 1,
            count * unit <= span + unit,
    ;
}

/// Two modules, one above the other, as one character.
fn block_char(upper: bool, lower: bool) -> (r: char)
    ensures
        r == half_block(upper, lower),
{
    if upper && lower {
        '█'
    } else if upper {
        '▀'
    } else if lower {
        '▄'
    } else {
        ' '
    }
}

/// An image as lines of half blocks.
pub fn render_terminal_qr(image: &Raster) -> (r: Vec<String>)
    requires
        image.wf(),
    ensures
        model::views(r@) == terminal_lines(image@),
{
    let bounds = match dark_pixel_bounds(image) {
        Some(bounds) => bounds,
        None => {
            let mut lines: Vec<String> = Vec::new();
            lines.push("平台返回的二维码图片为空".to_owned());
            proof {
                assert(model::views(lines@) =~= terminal_lines(image@));
            }
            return lines;
        },
    };
    let unit: u32 = detect_module_size(image);
    let ghost b = (bounds.0 as int, bounds.1 as int, bounds.2 as int, bounds.3 as int);
    let ghost p = placement(image@, b);
    let columns: u64 = ((bounds.2 - bounds.0) as u64 + unit as u64) / unit as u64;
    let rows: u64 = ((bounds.3 - bounds.1) as u64 + unit as u64) / unit as u64;
    proof {
        lemma_count((bounds.2 - bounds.0) as int, unit as int);
        lemma_count((bounds.3 - bounds.1) as int, unit as int);
    }
    let width: u64 = columns + 2 * QUIET_ZONE_MODULES as u64;
    let height: u64 = (rows + 2 * QUIET_ZONE_MODULES as u64 + 1) / 2;
    let mut lines: Vec<String> = Vec::new();
    let mut i: u64 = 0;
    while i < height
        invariant
            image.wf(),
            bounds.0 <= bounds.2 < image.width,
            bounds.1 <= bounds.3 < image.height,
            1 <= unit <= MAX_MODULE_SIZE,
            b == (bounds.0 as int, bounds.1 as int, bounds.2 as int, bounds.3 as int),
            p == placement(image@, b),
            p.unit == unit,
            width == p.columns() + 2 * QUIET_ZONE_MODULES,
            height == p.height(),
            height <= u32::MAX,
            i <= height,
            lines@.len() == i,
            forall|k: int| 0 <= k < i ==> (#[trigger] lines@[k])@ == p.line(image@, k),
        decreases height - i,
    {
        let mut line = String::new();
        let mut j: u64 = 0;
        while j < width
            invariant
                image.wf(),
                bounds.0 <= bounds.2 < image.width,
                bounds.1 <= bounds.3 < image.height,
                1 <= unit <= MAX_MODULE_SIZE,
                p == placement(image@, b),
                b == (bounds.0 as int, bounds.1 as int, bounds.2 as int, bounds.3 as int),
                p.unit == unit,
                width == p.columns() + 2 * QUIET_ZONE_MODULES,
                height <= u32::MAX,
                i < height,
                j <= width,
                line@ == p.line(image@, i as int).take(j as int),
            decreases width - j,
        {
            let upper = module_at(image, bounds, unit, 2 * i, j, Ghost(p));
            let lower = module_at(image, bounds, unit, 2 * i + 1, j, Ghost(p));
            line.push(block_char(upper, lower));
            proof {
                assert(line@ =~= p.line(image@, i as int).take(j + 1));
            }
            j = j + 1;
        }
        proof {
            assert(line@ =~= p.line(image@, i as int));
        }
        lines.push(line);
        i = i + 1;
    }
    proof {
        assert(model::views(lines@) =~= terminal_lines(image@));
    }
    lines
}

/// The number of modules in a span of pixels.
proof fn lemma_count(span: int, unit: int)
    requires
        0 <= span < u32::MAX,
        1 <= unit,
    ensures
        1 <= (span + unit) / unit <= span + 1,
{
    assert(1 <= (span + unit) / unit <= span + 1) by (nonlinear_arith)
        requires
            0 <= span,
            1 <= unit,
    ;
}

} // verus!
