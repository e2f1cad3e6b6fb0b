//! What holds of every rendered code: its quiet zone, and that light margins
//! in an image leave no trace.

use crate::raster;
use crate::raster::Picture;
use vstd::prelude::*;

verus! {

/// An image with dark pixels is rendered as lines of one and the same width.
/// The first two and the last two lines are blank, and so are the first four
/// and the last four characters of each line.
pub proof fn law_quiet_zone(image: Picture)
    requires
        image.wf(),
        !raster::all_light(image),
    ensures
        raster::terminal_lines(image).len() >= 4,
        forall|i: int|
            0 <= i < raster::terminal_lines(image).len() ==> (#[trigger] raster::terminal_lines(image)[i]).len()
                == raster::terminal_lines(image)[0].len(),
        forall|i: int, j: int|
            #![trigger raster::terminal_lines(image)[i][j]]
            0 <= i < raster::terminal_lines(image).len() && 0 <= j < raster::terminal_lines(image)[0].len() && (i < 2
                || i >= raster::terminal_lines(image).len() - 2 || j < 4 || j
                >= raster::terminal_lines(image)[0].len() - 4) ==> raster::terminal_lines(image)[i][j] == ' ',
{
    lemma_bounds_exist(image);
    let b = raster::dark_bounds(image)->Some_0;
    let p = raster::placement(image, b);
    lemma_fit_positive(raster::dark_runs(image), raster::size_limit(image));
    lemma_extent(image, b);
    let lines = raster::terminal_lines(image);
    assert forall|i: int| 0 <= i < lines.len() implies #[trigger] lines[i] == p.line(image, i) by {}
    assert forall|i: int, j: int|
        #![trigger lines[i][j]]
        0 <= i < lines.len() && 0 <= j < lines[0].len() && (i < 2 || i >= lines.len() - 2 || j < 4
            || j >= lines[0].len() - 4) implies lines[i][j] == ' ' by {
        assert(lines[i] == p.line(image, i));
        assert(lines[0] == p.line(image, 0));
    }
}

/// The rectangle of the dark pixels exists where there is a dark pixel.
pub proof fn lemma_bounds_exist(image: Picture)
    requires
        !raster::all_light(image),
    ensures
        raster::dark_bounds(image) is Some,
        raster::encloses(image, raster::dark_bounds(image)->Some_0),
{
    let (x, y) = choose|x: int, y: int| #[trigger] image.dark(x, y);
    let l = lemma_least_column(image, x, y, 0);
    let r = lemma_greatest_column(image, x, y, image.width - 1);
    let t = lemma_least_row(image, x, y, 0);
    let b = lemma_greatest_row(image, x, y, image.height - 1);
    let q = (l.0, t.1, r.0, b.1);
    assert(image.dark(q.0, l.1));
    assert(image.dark(t.0, q.1));
    assert(image.dark(q.2, r.1));
    assert(image.dark(b.0, q.3));
    assert(raster::encloses(image, q));
}

proof fn lemma_least_column(image: Picture, x: int, y: int, from: int) -> (r: (int, int))
    requires
        image.dark(x, y),
        0 <= from <= x,
        forall|i: int, j: int| #[trigger] image.dark(i, j) ==> i >= from,
    ensures
        image.dark(r.0, r.1),
        forall|i: int, j: int| #[trigger] image.dark(i, j) ==> i >= r.0,
    decreases x - from,
{
    if exists|j: int| #[trigger] image.dark(from, j) {
        (from, choose|j: int| #[trigger] image.dark(from, j))
    } else {
        assert forall|i: int, j: int| #[trigger] image.dark(i, j) implies i >= from + 1 by {
            if i == from {
                assert(image.dark(from, j));
            }
        }
        lemma_least_column(image, x, y, from + 1)
    }
}

proof fn lemma_greatest_column(image: Picture, x: int, y: int, from: int) -> (r: (int, int))
    requires
        image.dark(x, y),
        x <= from,
        forall|i: int, j: int| #[trigger] image.dark(i, j) ==> i <= from,
    ensures
        image.dark(r.0, r.1),
        forall|i: int, j: int| #[trigger] image.dark(i, j) ==> i <= r.0,
    decreases from - x,
{
    if exists|j: int| #[trigger] image.dark(from, j) {
        (from, choose|j: int| #[trigger] image.dark(from, j))
    } else {
        assert forall|i: int, j: int| #[trigger] image.dark(i, j) implies i <= from - 1 by {
            if i == from {
                assert(image.dark(from, j));
            }
        }
        lemma_greatest_column(image, x, y, from - 1)
    }
}

proof fn lemma_least_row(image: Picture, x: int, y: int, from: int) -> (r: (int, int))
    requires
        image.dark(x, y),
        0 <= from <= y,
        forall|i: int, j: int| #[trigger] image.dark(i, j) ==> j >= from,
    ensures
        image.dark(r.0, r.1),
        forall|i: int, j: int| #[trigger] image.dark(i, j) ==> j >= r.1,
    decreases y - from,
{
    if exists|i: int| #[trigger] image.dark(i, from) {
        (choose|i: int| #[trigger] image.dark(i, from), from)
    } else {
        assert forall|i: int, j: int| #[trigger] image.dark(i, j) implies j >= from + 1 by {
            if j == from {
                assert(image.dark(i, from));
            }
        }
        lemma_least_row(image, x, y, from + 1)
    }
}

proof fn lemma_greatest_row(image: Picture, x: int, y: int, from: int) -> (r: (int, int))
    requires
        image.dark(x, y),
        y <= from,
        forall|i: int, j: int| #[trigger] image.dark(i, j) ==> j <= from,
    ensures
        image.dark(r.0, r.1),
        forall|i: int, j: int| #[trigger] image.dark(i, j) ==> j <= r.1,
    decreases from - y,
{
    if exists|i: int| #[trigger] image.dark(i, from) {
        (choose|i: int| #[trigger] image.dark(i, from), from)
    } else {
        assert forall|i: int, j: int| #[trigger] image.dark(i, j) implies j <= from - 1 by {
            if j == from {
                assert(image.dark(i, from));
            }
        }
        lemma_greatest_row(image, x, y, from - 1)
    }
}

/// A module is at least one pixel wide.
proof fn lemma_fit_positive(runs: Seq<nat>, limit: nat)
    ensures
        raster::largest_fit(runs, limit) >= 1,
    decreases limit,
{
    if limit >= 2 && !raster::fits(runs, limit) {
        lemma_fit_positive(runs, (limit - 1) as nat);
    }
}

/// A code has at least one module in each direction.
proof fn lemma_extent(image: Picture, b: (int, int, int, int))
    requires
        raster::encloses(image, b),
        raster::module_size(image) >= 1,
    ensures
        raster::placement(image, b).rows() >= 1,
        raster::placement(image, b).columns() >= 1,
{
    let p = raster::placement(image, b);
    let y = choose|y: int| #[trigger] image.dark(b.0, y);
    assert(image.dark(b.0, y));
    let u = p.unit;
    assert((b.2 - b.0 + 1 + u - 1) / u >= 1) by (nonlinear_arith)
        requires
            b.2 >= b.0,
            u >= 1,
    ;
    assert((b.3 - b.1 + 1 + u - 1) / u >= 1) by (nonlinear_arith)
        requires
            b.3 >= b.1,
            u >= 1,
    ;
}

/// Whether `b` is `a` with light margins, of which the left one is `dx` and
/// the upper one `dy` pixels wide.
pub open spec fn pads(a: Picture, b: Picture, dx: int, dy: int) -> bool {
    &&& 0 <= dx
    &&& 0 <= dy
    &&& a.width + dx <= b.width
    &&& a.height + dy <= b.height
    &&& forall|x: int, y: int| #[trigger] b.dark(x, y) <==> a.dark(x - dx, y - dy)
}

/// Light margins change nothing about the dark runs of an image.
pub proof fn lemma_padded_dark_runs(a: Picture, b: Picture, dx: int, dy: int)
    requires
        pads(a, b, dx, dy),
    ensures
        raster::dark_runs(b) == raster::dark_runs(a),
{
    lemma_row_runs(a, b, dx, dy, b.height as int);
    lemma_column_runs(a, b, dx, dy, b.width as int);
}

/// Light margins change nothing about the rendered code, as long as they do
/// not make the image wide enough for larger modules to be looked for.
pub proof fn law_margins_leave_no_trace(a: Picture, b: Picture, dx: int, dy: int)
    requires
        a.wf(),
        b.wf(),
        pads(a, b, dx, dy),
        raster::size_limit(a) == raster::size_limit(b),
    ensures
        raster::module_size(a) == raster::module_size(b),
        raster::terminal_lines(a) == raster::terminal_lines(b),
{
    lemma_padded_dark_runs(a, b, dx, dy);
    assert(raster::module_size(a) == raster::module_size(b));
    if raster::all_light(a) {
        assert forall|x: int, y: int| !#[trigger] b.dark(x, y) by {
            assert(!a.dark(x - dx, y - dy));
        }
        assert(raster::all_light(b));
    } else {
        lemma_bounds_exist(a);
        let q = raster::dark_bounds(a)->Some_0;
        let s = (q.0 + dx, q.1 + dy, q.2 + dx, q.3 + dy);
        lemma_shifted_bounds(a, b, dx, dy, q);
        raster::lemma_dark_bounds(b, s);
        let pa = raster::placement(a, q);
        let pb = raster::placement(b, s);
        assert forall|i: int| pa.line(a, i) == #[trigger] pb.line(b, i) by {
            assert forall|row: int, column: int|
                pa.module(a, row, column) == #[trigger] pb.module(b, row, column) by {
                let xa = raster::min(pa.left + column * pa.unit + pa.unit / 2, pa.right);
                let ya = raster::min(pa.top + row * pa.unit + pa.unit / 2, pa.bottom);
                let xb = raster::min(pb.left + column * pb.unit + pb.unit / 2, pb.right);
                let yb = raster::min(pb.top + row * pb.unit + pb.unit / 2, pb.bottom);
                assert(xb == xa + dx);
                assert(yb == ya + dy);
                assert(b.dark(xb, yb) == a.dark(xa, ya));
            }
            assert(pa.line(a, i) =~= pb.line(b, i));
        }
        let y = choose|y: int| #[trigger] a.dark(q.0, y);
        assert(a.dark(q.0, y));
        assert(!raster::all_light(b)) by {
            assert(b.dark(q.0 + dx, y + dy));
        }
        assert(raster::terminal_lines(a) =~= raster::terminal_lines(b));
    }
}

proof fn lemma_shifted_bounds(a: Picture, b: Picture, dx: int, dy: int, q: (int, int, int, int))
    requires
        pads(a, b, dx, dy),
        raster::encloses(a, q),
    ensures
        raster::encloses(b, (q.0 + dx, q.1 + dy, q.2 + dx, q.3 + dy)),
{
    let s = (q.0 + dx, q.1 + dy, q.2 + dx, q.3 + dy);
    assert forall|x: int, y: int| #[trigger] b.dark(x, y) implies s.0 <= x <= s.2 && s.1 <= y
        <= s.3 by {
        assert(a.dark(x - dx, y - dy));
    }
    let y = choose|y: int| #[trigger] a.dark(q.0, y);
    assert(a.dark(s.0 - dx, (y + dy) - dy));
    assert(b.dark(s.0, y + dy));
    let y = choose|y: int| #[trigger] a.dark(q.2, y);
    assert(a.dark(s.2 - dx, (y + dy) - dy));
    assert(b.dark(s.2, y + dy));
    let x = choose|x: int| #[trigger] a.dark(x, q.1);
    assert(a.dark((x + dx) - dx, s.1 - dy));
    assert(b.dark(x + dx, s.1));
    let x = choose|x: int| #[trigger] a.dark(x, q.3);
    assert(a.dark((x + dx) - dx, s.3 - dy));
    assert(b.dark(x + dx, s.3));
}

/// A line with light pixels before and after it.
spec fn padded(line: Seq<bool>, before: nat, after: nat) -> Seq<bool> {
    Seq::new(before, |i: int| false) + line + Seq::new(after, |i: int| false)
}

/// A light pixel in front of a line adds no run.
proof fn lemma_light_before(line: Seq<bool>)
    ensures
        raster::trailing_run(seq![false] + line) == raster::trailing_run(line),
        raster::ended_runs(seq![false] + line) == raster::ended_runs(line),
    decreases line.len(),
{
    let longer = seq![false] + line;
    if line.len() == 0 {
        assert(longer =~= seq![false]);
        assert(longer.drop_last() =~= Seq::<bool>::empty());
        assert(raster::trailing_run(longer.drop_last()) == 0);
        assert(raster::ended_runs(longer.drop_last()) =~= Seq::<nat>::empty());
        assert(raster::ended_runs(longer) =~= raster::ended_runs(line));
    } else {
        lemma_light_before(line.drop_last());
        assert(longer.drop_last() =~= seq![false] + line.drop_last());
        assert(longer.last() == line.last());
    }
}

/// Light pixels around a line add no run.
proof fn lemma_padded_runs(line: Seq<bool>, before: nat, after: nat)
    ensures
        raster::line_runs(padded(line, before, after)) == raster::line_runs(line),
    decreases before + after,
{
    if after > 0 {
        let less = padded(line, before, (after - 1) as nat);
        lemma_padded_runs(line, before, (after - 1) as nat);
        let full = padded(line, before, after);
        assert(full.drop_last() =~= less);
        assert(!full.last());
    } else if before > 0 {
        let less = padded(line, (before - 1) as nat, after);
        lemma_padded_runs(line, (before - 1) as nat, after);
        lemma_light_before(less);
        assert(padded(line, before, after) =~= seq![false] + less);
    } else {
        assert(padded(line, before, after) =~= line);
    }
}

/// A light line has no run.
proof fn lemma_no_run(line: Seq<bool>)
    requires
        forall|i: int| 0 <= i < line.len() ==> !#[trigger] line[i],
    ensures
        raster::line_runs(line) == Seq::<nat>::empty(),
{
    lemma_padded_runs(Seq::empty(), line.len(), 0);
    assert(line =~= padded(Seq::empty(), line.len(), 0));
}

proof fn lemma_row_runs(a: Picture, b: Picture, dx: int, dy: int, n: int)
    requires
        pads(a, b, dx, dy),
        0 <= n <= b.height,
    ensures
        raster::row_runs(b, n) == raster::row_runs(a, raster::min(n - dy, a.height as int)),
    decreases n,
{
    if n > 0 {
        lemma_row_runs(a, b, dx, dy, n - 1);
        let y = n - 1;
        assert forall|x: int| #![trigger b.dark(x, y)] b.dark(x, y) == a.dark(x - dx, y - dy) by {}
        if dy <= y < dy + a.height {
            let after = (b.width - a.width - dx) as nat;
            lemma_padded_runs(a.row(y - dy), dx as nat, after);
            assert(b.row(y) =~= padded(a.row(y - dy), dx as nat, after));
        } else {
            lemma_no_run(b.row(y));
            assert(raster::row_runs(b, n) =~= raster::row_runs(b, n - 1));
        }
    }
}

proof fn lemma_column_runs(a: Picture, b: Picture, dx: int, dy: int, n: int)
    requires
        pads(a, b, dx, dy),
        0 <= n <= b.width,
    ensures
        raster::column_runs(b, n) == raster::column_runs(a, raster::min(n - dx, a.width as int)),
    decreases n,
{
    if n > 0 {
        lemma_column_runs(a, b, dx, dy, n - 1);
        let x = n - 1;
        assert forall|y: int| #![trigger b.dark(x, y)] b.dark(x, y) == a.dark(x - dx, y - dy) by {}
        if dx <= x < dx + a.width {
            let after = (b.height - a.height - dy) as nat;
            lemma_padded_runs(a.column(x - dx), dy as nat, after);
            assert(b.column(x) =~= padded(a.column(x - dx), dy as nat, after));
        } else {
            lemma_no_run(b.column(x));
            assert(raster::column_runs(b, n) =~= raster::column_runs(b, n - 1));
        }
    }
}

} // verus!
