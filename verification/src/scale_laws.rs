//! Why the size of the modules of a drawn code is recognised: enlarging a
//! code multiplies all its dark runs.

use vstd::arithmetic::div_mod::{
    lemma_fundamental_div_mod, lemma_fundamental_div_mod_converse, lemma_mod_multiples_basic,
    lemma_small_mod,
};
use vstd::prelude::*;

use crate::qr;
use crate::qr_laws;
use crate::raster;
use crate::raster::{Picture, MAX_MODULE_SIZE};
use crate::raster_laws;

verus! {

/// A code whose modules are recognised when each is a single pixel is shown
/// exactly, whatever the margin and up to the largest size that its modules
/// are looked for in.
pub proof fn law_size_and_margin_do_not_matter(
    code: (nat, Seq<bool>),
    margin: nat,
    unit: nat,
)
    requires
        1 <= unit <= MAX_MODULE_SIZE,
        qr::well_made(code),
        raster::module_size(qr::drawn(code, 0, 1)) == 1,
    ensures
        raster::module_size(qr::drawn(code, margin, unit)) == unit,
        raster::terminal_lines(qr::drawn(code, margin, unit)) == qr_laws::module_lines(code),
{
    qr_laws::lemma_corners_reach_edges(code);
    lemma_module_size(code, margin, unit);
    qr_laws::law_codes_are_shown_module_by_module(code, margin, unit);
}

/// The size of modules is recognised in a larger drawing if it is in the
/// smallest one.
proof fn lemma_module_size(code: (nat, Seq<bool>), margin: nat, unit: nat)
    requires
        1 <= unit <= MAX_MODULE_SIZE,
        qr_laws::reaches_edges(code),
        raster::module_size(qr::drawn(code, 0, 1)) == 1,
    ensures
        raster::module_size(qr::drawn(code, margin, unit)) == unit,
{
    let n = code.0;
    let small = qr::drawn(code, 0, 1);
    let large = qr::drawn(code, margin, unit);
    let runs = raster::dark_runs(small);
    let longer = raster::dark_runs(large);
    let limit = raster::size_limit(large);
    assert(n >= 1) by {
        let row = choose|row: int| #[trigger] qr::module_dark(code, row, 0);
    }
    assert(unit <= (n + 2 * margin) * unit) by (nonlinear_arith)
        requires
            n >= 1,
    ;
    assert(unit <= limit <= MAX_MODULE_SIZE);
    lemma_runs_exist(code);
    lemma_runs_bounded(code);
    assert forall|size: nat| unit < size <= limit implies !#[trigger] raster::fits(
        longer,
        size,
    ) by {
        let k = lemma_period(unit, size);
        lemma_runs_multiplied(code, margin, unit, size, k);
        if k == 1 {
            assert(hit(unit, size, 1) == (1nat % k == 0));
            assert(unit * 1 == unit);
            lemma_small_mod(unit, size);
        }
        if k <= raster::size_limit(small) {
            lemma_largest_fit(runs, raster::size_limit(small), k);
        } else {
            lemma_no_multiples(runs, k);
        }
        assert(!raster::fits(runs, k));
        lemma_shares(
            raster::multiples(runs, k) as int,
            runs.len() as int,
            unit as int,
        );
    }
    if unit >= 2 {
        assert forall|x: nat| #[trigger] hit(unit, unit, x) == (x % 1 == 0) by {
            lemma_mod_multiples_basic(x as int, unit as int);
            assert(unit * x == x * unit) by (nonlinear_arith);
        }
        lemma_runs_multiplied(code, margin, unit, unit, 1);
        lemma_all_multiples(runs);
        lemma_shares(
            raster::multiples(runs, 1) as int,
            runs.len() as int,
            unit as int,
        );
        assert(longer.len() > 0) by (nonlinear_arith)
            requires
                longer.len() == unit * runs.len(),
                runs.len() > 0,
                unit >= 2,
        ;
        assert(raster::fits(longer, unit));
    }
    lemma_largest_fit_is(longer, limit, unit);
}

/// Multiplying both counts leaves a share as it is.
proof fn lemma_shares(part: int, all: int, unit: int)
    requires
        unit >= 1,
    ensures
        (unit * part) * 100 >= (unit * all) * 90 <==> part * 100 >= all * 90,
{
    assert((unit * part) * 100 == unit * (part * 100)) by (nonlinear_arith);
    assert((unit * all) * 90 == unit * (all * 90)) by (nonlinear_arith);
    let a = part * 100;
    let b = all * 90;
    if a >= b {
        assert(unit * a >= unit * b) by (nonlinear_arith)
            requires
                a >= b,
                unit >= 1,
        ;
    } else {
        assert(unit * a < unit * b) by (nonlinear_arith)
            requires
                a < b,
                unit >= 1,
        ;
    }
}

/// Whether `u * x` is a multiple of `s`.
spec fn hit(u: nat, s: nat, x: nat) -> bool {
    (u * x) % s == 0
}

/// There is a number whose multiples are those numbers that become multiples
/// of `s` when multiplied by `u`.
proof fn lemma_period(u: nat, s: nat) -> (k: nat)
    requires
        u >= 1,
        s >= 1,
    ensures
        1 <= k <= s,
        forall|x: nat| #[trigger] hit(u, s, x) == (x % k == 0),
{
    let k = lemma_least_hit(u, s, 1);
    assert forall|x: nat| #[trigger] hit(u, s, x) == (x % k == 0) by {
        let q = x as int / k as int;
        let r = x as int % k as int;
        lemma_fundamental_div_mod(x as int, k as int);
        let a = (u * k) as int / s as int;
        lemma_fundamental_div_mod((u * k) as int, s as int);
        assert(u * x == (a * q) * s + u * r) by (nonlinear_arith)
            requires
                x == k * q + r,
                u * k == s * a,
        ;
        lemma_added_multiple(u * r, a * q, s as int);
        assert((u * x) % s == (u * r) % (s as int));
        let rest = r as nat;
        assert(u * rest == u * r);
        if r > 0 {
            assert(!hit(u, s, rest));
        } else {
            assert(u * r == 0) by (nonlinear_arith)
                requires
                    r == 0,
            ;
            lemma_small_mod(0, s);
        }
    }
    k
}

/// Adding a multiple of `s` changes nothing about the remainder.
proof fn lemma_added_multiple(x: int, q: int, s: int)
    requires
        s >= 1,
    ensures
        (q * s + x) % s == x % s,
{
    vstd::arithmetic::div_mod::lemma_mod_multiples_vanish(q, x, s);
    assert(s * q == q * s) by (nonlinear_arith);
}

/// The least positive number from `from` on that becomes a multiple.
proof fn lemma_least_hit(u: nat, s: nat, from: nat) -> (k: nat)
    requires
        u >= 1,
        1 <= from <= s,
        forall|x: nat| 1 <= x < from ==> !#[trigger] hit(u, s, x),
    ensures
        1 <= k <= s,
        hit(u, s, k),
        forall|x: nat| 1 <= x < k ==> !#[trigger] hit(u, s, x),
    decreases s - from,
{
    if hit(u, s, from) {
        from
    } else {
        if from == s {
            lemma_mod_multiples_basic(u as int, s as int);
        }
        lemma_least_hit(u, s, from + 1)
    }
}

/// If no size was found, none fits.
proof fn lemma_largest_fit(runs: Seq<nat>, limit: nat, size: nat)
    requires
        raster::largest_fit(runs, limit) == 1,
        2 <= size <= limit,
    ensures
        !raster::fits(runs, size),
    decreases limit,
{
    if size < limit {
        lemma_largest_fit(runs, (limit - 1) as nat, size);
    }
}

/// The largest size that fits is found.
proof fn lemma_largest_fit_is(runs: Seq<nat>, limit: nat, size: nat)
    requires
        1 <= size <= limit,
        size >= 2 ==> raster::fits(runs, size),
        forall|s: nat| size < s <= limit ==> !#[trigger] raster::fits(runs, s),
    ensures
        raster::largest_fit(runs, limit) == size,
    decreases limit,
{
    if limit > size {
        assert(!raster::fits(runs, limit));
        lemma_largest_fit_is(runs, (limit - 1) as nat, size);
    }
}

/// Every number is a multiple of 1.
proof fn lemma_all_multiples(runs: Seq<nat>)
    ensures
        raster::multiples(runs, 1) == runs.len(),
    decreases runs.len(),
{
    if runs.len() > 0 {
        lemma_all_multiples(runs.drop_last());
    }
}

/// Whether all runs are between 1 and `n` pixels long.
spec fn bounded(runs: Seq<nat>, n: nat) -> bool {
    forall|i: int| 0 <= i < runs.len() ==> 1 <= #[trigger] runs[i] <= n
}

/// No run is a multiple of a longer one.
proof fn lemma_no_multiples(runs: Seq<nat>, size: nat)
    requires
        size >= 1,
        bounded(runs, (size - 1) as nat),
    ensures
        raster::multiples(runs, size) == 0,
    decreases runs.len(),
{
    if runs.len() > 0 {
        let rest = runs.drop_last();
        assert forall|i: int| 0 <= i < rest.len() implies 1 <= #[trigger] rest[i] <= size - 1 by {
            assert(runs[i] == rest[i]);
        }
        lemma_no_multiples(rest, size);
        assert(runs[runs.len() - 1] == runs.last());
        lemma_small_mod(runs.last(), size);
    }
}

/// Counting multiples part by part.
proof fn lemma_multiples_of_parts(a: Seq<nat>, b: Seq<nat>, size: nat)
    ensures
        raster::multiples(a + b, size) == raster::multiples(a, size) + raster::multiples(b, size),
    decreases b.len(),
{
    if b.len() == 0 {
        assert(a + b =~= a);
    } else {
        assert((a + b).drop_last() =~= a + b.drop_last());
        lemma_multiples_of_parts(a, b.drop_last(), size);
    }
}

/// Runs, all of them so many times as long.
spec fn scaled(runs: Seq<nat>, u: nat) -> Seq<nat> {
    runs.map_values(|run: nat| u * run)
}

/// Counting multiples among runs that are so many times as long.
proof fn lemma_scaled_multiples(runs: Seq<nat>, u: nat, size: nat, k: nat)
    requires
        forall|x: nat| #[trigger] hit(u, size, x) == (x % k == 0),
    ensures
        raster::multiples(scaled(runs, u), size) == raster::multiples(runs, k),
    decreases runs.len(),
{
    if runs.len() > 0 {
        assert(scaled(runs, u).drop_last() =~= scaled(runs.drop_last(), u));
        lemma_scaled_multiples(runs.drop_last(), u, size, k);
        assert(hit(u, size, runs.last()) == (runs.last() % k == 0));
    }
}

/// A line with each pixel so many times.
spec fn stretched(line: Seq<bool>, u: nat) -> Seq<bool> {
    Seq::new(line.len() * u, |i: int| line[i / u as int])
}

/// So many equal pixels.
spec fn equal_pixels(dark: bool, k: nat) -> Seq<bool> {
    Seq::new(k, |i: int| dark)
}

/// Dark pixels at the end of a line make its last run longer.
proof fn lemma_dark_end(line: Seq<bool>, k: nat)
    ensures
        raster::trailing_run(line + equal_pixels(true, k)) == raster::trailing_run(line) + k,
        raster::ended_runs(line + equal_pixels(true, k)) == raster::ended_runs(line),
    decreases k,
{
    let longer = line + equal_pixels(true, k);
    if k == 0 {
        assert(longer =~= line);
    } else {
        lemma_dark_end(line, (k - 1) as nat);
        assert(longer.drop_last() =~= line + equal_pixels(true, (k - 1) as nat));
    }
}

/// Light pixels at the end of a line end its last run.
proof fn lemma_light_end(line: Seq<bool>, k: nat)
    requires
        k >= 1,
    ensures
        raster::trailing_run(line + equal_pixels(false, k)) == 0,
        raster::ended_runs(line + equal_pixels(false, k)) == raster::line_runs(line),
    decreases k,
{
    let longer = line + equal_pixels(false, k);
    assert(longer.drop_last() =~= line + equal_pixels(false, (k - 1) as nat));
    if k == 1 {
        assert(longer.drop_last() =~= line);
    } else {
        lemma_light_end(line, (k - 1) as nat);
    }
}

/// Stretching a line makes its runs longer.
proof fn lemma_stretched(line: Seq<bool>, u: nat)
    requires
        u >= 1,
    ensures
        raster::trailing_run(stretched(line, u)) == u * raster::trailing_run(line),
        raster::ended_runs(stretched(line, u)) == scaled(raster::ended_runs(line), u),
        raster::line_runs(stretched(line, u)) == scaled(raster::line_runs(line), u),
    decreases line.len(),
{
    let long = stretched(line, u);
    if line.len() == 0 {
        assert(long.len() == 0) by (nonlinear_arith)
            requires
                long.len() == line.len() * u,
                line.len() == 0,
        ;
        assert(raster::ended_runs(long) =~= scaled(raster::ended_runs(line), u));
        assert(u * 0 == 0);
    } else {
        let rest = line.drop_last();
        let t = raster::trailing_run(rest);
        lemma_stretched(rest, u);
        lemma_stretched_last(line, u);
        assert(t > 0 ==> u * t > 0) by (nonlinear_arith)
            requires
                u >= 1,
        ;
        if line.last() {
            lemma_dark_end(stretched(rest, u), u);
            assert(u * (1 + t) == u * t + u) by (nonlinear_arith);
        } else {
            lemma_light_end(stretched(rest, u), u);
            assert(u * 0 == 0);
            assert(raster::ended_runs(long) =~= scaled(raster::ended_runs(line), u));
        }
    }
    let t = raster::trailing_run(line);
    assert(t > 0 ==> u * t > 0) by (nonlinear_arith)
        requires
            u >= 1,
    ;
    assert(t == 0 ==> u * t == 0) by (nonlinear_arith);
    assert(raster::line_runs(long) =~= scaled(raster::line_runs(line), u));
}

/// A stretched line ends with its last pixel, so many times.
proof fn lemma_stretched_last(line: Seq<bool>, u: nat)
    requires
        u >= 1,
        line.len() > 0,
    ensures
        stretched(line, u) == stretched(line.drop_last(), u) + equal_pixels(line.last(), u),
{
    let long = stretched(line, u);
    let rest = line.drop_last();
    let cut = rest.len() * u;
    assert(line.len() * u == cut + u) by (nonlinear_arith)
        requires
            cut == (line.len() - 1) * u,
    ;
    assert forall|i: int| 0 <= i < long.len() implies long[i] == (stretched(rest, u) + equal_pixels(
        line.last(),
        u,
    ))[i] by {
        let q = i / u as int;
        lemma_fundamental_div_mod(i, u as int);
        assert(0 <= i % u as int);
        if i < cut {
            assert(q < rest.len()) by (nonlinear_arith)
                requires
                    i < rest.len() * u,
                    i >= u * q,
                    u >= 1,
            ;
            assert(q >= 0) by (nonlinear_arith)
                requires
                    q == i / u as int,
                    i >= 0,
                    u >= 1,
            ;
            assert(rest[q] == line[q]);
        } else {
            lemma_fundamental_div_mod_converse(i, u as int, rest.len() as int, i - cut);
        }
    }
    assert(long =~= stretched(rest, u) + equal_pixels(line.last(), u));
}

/// The runs of some lines.
spec fn bundle(lines: Seq<Seq<bool>>) -> Seq<nat>
    decreases lines.len(),
{
    if lines.len() == 0 {
        Seq::empty()
    } else {
        bundle(lines.drop_last()) + raster::line_runs(lines.last())
    }
}

/// The same line so many times.
spec fn equal_lines(line: Seq<bool>, k: nat) -> Seq<Seq<bool>> {
    Seq::new(k, |i: int| line)
}

/// Lines with each pixel so many times, in both directions.
spec fn enlarged(lines: Seq<Seq<bool>>, u: nat) -> Seq<Seq<bool>> {
    Seq::new(lines.len() * u, |i: int| stretched(lines[i / u as int], u))
}

/// The runs of lines, part by part.
proof fn lemma_bundle_of_parts(a: Seq<Seq<bool>>, b: Seq<Seq<bool>>)
    ensures
        bundle(a + b) == bundle(a) + bundle(b),
    decreases b.len(),
{
    if b.len() == 0 {
        assert(a + b =~= a);
        assert(bundle(a) + bundle(b) =~= bundle(a));
    } else {
        assert((a + b).drop_last() =~= a + b.drop_last());
        lemma_bundle_of_parts(a, b.drop_last());
        assert(bundle(a + b) =~= bundle(a) + bundle(b));
    }
}

/// Equal lines multiply the numbers of runs.
proof fn lemma_equal_lines(line: Seq<bool>, k: nat, size: nat)
    ensures
        bundle(equal_lines(line, k)).len() == k * raster::line_runs(line).len(),
        raster::multiples(bundle(equal_lines(line, k)), size) == k * raster::multiples(
            raster::line_runs(line),
            size,
        ),
    decreases k,
{
    let lines = equal_lines(line, k);
    let per = raster::line_runs(line).len() as int;
    let hits = raster::multiples(raster::line_runs(line), size) as int;
    if k == 0 {
        assert(0 * per == 0 && 0 * hits == 0);
    } else {
        let less = equal_lines(line, (k - 1) as nat);
        lemma_equal_lines(line, (k - 1) as nat, size);
        assert(lines.drop_last() =~= less);
        lemma_multiples_of_parts(bundle(less), raster::line_runs(line), size);
        assert((k - 1) * per + per == k * per) by (nonlinear_arith);
        assert((k - 1) * hits + hits == k * hits) by (nonlinear_arith);
    }
}

/// Enlarging lines multiplies the numbers of runs, and the runs.
proof fn lemma_enlarged(lines: Seq<Seq<bool>>, u: nat, size: nat, k: nat)
    requires
        u >= 1,
        forall|x: nat| #[trigger] hit(u, size, x) == (x % k == 0),
    ensures
        bundle(enlarged(lines, u)).len() == u * bundle(lines).len(),
        raster::multiples(bundle(enlarged(lines, u)), size) == u * raster::multiples(
            bundle(lines),
            k,
        ),
    decreases lines.len(),
{
    let large = enlarged(lines, u);
    if lines.len() == 0 {
        assert(large.len() == 0) by (nonlinear_arith)
            requires
                large.len() == lines.len() * u,
                lines.len() == 0,
        ;
        assert(u * 0 == 0);
    } else {
        let rest = lines.drop_last();
        let last = stretched(lines.last(), u);
        let runs = raster::line_runs(lines.last());
        lemma_enlarged(rest, u, size, k);
        lemma_enlarged_last(lines, u);
        lemma_bundle_of_parts(enlarged(rest, u), equal_lines(last, u));
        lemma_equal_lines(last, u, size);
        lemma_stretched(lines.last(), u);
        lemma_scaled_multiples(runs, u, size, k);
        lemma_multiples_of_parts(
            bundle(enlarged(rest, u)),
            bundle(equal_lines(last, u)),
            size,
        );
        lemma_multiples_of_parts(bundle(rest), runs, k);
        lemma_distribute(u as int, bundle(rest).len() as int, runs.len() as int);
        lemma_distribute(
            u as int,
            raster::multiples(bundle(rest), k) as int,
            raster::multiples(runs, k) as int,
        );
    }
}

/// Multiplying a sum.
proof fn lemma_distribute(u: int, a: int, b: int)
    ensures
        u * (a + b) == u * a + u * b,
{
    assert(u * (a + b) == u * a + u * b) by (nonlinear_arith);
}

/// Enlarged lines end with the last one, so many times.
proof fn lemma_enlarged_last(lines: Seq<Seq<bool>>, u: nat)
    requires
        u >= 1,
        lines.len() > 0,
    ensures
        enlarged(lines, u) == enlarged(lines.drop_last(), u) + equal_lines(
            stretched(lines.last(), u),
            u,
        ),
{
    let large = enlarged(lines, u);
    let rest = lines.drop_last();
    let last = stretched(lines.last(), u);
    let cut = rest.len() * u;
    assert(lines.len() * u == cut + u) by (nonlinear_arith)
        requires
            cut == (lines.len() - 1) * u,
    ;
    assert forall|i: int| 0 <= i < large.len() implies large[i] == (enlarged(rest, u) + equal_lines(
        last,
        u,
    ))[i] by {
        let q = i / u as int;
        lemma_fundamental_div_mod(i, u as int);
        assert(0 <= i % u as int);
        if i < cut {
            assert(q < rest.len()) by (nonlinear_arith)
                requires
                    i < rest.len() * u,
                    i >= u * q,
                    u >= 1,
            ;
            assert(q >= 0) by (nonlinear_arith)
                requires
                    q == i / u as int,
                    i >= 0,
                    u >= 1,
            ;
            assert(rest[q] == lines[q]);
        } else {
            lemma_fundamental_div_mod_converse(i, u as int, rest.len() as int, i - cut);
        }
    }
    assert(large =~= enlarged(rest, u) + equal_lines(last, u));
}

/// The rows of a code.
spec fn code_rows(code: (nat, Seq<bool>)) -> Seq<Seq<bool>> {
    Seq::new(code.0, |row: int| Seq::new(code.0, |column: int| qr::module_dark(code, row, column)))
}

/// The columns of a code.
spec fn code_columns(code: (nat, Seq<bool>)) -> Seq<Seq<bool>> {
    Seq::new(code.0, |column: int| Seq::new(code.0, |row: int| qr::module_dark(code, row, column)))
}

/// The runs of rows are the runs of those lines.
proof fn lemma_row_bundle(image: Picture, lines: Seq<Seq<bool>>)
    requires
        forall|i: int| 0 <= i < lines.len() ==> #[trigger] lines[i] == image.row(i),
    ensures
        raster::row_runs(image, lines.len() as int) == bundle(lines),
    decreases lines.len(),
{
    if lines.len() > 0 {
        let rest = lines.drop_last();
        assert forall|i: int| 0 <= i < rest.len() implies #[trigger] rest[i] == image.row(i) by {
            assert(lines[i] == rest[i]);
        }
        lemma_row_bundle(image, rest);
        assert(lines[lines.len() - 1] == lines.last());
    }
}

/// The runs of columns are the runs of those lines.
proof fn lemma_column_bundle(image: Picture, lines: Seq<Seq<bool>>)
    requires
        forall|i: int| 0 <= i < lines.len() ==> #[trigger] lines[i] == image.column(i),
    ensures
        raster::column_runs(image, lines.len() as int) == bundle(lines),
    decreases lines.len(),
{
    if lines.len() > 0 {
        let rest = lines.drop_last();
        assert forall|i: int| 0 <= i < rest.len() implies #[trigger] rest[i] == image.column(
            i,
        ) by {
            assert(lines[i] == rest[i]);
        }
        lemma_column_bundle(image, rest);
        assert(lines[lines.len() - 1] == lines.last());
    }
}

/// The runs of a code that is drawn without a margin.
proof fn lemma_drawn_runs(code: (nat, Seq<bool>), unit: nat)
    requires
        unit >= 1,
    ensures
        raster::dark_runs(qr::drawn(code, 0, unit)) == bundle(enlarged(code_rows(code), unit))
            + bundle(enlarged(code_columns(code), unit)),
{
    let n = code.0;
    let u = unit as int;
    let image = qr::drawn(code, 0, unit);
    let side = n * unit;
    let rows = enlarged(code_rows(code), unit);
    let columns = enlarged(code_columns(code), unit);
    assert forall|i: int| 0 <= i < rows.len() implies #[trigger] rows[i] == image.row(i) by {
        lemma_quotient(i, n as int, u);
        assert forall|j: int| 0 <= j < side implies rows[i][j] == image.row(i)[j] by {
            lemma_quotient(j, n as int, u);
            qr_laws::lemma_drawn_dark(code, 0, unit, j, i);
        }
        assert(rows[i] =~= image.row(i));
    }
    assert forall|i: int| 0 <= i < columns.len() implies #[trigger] columns[i] == image.column(
        i,
    ) by {
        lemma_quotient(i, n as int, u);
        assert forall|j: int| 0 <= j < side implies columns[i][j] == image.column(i)[j] by {
            lemma_quotient(j, n as int, u);
            qr_laws::lemma_drawn_dark(code, 0, unit, i, j);
        }
        assert(columns[i] =~= image.column(i));
    }
    lemma_row_bundle(image, rows);
    lemma_column_bundle(image, columns);
}

/// A position in an enlarged line belongs to a position in the line.
proof fn lemma_quotient(i: int, n: int, u: int)
    requires
        u >= 1,
        0 <= i < n * u,
    ensures
        0 <= i / u < n,
{
    lemma_fundamental_div_mod(i, u);
    let q = i / u;
    assert(0 <= q < n) by (nonlinear_arith)
        requires
            i == u * q + i % u,
            0 <= i % u < u,
            0 <= i < n * u,
            u >= 1,
    ;
}

/// Drawing a code larger, and with a margin, multiplies the numbers of its
/// runs, and the runs.
proof fn lemma_runs_multiplied(
    code: (nat, Seq<bool>),
    margin: nat,
    unit: nat,
    size: nat,
    k: nat,
)
    requires
        unit >= 1,
        forall|x: nat| #[trigger] hit(unit, size, x) == (x % k == 0),
    ensures
        raster::dark_runs(qr::drawn(code, margin, unit)).len() == unit * raster::dark_runs(
            qr::drawn(code, 0, 1),
        ).len(),
        raster::multiples(raster::dark_runs(qr::drawn(code, margin, unit)), size) == unit
            * raster::multiples(raster::dark_runs(qr::drawn(code, 0, 1)), k),
{
    let rows = code_rows(code);
    let columns = code_columns(code);
    lemma_margin(code, margin, unit);
    lemma_drawn_runs(code, unit);
    lemma_drawn_runs(code, 1);
    lemma_not_enlarged(rows);
    lemma_not_enlarged(columns);
    lemma_enlarged(rows, unit, size, k);
    lemma_enlarged(columns, unit, size, k);
    lemma_multiples_of_parts(
        bundle(enlarged(rows, unit)),
        bundle(enlarged(columns, unit)),
        size,
    );
    lemma_multiples_of_parts(bundle(rows), bundle(columns), k);
    lemma_distribute(unit as int, bundle(rows).len() as int, bundle(columns).len() as int);
    lemma_distribute(
        unit as int,
        raster::multiples(bundle(rows), k) as int,
        raster::multiples(bundle(columns), k) as int,
    );
}

/// Enlarging lines by 1 changes nothing.
proof fn lemma_not_enlarged(lines: Seq<Seq<bool>>)
    ensures
        enlarged(lines, 1) == lines,
{
    let same = enlarged(lines, 1);
    assert forall|i: int| 0 <= i < lines.len() implies same[i] == lines[i] by {
        assert(i / 1 == i);
        assert(stretched(lines[i], 1) =~= lines[i]);
    }
    assert(same =~= lines);
}

/// A margin changes nothing about the runs of a drawn code.
proof fn lemma_margin(code: (nat, Seq<bool>), margin: nat, unit: nat)
    requires
        unit >= 1,
    ensures
        raster::dark_runs(qr::drawn(code, margin, unit)) == raster::dark_runs(
            qr::drawn(code, 0, unit),
        ),
{
    let n = code.0 as int;
    let m = margin as int;
    let u = unit as int;
    let a = qr::drawn(code, 0, unit);
    let b = qr::drawn(code, margin, unit);
    let d = m * u;
    assert((n + 2 * m) * u == n * u + d + d) by (nonlinear_arith)
        requires
            d == m * u,
    ;
    assert(d >= 0) by (nonlinear_arith)
        requires
            d == m * u,
            m >= 0,
            u >= 1,
    ;
    assert(n * u >= 0) by (nonlinear_arith)
        requires
            n >= 0,
            u >= 1,
    ;
    assert forall|x: int, y: int| #[trigger] b.dark(x, y) <==> a.dark(x - d, y - d) by {
        if 0 <= x < b.width && 0 <= y < b.height {
            qr_laws::lemma_drawn_dark(code, margin, unit, x, y);
            lemma_shifted(x, m, u);
            lemma_shifted(y, m, u);
            if 0 <= x - d < n * u && 0 <= y - d < n * u {
                qr_laws::lemma_drawn_dark(code, 0, unit, x - d, y - d);
            } else {
                if qr::module_dark(code, y / u - m, x / u - m) {
                    qr_laws::lemma_within(m, n, u, x);
                    qr_laws::lemma_within(m, n, u, y);
                    assert((m + n) * u == d + n * u) by (nonlinear_arith)
                        requires
                            d == m * u,
                    ;
                }
            }
        }
    }
    raster_laws::lemma_padded_dark_runs(a, b, d, d);
}

/// The module that a pixel belongs to, counted from the margin.
proof fn lemma_shifted(x: int, m: int, u: int)
    requires
        u >= 1,
    ensures
        (x - m * u) / u == x / u - m,
{
    let q = x / u;
    let r = x % u;
    lemma_fundamental_div_mod(x, u);
    assert(x - m * u == (q - m) * u + r) by (nonlinear_arith)
        requires
            x == u * q + r,
    ;
    lemma_fundamental_div_mod_converse(x - m * u, u, q - m, r);
}

/// The runs of a line are not longer than the line, and not empty.
proof fn lemma_line_runs_bounded(line: Seq<bool>)
    ensures
        raster::trailing_run(line) <= line.len(),
        bounded(raster::ended_runs(line), line.len()),
        bounded(raster::line_runs(line), line.len()),
    decreases line.len(),
{
    if line.len() > 0 {
        lemma_line_runs_bounded(line.drop_last());
    }
}

/// The runs of lines are not longer than the lines, and not empty.
proof fn lemma_bundle_bounded(lines: Seq<Seq<bool>>, n: nat)
    requires
        forall|i: int| 0 <= i < lines.len() ==> (#[trigger] lines[i]).len() == n,
    ensures
        bounded(bundle(lines), n),
    decreases lines.len(),
{
    if lines.len() > 0 {
        let rest = lines.drop_last();
        assert forall|i: int| 0 <= i < rest.len() implies (#[trigger] rest[i]).len() == n by {
            assert(lines[i] == rest[i]);
        }
        lemma_bundle_bounded(rest, n);
        lemma_line_runs_bounded(lines.last());
        assert(lines[lines.len() - 1] == lines.last());
        let before = bundle(rest);
        let all = bundle(lines);
        assert forall|i: int| 0 <= i < all.len() implies 1 <= #[trigger] all[i] <= n by {
            if i < before.len() {
                assert(all[i] == before[i]);
            } else {
                assert(all[i] == raster::line_runs(lines.last())[i - before.len()]);
            }
        }
    }
}

/// The runs of a code are not longer than its rows, and not empty.
proof fn lemma_runs_bounded(code: (nat, Seq<bool>))
    ensures
        bounded(raster::dark_runs(qr::drawn(code, 0, 1)), code.0),
{
    lemma_drawn_runs(code, 1);
    lemma_not_enlarged(code_rows(code));
    lemma_not_enlarged(code_columns(code));
    lemma_bundle_bounded(code_rows(code), code.0);
    lemma_bundle_bounded(code_columns(code), code.0);
    let a = bundle(code_rows(code));
    let b = bundle(code_columns(code));
    assert forall|i: int| 0 <= i < (a + b).len() implies 1 <= #[trigger] (a + b)[i] <= code.0 by {
        if i < a.len() {
            assert((a + b)[i] == a[i]);
        } else {
            assert((a + b)[i] == b[i - a.len()]);
        }
    }
}

/// A line with a dark pixel has a run.
proof fn lemma_dark_line(line: Seq<bool>, i: int)
    requires
        0 <= i < line.len(),
        line[i],
    ensures
        raster::line_runs(line).len() > 0,
    decreases line.len(),
{
    if i < line.len() - 1 {
        lemma_dark_line(line.drop_last(), i);
    }
}

/// Lines with a dark pixel have a run.
proof fn lemma_dark_bundle(lines: Seq<Seq<bool>>, i: int, j: int)
    requires
        0 <= i < lines.len(),
        0 <= j < lines[i].len(),
        lines[i][j],
    ensures
        bundle(lines).len() > 0,
    decreases lines.len(),
{
    if i < lines.len() - 1 {
        lemma_dark_bundle(lines.drop_last(), i, j);
    } else {
        lemma_dark_line(lines.last(), j);
    }
}

/// A code with a dark module has a run.
proof fn lemma_runs_exist(code: (nat, Seq<bool>))
    requires
        qr_laws::reaches_edges(code),
    ensures
        raster::dark_runs(qr::drawn(code, 0, 1)).len() > 0,
{
    let row = choose|row: int| #[trigger] qr::module_dark(code, row, 0);
    lemma_drawn_runs(code, 1);
    lemma_not_enlarged(code_rows(code));
    lemma_not_enlarged(code_columns(code));
    lemma_dark_bundle(code_rows(code), row, 0);
}

} // verus!
