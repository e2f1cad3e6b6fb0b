//! What holds of codes once they are drawn and shown.

use vstd::arithmetic::div_mod::lemma_fundamental_div_mod_converse;
use vstd::prelude::*;

use crate::qr;
use crate::qr::{QrFailure, ReadingModel, StepModel};
use crate::raster;
use crate::raster::QUIET_ZONE_MODULES;

verus! {

/// Whether a code has a dark module in its first and its last row and column,
/// as the marks in the corners of a code make sure of.
pub open spec fn reaches_edges(code: (nat, Seq<bool>)) -> bool {
    &&& exists|row: int| #[trigger] qr::module_dark(code, row, 0)
    &&& exists|row: int| #[trigger] qr::module_dark(code, row, code.0 - 1)
    &&& exists|column: int| #[trigger] qr::module_dark(code, 0, column)
    &&& exists|column: int| #[trigger] qr::module_dark(code, code.0 - 1, column)
}

/// The lines that show the modules of a code, two rows of them on each line,
/// with a quiet zone around them.
pub open spec fn module_lines(code: (nat, Seq<bool>)) -> Seq<Seq<char>> {
    let side = code.0 + 2 * QUIET_ZONE_MODULES;
    Seq::new(
        raster::ceiling(side, 2) as nat,
        |i: int|
            Seq::new(
                side as nat,
                |j: int|
                    raster::half_block(
                        qr::module_dark(
                            code,
                            2 * i - QUIET_ZONE_MODULES,
                            j - QUIET_ZONE_MODULES,
                        ),
                        qr::module_dark(
                            code,
                            2 * i + 1 - QUIET_ZONE_MODULES,
                            j - QUIET_ZONE_MODULES,
                        ),
                    ),
            ),
    )
}

/// However large the modules of a code are drawn, and with whatever margin:
/// where their size is recognised, exactly the modules are shown.
pub proof fn law_codes_are_shown_module_by_module(
    code: (nat, Seq<bool>),
    margin: nat,
    unit: nat,
)
    requires
        unit >= 1,
        reaches_edges(code),
        raster::module_size(qr::drawn(code, margin, unit)) == unit,
    ensures
        raster::terminal_lines(qr::drawn(code, margin, unit)) == module_lines(code),
{
    let n = code.0 as int;
    let m = margin as int;
    let u = unit as int;
    let image = qr::drawn(code, margin, unit);
    let b = (m * u, m * u, (m + n) * u - 1, (m + n) * u - 1);
    lemma_drawn_bounds(code, margin, unit);
    raster::lemma_dark_bounds(image, b);
    let p = raster::placement(image, b);
    assert(b.2 - b.0 + 1 == n * u) by (nonlinear_arith)
        requires
            b.0 == m * u,
            b.2 == (m + n) * u - 1,
    ;
    lemma_whole(n, u);
    assert(p.columns() == n && p.rows() == n);
    assert forall|row: int, column: int|
        #![trigger p.module(image, row, column)]
        p.module(image, row, column) == qr::module_dark(code, row, column) by {
        if 0 <= row < n && 0 <= column < n {
            lemma_centre(m, n, u, column);
            lemma_centre(m, n, u, row);
            let x = raster::min(b.0 + column * u + u / 2, b.2);
            let y = raster::min(b.1 + row * u + u / 2, b.3);
            lemma_drawn_dark(code, margin, unit, x, y);
        }
    }
    let lines = raster::terminal_lines(image);
    let expected = module_lines(code);
    assert forall|i: int| 0 <= i < lines.len() implies lines[i] == expected[i] by {
        assert(lines[i] == p.line(image, i));
        assert(p.line(image, i) =~= expected[i]);
    }
    assert(lines =~= expected);
}

/// The lines for what was read show the modules of its code, wherever a code
/// of single pixels is recognised as one.
pub proof fn law_logins_show_their_code(contents: Seq<Option<Seq<char>>>)
    requires
        qr::shown_code(contents) is Ok,
        qr::well_made(qr::shown_code(contents)->Ok_0),
        raster::module_size(qr::drawn(qr::shown_code(contents)->Ok_0, 0, 1)) == 1,
    ensures
        qr::shown_lines(contents) == Ok::<Seq<Seq<char>>, QrFailure>(
            module_lines(qr::shown_code(contents)->Ok_0),
        ),
{
    let code = qr::shown_code(contents)->Ok_0;
    lemma_corners_reach_edges(code);
    law_codes_are_shown_module_by_module(code, 0, 1);
}

/// What a payload comes to, given how files are read: the file that it stands
/// for is read, and what its codes hold is shown.
pub open spec fn outcome(payload: Seq<char>, read: spec_fn(Seq<u8>) -> ReadingModel) -> Result<
    Seq<Seq<char>>,
    QrFailure,
> {
    let decoded_is_image = qr::base64_decoded(payload) is Some && read(
        qr::base64_decoded(payload)->Some_0,
    ) is Codes;
    match qr::payload_file(payload, decoded_is_image) {
        Err(e) => Err(e),
        Ok(file) => match read(file) {
            ReadingModel::NotAnImage => Err(QrFailure::NotAnImage),
            ReadingModel::Codes(contents) => qr::shown_lines(contents),
        },
    }
}

/// However files are read: step by step a payload comes to its outcome, after
/// at most two readings.
pub proof fn law_steps_lead_to_the_outcome(
    payload: Seq<char>,
    read: spec_fn(Seq<u8>) -> ReadingModel,
)
    ensures
        match qr::first_step(payload) {
            StepModel::Done(result) => result == outcome(payload, read),
            StepModel::Read(file, bare) => match qr::next_step(payload, bare, read(file)) {
                StepModel::Done(result) => result == outcome(payload, read),
                StepModel::Read(second, again) => qr::next_step(payload, again, read(second))
                    == StepModel::Done(outcome(payload, read)),
            },
        },
{
}

/// The marks in its corners make a code reach its edges.
pub proof fn lemma_corners_reach_edges(code: (nat, Seq<bool>))
    requires
        qr::well_made(code),
    ensures
        reaches_edges(code),
{
    assert(qr::module_dark(code, 0, 0));
    assert(qr::module_dark(code, 0, code.0 - 1));
    assert(qr::module_dark(code, code.0 - 1, 0));
}

/// `n` modules fill `n * u` pixels.
proof fn lemma_whole(n: int, u: int)
    requires
        u >= 1,
    ensures
        raster::ceiling(n * u, u) == n,
{
    assert(n * u + u - 1 == n * u + (u - 1));
    lemma_fundamental_div_mod_converse(n * u + u - 1, u, n, u - 1);
}

/// The centre of a module lies in that module.
proof fn lemma_centre(m: int, n: int, u: int, k: int)
    requires
        0 <= m,
        1 <= u,
        0 <= k < n,
    ensures
        0 <= raster::min(m * u + k * u + u / 2, (m + n) * u - 1),
        raster::min(m * u + k * u + u / 2, (m + n) * u - 1) / u - m == k,
        raster::min(m * u + k * u + u / 2, (m + n) * u - 1) < (n + 2 * m) * u,
{
    let x = m * u + k * u + u / 2;
    assert(x == (m + k) * u + u / 2) by (nonlinear_arith)
        requires
            x == m * u + k * u + u / 2,
    ;
    assert((m + k) * u + u <= (m + n) * u) by (nonlinear_arith)
        requires
            k < n,
            u >= 1,
    ;
    assert((m + n) * u <= (n + 2 * m) * u) by (nonlinear_arith)
        requires
            m >= 0,
            u >= 1,
    ;
    assert(0 <= (m + k) * u) by (nonlinear_arith)
        requires
            m >= 0,
            k >= 0,
            u >= 1,
    ;
    lemma_fundamental_div_mod_converse(x, u, m + k, u / 2);
}

/// A drawn pixel is as dark as the module that it belongs to.
pub proof fn lemma_drawn_dark(code: (nat, Seq<bool>), margin: nat, unit: nat, x: int, y: int)
    requires
        unit >= 1,
        0 <= x < (code.0 + 2 * margin) * unit,
        0 <= y < (code.0 + 2 * margin) * unit,
    ensures
        qr::drawn(code, margin, unit).dark(x, y) == qr::module_dark(
            code,
            y / unit as int - margin,
            x / unit as int - margin,
        ),
{
    let side = (code.0 + 2 * margin) * unit;
    let i = y * side + x;
    assert(0 <= i < side * side) by (nonlinear_arith)
        requires
            0 <= x < side,
            0 <= y < side,
            i == y * side + x,
    ;
    lemma_fundamental_div_mod_converse(i, side as int, y, x);
}

/// The dark pixels of a drawn code fill the rectangle of its modules.
proof fn lemma_drawn_bounds(code: (nat, Seq<bool>), margin: nat, unit: nat)
    requires
        unit >= 1,
        reaches_edges(code),
    ensures
        raster::encloses(
            qr::drawn(code, margin, unit),
            (
                (margin * unit) as int,
                (margin * unit) as int,
                (margin + code.0) * unit - 1,
                (margin + code.0) * unit - 1,
            ),
        ),
{
    let n = code.0 as int;
    let m = margin as int;
    let u = unit as int;
    let image = qr::drawn(code, margin, unit);
    let low = m * u;
    let high = (m + n) * u - 1;
    assert forall|x: int, y: int| #[trigger] image.dark(x, y) implies low <= x <= high && low <= y
        <= high by {
        lemma_drawn_dark(code, margin, unit, x, y);
        lemma_within(m, n, u, x);
        lemma_within(m, n, u, y);
    }
    let left = choose|row: int| #[trigger] qr::module_dark(code, row, 0);
    lemma_corner(code, margin, unit, left, 0, false, false);
    let right = choose|row: int| #[trigger] qr::module_dark(code, row, code.0 - 1);
    lemma_corner(code, margin, unit, right, n - 1, false, true);
    let top = choose|column: int| #[trigger] qr::module_dark(code, 0, column);
    lemma_corner(code, margin, unit, 0, top, false, false);
    let bottom = choose|column: int| #[trigger] qr::module_dark(code, code.0 - 1, column);
    lemma_corner(code, margin, unit, n - 1, bottom, true, false);
    assert(0 * u == 0);
    assert(high == m * u + (n - 1) * u + (u - 1)) by (nonlinear_arith)
        requires
            high == (m + n) * u - 1,
    ;
    let b = (low, low, high, high);
    assert(image.dark(b.0, m * u + left * u));
    assert(image.dark(m * u + top * u, b.1));
    assert(image.dark(b.2, m * u + right * u));
    assert(image.dark(m * u + bottom * u, b.3));
    assert(raster::encloses(image, b));
}

/// A pixel of a module of the code lies between the margins.
pub proof fn lemma_within(m: int, n: int, u: int, x: int)
    requires
        1 <= u,
        0 <= x / u - m < n,
    ensures
        m * u <= x <= (m + n) * u - 1,
{
    let q = x / u;
    vstd::arithmetic::div_mod::lemma_fundamental_div_mod(x, u);
    assert(m * u <= q * u) by (nonlinear_arith)
        requires
            m <= q,
            u >= 1,
    ;
    assert(q * u + u <= (m + n) * u) by (nonlinear_arith)
        requires
            q + 1 <= m + n,
            u >= 1,
    ;
    assert(q * u == u * q) by (nonlinear_arith);
}

/// The first or the last pixel of a dark module is dark.
proof fn lemma_corner(
    code: (nat, Seq<bool>),
    margin: nat,
    unit: nat,
    row: int,
    column: int,
    lowest: bool,
    rightmost: bool,
)
    requires
        unit >= 1,
        qr::module_dark(code, row, column),
    ensures
        qr::drawn(code, margin, unit).dark(
            margin * unit + column * unit + if rightmost {
                unit - 1
            } else {
                0
            },
            margin * unit + row * unit + if lowest {
                unit - 1
            } else {
                0
            },
        ),
{
    let m = margin as int;
    let n = code.0 as int;
    let u = unit as int;
    let dx = if rightmost {
        u - 1
    } else {
        0
    };
    let dy = if lowest {
        u - 1
    } else {
        0
    };
    lemma_pixel(m, n, u, column, dx);
    lemma_pixel(m, n, u, row, dy);
    lemma_drawn_dark(code, margin, unit, m * u + column * u + dx, m * u + row * u + dy);
}

/// A pixel of a module, from the position of the module.
proof fn lemma_pixel(m: int, n: int, u: int, k: int, d: int)
    requires
        0 <= m,
        1 <= u,
        0 <= k < n,
        0 <= d < u,
    ensures
        0 <= m * u + k * u + d < (n + 2 * m) * u,
        (m * u + k * u + d) / u - m == k,
{
    let x = m * u + k * u + d;
    assert(x == (m + k) * u + d) by (nonlinear_arith)
        requires
            x == m * u + k * u + d,
    ;
    assert((m + k) * u + u <= (n + 2 * m) * u) by (nonlinear_arith)
        requires
            k < n,
            m >= 0,
            u >= 1,
    ;
    assert(0 <= (m + k) * u) by (nonlinear_arith)
        requires
            m >= 0,
            k >= 0,
            u >= 1,
    ;
    lemma_fundamental_div_mod_converse(x, u, m + k, d);
}

} // verus!
