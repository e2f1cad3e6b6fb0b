//! How codes are drawn, found in a payload and sampled from an image.

use vstd::arithmetic::div_mod::lemma_fundamental_div_mod_converse;
use vstd::prelude::*;

use crate::qr;
use crate::qr::{QrFailure, ReadingModel, StepModel};
use crate::raster;
use crate::raster::Picture;
use crate::raster_laws;
use crate::text;
use crate::text_laws;

verus! {

/// A pixel is dark if it lies in the image and is nearer to black than to white.
pub proof fn law_dark_pixels_are_below_half(image: Picture, x: int, y: int)
    ensures
        image.dark(x, y) <==> 0 <= x < image.width && 0 <= y < image.height && image.pixels[y
            * image.width + x] <= 127,
        0 <= x < image.width ==> image.row(y).len() == image.width && image.row(y)[x] == image.dark(
            x,
            y,
        ),
        0 <= y < image.height ==> image.column(x).len() == image.height && image.column(x)[y]
            == image.dark(x, y),
{
}

/// So many dark pixels.
pub open spec fn dark_pixels(k: nat) -> Seq<bool> {
    Seq::new(k, |i: int| true)
}

/// Dark pixels in a row are one run, and light pixels part the runs of a line.
pub proof fn law_light_pixels_part_runs(a: Seq<bool>, b: Seq<bool>, k: nat)
    ensures
        raster::line_runs(seq![]).len() == 0,
        k > 0 ==> raster::line_runs(dark_pixels(k)) == seq![k],
        raster::line_runs(a + seq![false] + b) == raster::line_runs(a) + raster::line_runs(b),
{
    lemma_dark_pixels(k);
    lemma_parted(a, b);
    let line = a + seq![false] + b;
    assert(raster::line_runs(line) =~= raster::line_runs(a) + raster::line_runs(b));
    if k > 0 {
        assert(raster::line_runs(dark_pixels(k)) =~= seq![k]);
    }
}

/// A line of dark pixels is one run that nothing ends.
proof fn lemma_dark_pixels(k: nat)
    ensures
        raster::trailing_run(dark_pixels(k)) == k,
        raster::ended_runs(dark_pixels(k)).len() == 0,
    decreases k,
{
    if k > 0 {
        lemma_dark_pixels((k - 1) as nat);
        assert(dark_pixels(k).drop_last() =~= dark_pixels((k - 1) as nat));
    }
}

/// Behind a light pixel runs start afresh.
proof fn lemma_parted(a: Seq<bool>, b: Seq<bool>)
    ensures
        raster::trailing_run(a + seq![false] + b) == raster::trailing_run(b),
        raster::ended_runs(a + seq![false] + b) == raster::line_runs(a) + raster::ended_runs(b),
    decreases b.len(),
{
    let line = a + seq![false] + b;
    if b.len() == 0 {
        assert(line.drop_last() =~= a);
        assert(raster::ended_runs(line) =~= raster::line_runs(a) + raster::ended_runs(b));
    } else {
        lemma_parted(a, b.drop_last());
        assert(line.drop_last() =~= a + seq![false] + b.drop_last());
        assert(line.last() == b.last());
        assert(raster::ended_runs(line) =~= raster::line_runs(a) + raster::ended_runs(b));
    }
}

/// The dark runs of an image are those of its rows and those of its columns.
pub proof fn law_runs_are_those_of_rows_and_columns(image: Picture, n: nat)
    ensures
        raster::dark_runs(image) == raster::row_runs(image, image.height as int)
            + raster::column_runs(image, image.width as int),
        raster::row_runs(image, 0).len() == 0,
        raster::column_runs(image, 0).len() == 0,
        raster::row_runs(image, n as int + 1) == raster::row_runs(image, n as int) + raster::line_runs(
            image.row(n as int),
        ),
        raster::column_runs(image, n as int + 1) == raster::column_runs(image, n as int)
            + raster::line_runs(image.column(n as int)),
{
}

/// How many runs are a whole number of times as long as a size.
pub open spec fn fitting(runs: Seq<nat>, size: nat) -> nat {
    runs.filter(|run: nat| run % size == 0).len()
}

/// The module size of an image is the largest one, up to 64 pixels and the sides
/// of the image, that at least nine in ten of its runs are made of; 1 if there
/// is none.
pub proof fn law_module_size_fits_nine_runs_in_ten(image: Picture)
    ensures
        ({
            let runs = raster::dark_runs(image);
            let size = raster::module_size(image);
            &&& 1 <= size
            &&& size >= 2 ==> {
                &&& size <= 64
                &&& size <= image.width
                &&& size <= image.height
                &&& runs.len() > 0
                &&& fitting(runs, size) * 10 >= runs.len() * 9
            }
            &&& forall|larger: nat|
                size < larger <= 64 && larger <= image.width && larger <= image.height && runs.len()
                    > 0 ==> #[trigger] fitting(runs, larger) * 10 < runs.len() * 9
        }),
{
    let runs = raster::dark_runs(image);
    let limit = raster::size_limit(image);
    lemma_largest(runs, limit);
    lemma_multiples(runs, raster::module_size(image));
    assert forall|larger: nat|
        raster::module_size(image) < larger <= 64 && larger <= image.width && larger <= image.height
            && runs.len() > 0 implies #[trigger] fitting(runs, larger) * 10 < runs.len() * 9 by {
        lemma_multiples(runs, larger);
        assert(!raster::fits(runs, larger));
    }
}

/// The largest size that fits is found.
proof fn lemma_largest(runs: Seq<nat>, limit: nat)
    ensures
        raster::largest_fit(runs, limit) >= 1,
        raster::largest_fit(runs, limit) >= 2 ==> raster::largest_fit(runs, limit) <= limit
            && raster::fits(runs, raster::largest_fit(runs, limit)),
        forall|size: nat|
            raster::largest_fit(runs, limit) < size <= limit ==> !#[trigger] raster::fits(
                runs,
                size,
            ),
    decreases limit,
{
    if limit >= 2 && !raster::fits(runs, limit) {
        lemma_largest(runs, (limit - 1) as nat);
    }
}

/// Multiples are counted by looking at each run.
proof fn lemma_multiples(runs: Seq<nat>, size: nat)
    ensures
        raster::multiples(runs, size) == fitting(runs, size),
    decreases runs.len(),
{
    reveal(Seq::filter);
    if runs.len() > 0 {
        lemma_multiples(runs.drop_last(), size);
    }
}

/// Whether the module in the given row and column of a code in an image is
/// dark, told by the pixel in its middle. The code lies between the given
/// pixels, and its modules are so many pixels wide.
pub open spec fn sampled(
    image: Picture,
    b: (int, int, int, int),
    unit: int,
    row: int,
    column: int,
) -> bool {
    let x = b.0 + column * unit + unit / 2;
    let y = b.1 + row * unit + unit / 2;
    &&& row >= 0
    &&& column >= 0
    &&& row * unit <= b.3 - b.1
    &&& column * unit <= b.2 - b.0
    &&& image.dark(
        if x <= b.2 {
            x
        } else {
            b.2
        },
        if y <= b.3 {
            y
        } else {
            b.3
        },
    )
}

/// The character for two modules, one above the other.
pub open spec fn block(upper: bool, lower: bool) -> char {
    match (upper, lower) {
        (true, true) => '█',
        (true, false) => '▀',
        (false, true) => '▄',
        (false, false) => ' ',
    }
}

/// A picture is shown by the modules between its outermost dark pixels, each
/// told by its middle, two rows on a line, with four light modules on all sides.
pub proof fn law_modules_are_told_by_their_middle(image: Picture, i: int, j: int)
    requires
        image.wf(),
        !raster::all_light(image),
        0 <= i < raster::terminal_lines(image).len(),
        0 <= j < raster::terminal_lines(image)[i].len(),
    ensures
        ({
            let b = raster::dark_bounds(image)->Some_0;
            let u = raster::module_size(image) as int;
            raster::terminal_lines(image)[i][j] == block(
                sampled(image, b, u, 2 * i - 4, j - 4),
                sampled(image, b, u, 2 * i - 3, j - 4),
            )
        }),
{
    let b = raster::dark_bounds(image)->Some_0;
    let u = raster::module_size(image) as int;
    raster_laws::lemma_bounds_exist(image);
    lemma_largest(raster::dark_runs(image), raster::size_limit(image));
    let p = raster::placement(image, b);
    lemma_counted(b.2 - b.0, u, j - 4);
    lemma_counted(b.3 - b.1, u, 2 * i - 4);
    lemma_counted(b.3 - b.1, u, 2 * i - 3);
    assert(raster::terminal_lines(image)[i] == p.line(image, i));
}

/// A module is among those that are shown if it starts before the last pixel.
proof fn lemma_counted(span: int, unit: int, k: int)
    requires
        unit >= 1,
    ensures
        k < raster::ceiling(span + 1, unit) <==> k * unit <= span,
{
    let q = (span + unit) / unit;
    vstd::arithmetic::div_mod::lemma_fundamental_div_mod(span + unit, unit);
    let r = (span + unit) % unit;
    if k < q {
        assert(k * unit <= (q - 1) * unit) by (nonlinear_arith)
            requires
                k <= q - 1,
                unit >= 1,
        ;
        assert((q - 1) * unit == unit * q - unit) by (nonlinear_arith);
    } else {
        assert(k * unit >= q * unit) by (nonlinear_arith)
            requires
                k >= q,
                unit >= 1,
        ;
        assert(q * unit == unit * q) by (nonlinear_arith);
    }
}

/// The outermost dark pixels: all dark pixels lie between them, and there is a
/// dark one on each side. A picture has none exactly if it has no dark pixel.
pub proof fn law_bounds_are_the_outermost_dark_pixels(image: Picture)
    ensures
        match raster::dark_bounds(image) {
            Some(b) => {
                &&& forall|x: int, y: int| #[trigger]
                    image.dark(x, y) ==> b.0 <= x <= b.2 && b.1 <= y <= b.3
                &&& exists|y: int| image.dark(b.0, y)
                &&& exists|x: int| image.dark(x, b.1)
                &&& exists|y: int| image.dark(b.2, y)
                &&& exists|x: int| image.dark(x, b.3)
            },
            None => forall|x: int, y: int| !#[trigger] image.dark(x, y),
        },
        raster::dark_bounds(image) is None ==> raster::terminal_lines(image) == seq![
            "平台返回的二维码图片为空"@,
        ],
{
    if !raster::all_light(image) {
        raster_laws::lemma_bounds_exist(image);
    }
}

/// The number of lines and their width: all modules with four more on each side,
/// two rows to a line.
pub proof fn law_all_modules_are_shown(image: Picture, i: int)
    requires
        image.wf(),
        !raster::all_light(image),
        0 <= i < raster::terminal_lines(image).len(),
    ensures
        ({
            let b = raster::dark_bounds(image)->Some_0;
            let u = raster::module_size(image) as int;
            let columns = raster::terminal_lines(image)[i].len() - 8;
            let lines = raster::terminal_lines(image).len();
            &&& (columns - 1) * u <= b.2 - b.0 < columns * u
            &&& exists|rows: int|
                (#[trigger] (rows - 1) * u) <= b.3 - b.1 < rows * u && 2 * lines - 1 <= rows + 8 <= 2
                    * lines
        }),
{
    let b = raster::dark_bounds(image)->Some_0;
    let u = raster::module_size(image) as int;
    raster_laws::lemma_bounds_exist(image);
    lemma_largest(raster::dark_runs(image), raster::size_limit(image));
    let p = raster::placement(image, b);
    lemma_extents(image, b);
    assert(raster::terminal_lines(image)[i] == p.line(image, i));
    lemma_counted(b.2 - b.0, u, p.columns());
    lemma_counted(b.2 - b.0, u, p.columns() - 1);
    lemma_counted(b.3 - b.1, u, p.rows());
    lemma_counted(b.3 - b.1, u, p.rows() - 1);
    assert((p.rows() - 1) * u <= b.3 - b.1 < p.rows() * u);
}

/// The outermost dark pixels are in order, so that there is a module.
proof fn lemma_extents(image: Picture, b: (int, int, int, int))
    requires
        raster::encloses(image, b),
    ensures
        b.0 <= b.2,
        b.1 <= b.3,
        raster::ceiling(b.2 - b.0 + 1, raster::module_size(image) as int) >= 1,
        raster::ceiling(b.3 - b.1 + 1, raster::module_size(image) as int) >= 1,
{
    let y = choose|y: int| #[trigger] image.dark(b.0, y);
    assert(image.dark(b.0, y));
    let u = raster::module_size(image) as int;
    lemma_largest(raster::dark_runs(image), raster::size_limit(image));
    lemma_counted(b.2 - b.0, u, 0);
    lemma_counted(b.3 - b.1, u, 0);
}

/// A code is drawn as a square of its modules with the margin around them, each
/// module a square of pixels: black where the code is dark, and white elsewhere.
pub proof fn law_codes_are_drawn_module_by_module(
    code: (nat, Seq<bool>),
    margin: nat,
    unit: nat,
    x: int,
    y: int,
)
    requires
        unit >= 1,
        0 <= x < (code.0 + 2 * margin) * unit,
        0 <= y < (code.0 + 2 * margin) * unit,
    ensures
        ({
            let image = qr::drawn(code, margin, unit);
            let row = y / unit as int - margin;
            let column = x / unit as int - margin;
            let dark = 0 <= row < code.0 && 0 <= column < code.0 && code.1[row * code.0 + column];
            &&& image.width == (code.0 + 2 * margin) * unit
            &&& image.height == (code.0 + 2 * margin) * unit
            &&& image.pixels.len() == image.width * image.height
            &&& image.pixels[y * image.width + x] == if dark {
                0u8
            } else {
                255u8
            }
        }),
{
    let side = (code.0 + 2 * margin) * unit;
    let i = y * side + x;
    assert(0 <= i < side * side) by (nonlinear_arith)
        requires
            0 <= x < side,
            0 <= y < side,
            i == y * side + x,
    ;
    lemma_fundamental_div_mod_converse(i, side as int, y, x);
}

/// The first text that could be read is taken.
pub proof fn law_first_readable_text_is_taken(contents: Seq<Option<Seq<char>>>)
    ensures
        match qr::first_text(contents) {
            Some(text) => exists|i: int|
                #![trigger contents[i]]
                0 <= i < contents.len() && contents[i] == Some(text) && forall|j: int|
                    0 <= j < i ==> (#[trigger] contents[j]) is None,
            None => forall|i: int| 0 <= i < contents.len() ==> (#[trigger] contents[i]) is None,
        },
    decreases contents.len(),
{
    if contents.len() > 0 && contents[0] is None {
        let rest = contents.drop_first();
        law_first_readable_text_is_taken(rest);
        match qr::first_text(rest) {
            Some(text) => {
                let i = choose|i: int|
                    #![trigger rest[i]]
                    0 <= i < rest.len() && rest[i] == Some(text) && forall|j: int|
                        0 <= j < i ==> (#[trigger] rest[j]) is None;
                assert(contents[i + 1] == Some(text));
                assert forall|j: int| 0 <= j < i + 1 implies (#[trigger] contents[j]) is None by {
                    if j > 0 {
                        assert(contents[j] == rest[j - 1]);
                    }
                }
            },
            None => {
                assert forall|j: int| 0 <= j < contents.len() implies (
                #[trigger] contents[j]) is None by {
                    if j > 0 {
                        assert(contents[j] == rest[j - 1]);
                    }
                }
            },
        }
    } else if contents.len() > 0 {
        assert(contents[0] == qr::first_text(contents));
    }
}

/// What is shown is the code for the bytes of the text that was read, without a
/// margin of its own, one pixel for each module.
pub proof fn law_read_texts_are_shown_as_codes(contents: Seq<Option<Seq<char>>>)
    ensures
        match qr::first_text(contents) {
            None => qr::shown_lines(contents) == Err::<Seq<Seq<char>>, QrFailure>(
                QrFailure::Unreadable,
            ),
            Some(text) => match qr::code_for(vstd::utf8::encode_utf8(text)) {
                None => qr::shown_lines(contents) == Err::<Seq<Seq<char>>, QrFailure>(
                    QrFailure::NotRedrawn,
                ),
                Some(code) => {
                    &&& qr::shown_code(contents) == Ok::<(nat, Seq<bool>), QrFailure>(code)
                    &&& qr::shown_lines(contents) == Ok::<Seq<Seq<char>>, QrFailure>(
                        raster::terminal_lines(qr::drawn(code, 0, 1)),
                    )
                },
            },
        },
{
}

/// In a data URI for an image, what follows the comma is decoded, whatever the
/// kind of image.
pub proof fn law_data_uris_hold_their_image(
    format: Seq<char>,
    body: Seq<char>,
    decoded_is_image: bool,
)
    requires
        !format.contains(','),
    ensures
        ({
            let payload = "data:image/"@ + format + ";base64"@ + seq![','] + body;
            &&& qr::data_uri_body(payload) == Some(body)
            &&& match qr::base64_decoded(body) {
                Some(file) => {
                    &&& qr::payload_file(payload, decoded_is_image) == Ok::<Seq<u8>, QrFailure>(
                        file,
                    )
                    &&& qr::first_step(payload) == StepModel::Read(file, false)
                },
                None => {
                    &&& qr::payload_file(payload, decoded_is_image) == Err::<Seq<u8>, QrFailure>(
                        QrFailure::InvalidBase64,
                    )
                    &&& qr::first_step(payload) == StepModel::Done(
                        Err::<Seq<Seq<char>>, QrFailure>(QrFailure::InvalidBase64),
                    )
                },
            }
        }),
{
    reveal_strlit("data:image/");
    reveal_strlit(";base64");
    let metadata = "data:image/"@ + format + ";base64"@;
    let payload = metadata + seq![','] + body;
    text_laws::law_first_position_is_first(payload, ',');
    let comma = text::first_position(payload, ',');
    assert(payload[metadata.len() as int] == ',');
    assert forall|i: int| 0 <= i < metadata.len() implies metadata[i] != ',' by {
        if 11 <= i < 11 + format.len() {
            assert(metadata[i] == format[i - 11]);
            assert(format.contains(format[i - 11]));
        }
    }
    if comma < metadata.len() {
        assert(payload[comma] == metadata[comma]);
    }
    assert(comma == metadata.len());
    assert(payload.take(comma) =~= metadata);
    assert(payload.skip(comma + 1) =~= body);
    assert(metadata =~= "data:image/"@ + (format + ";base64"@));
    text_laws::law_texts_begin_and_end_with_their_parts(metadata, "data:image/"@);
    text_laws::law_texts_begin_and_end_with_their_parts(metadata, ";base64"@);
}

/// A payload without a comma is no data URI. As Base64 it may be an image, which
/// is found out by reading it; otherwise a code is drawn for it, with a margin of
/// four modules, each eight pixels wide.
pub proof fn law_other_payloads_are_read_or_drawn(payload: Seq<char>, reading: ReadingModel)
    requires
        !payload.contains(','),
    ensures
        qr::data_uri_body(payload) is None,
        qr::payload_file(payload, false) == match qr::code_for(vstd::utf8::encode_utf8(payload)) {
            None => Err::<Seq<u8>, QrFailure>(QrFailure::NotDrawn),
            Some(code) => match qr::png_of(qr::drawn(code, 4, 8)) {
                Some(file) => Ok::<Seq<u8>, QrFailure>(file),
                None => Err::<Seq<u8>, QrFailure>(QrFailure::NotEncoded),
            },
        },
        match qr::base64_decoded(payload) {
            Some(file) => {
                &&& qr::first_step(payload) == StepModel::Read(file, true)
                &&& qr::payload_file(payload, true) == Ok::<Seq<u8>, QrFailure>(file)
            },
            None => match qr::payload_file(payload, false) {
                Ok(file) => qr::first_step(payload) == StepModel::Read(file, false),
                Err(e) => qr::first_step(payload) == StepModel::Done(
                    Err::<Seq<Seq<char>>, QrFailure>(e),
                ),
            },
        },
        match reading {
            ReadingModel::Codes(contents) => {
                &&& qr::next_step(payload, true, reading) == StepModel::Done(
                    qr::shown_lines(contents),
                )
                &&& qr::next_step(payload, false, reading) == StepModel::Done(
                    qr::shown_lines(contents),
                )
            },
            ReadingModel::NotAnImage => {
                &&& qr::next_step(payload, false, reading) == StepModel::Done(
                    Err::<Seq<Seq<char>>, QrFailure>(QrFailure::NotAnImage),
                )
                &&& match qr::payload_file(payload, false) {
                    Ok(file) => qr::next_step(payload, true, reading) == StepModel::Read(
                        file,
                        false,
                    ),
                    Err(e) => qr::next_step(payload, true, reading) == StepModel::Done(
                        Err::<Seq<Seq<char>>, QrFailure>(e),
                    ),
                }
            },
        },
{
    text_laws::law_first_position_is_first(payload, ',');
    let comma = text::first_position(payload, ',');
    if comma < payload.len() {
        assert(payload.contains(payload[comma]));
    }
}

/// What is said of codes that cannot be shown.
pub proof fn law_unusable_codes_are_told_apart()
    ensures
        QrFailure::EmptyPayload.text() == "平台返回了空二维码"@,
        QrFailure::InvalidBase64.text() == "无法解码二维码 Base64 数据"@,
        QrFailure::NotDrawn.text() == "无法生成登录二维码"@,
        QrFailure::NotEncoded.text() == "无法编码登录二维码"@,
        QrFailure::NotAnImage.text() == "平台返回的二维码不是有效图片"@,
        QrFailure::Unreadable.text() == "无法识别平台返回的二维码内容"@,
        QrFailure::NotRedrawn.text() == "无法重新生成标准终端二维码"@,
{
}

} // verus!
