//! Login QR codes: from what a platform hands out to a file that is to be
//! read, and from what was read to lines for the terminal.

use base64::Engine;
use vstd::prelude::*;

use crate::model;
use crate::raster;
use crate::raster::{render_terminal_qr, Picture, Raster};
use crate::text;

verus! {

/// Why a login code cannot be shown.
#[derive(Clone, Copy, Debug, PartialEq, Eq, Structural)]
pub enum QrFailure {
    /// The payload is blank.
    EmptyPayload,
    /// The body of a data URI is not Base64.
    InvalidBase64,
    /// The payload cannot be drawn as a code.
    NotDrawn,
    /// The drawn code cannot be stored as an image.
    NotEncoded,
    /// The payload's bytes are no image.
    NotAnImage,
    /// The image shows no readable code.
    Unreadable,
    /// The content of the image's code cannot be drawn anew.
    NotRedrawn,
}

impl QrFailure {
    /// What is shown to the user.
    pub open spec fn text(self) -> Seq<char> {
        match self {
            QrFailure::EmptyPayload => "平台返回了空二维码"@,
            QrFailure::InvalidBase64 => "无法解码二维码 Base64 数据"@,
            QrFailure::NotDrawn => "无法生成登录二维码"@,
            QrFailure::NotEncoded => "无法编码登录二维码"@,
            QrFailure::NotAnImage => "平台返回的二维码不是有效图片"@,
            QrFailure::Unreadable => "无法识别平台返回的二维码内容"@,
            QrFailure::NotRedrawn => "无法重新生成标准终端二维码"@,
        }
    }

    /// What is shown to the user.
    pub fn message(self) -> (r: &'static str)
        ensures
            r@ == self.text(),
    {
        match self {
            QrFailure::EmptyPayload => "平台返回了空二维码",
            QrFailure::InvalidBase64 => "无法解码二维码 Base64 数据",
            QrFailure::NotDrawn => "无法生成登录二维码",
            QrFailure::NotEncoded => "无法编码登录二维码",
            QrFailure::NotAnImage => "平台返回的二维码不是有效图片",
            QrFailure::Unreadable => "无法识别平台返回的二维码内容",
            QrFailure::NotRedrawn => "无法重新生成标准终端二维码",
        }
    }
}

#[verifier::external_type_specification]
#[verifier::external_body]
pub struct ExDecodeError(base64::DecodeError);

#[verifier::external_type_specification]
#[verifier::external_body]
pub struct ExImageError(image::ImageError);

#[verifier::external_type_specification]
#[verifier::external_body]
pub struct ExQrError(qrcode::types::QrError);

/// What the standard Base64 alphabet, with padding, makes of a text.
pub uninterp spec fn base64_decoded(encoded: Seq<char>) -> Option<Seq<u8>>;

/// The PNG file that holds a greyscale picture.
pub uninterp spec fn png_of(picture: Picture) -> Option<Seq<u8>>;

/// The code for some bytes: the number of modules in a row, and all modules
/// row by row, dark ones as `true`.
pub uninterp spec fn code_for(content: Seq<u8>) -> Option<(nat, Seq<bool>)>;

/// A code as black squares on white, each `unit` pixels wide, with a margin
/// of `margin` modules.
pub open spec fn drawn(code: (nat, Seq<bool>), margin: nat, unit: nat) -> Picture {
    let side = (code.0 + 2 * margin) * unit;
    Picture {
        width: side,
        height: side,
        pixels: Seq::new(
            side * side,
            |i: int|
                if module_dark(
                    code,
                    i / side as int / unit as int - margin,
                    i % side as int / unit as int - margin,
                ) {
                    0u8
                } else {
                    255u8
                },
        ),
    }
}

/// Whether a code has a dark module in the given row and column.
pub open spec fn module_dark(code: (nat, Seq<bool>), row: int, column: int) -> bool {
    &&& 0 <= row < code.0
    &&& 0 <= column < code.0
    &&& code.1[row * code.0 + column]
}

/// Whether a code has the size of one, and is dark in the three corners that
/// have a mark.
pub open spec fn well_made(code: (nat, Seq<bool>)) -> bool {
    &&& 21 <= code.0 <= 177
    &&& code.1.len() == code.0 * code.0
    &&& module_dark(code, 0, 0)
    &&& module_dark(code, 0, code.0 - 1)
    &&& module_dark(code, code.0 - 1, 0)
}

/// `base64::engine::general_purpose::STANDARD.decode`: it decodes the text or
/// reports that it is not valid Base64. Which bytes come out is named by
/// `base64_decoded`.
#[verifier::external_body]
fn decode_base64(encoded: &str) -> (r: Result<Vec<u8>, base64::DecodeError>)
    ensures
        match r {
            Ok(bytes) => base64_decoded(encoded@) == Some(bytes@),
            Err(_) => base64_decoded(encoded@) is None,
        },
{
    base64::engine::general_purpose::STANDARD.decode(encoded)
}

/// `image::DynamicImage::write_to` with the PNG format, on an 8-bit greyscale
/// image. Which bytes come out is named by `png_of`.
#[verifier::external_body]
fn encode_png(image: &Raster) -> (r: Result<Vec<u8>, image::ImageError>)
    requires
        image.wf(),
    ensures
        match r {
            Ok(file) => png_of(image@) == Some(file@),
            Err(_) => png_of(image@) is None,
        },
{
    let luma = image::GrayImage::from_raw(image.width, image.height, image.pixels.clone()).unwrap();
    let mut file = Vec::new();
    image::DynamicImage::ImageLuma8(luma).write_to(
        &mut std::io::Cursor::new(&mut file),
        image::ImageFormat::Png,
    )?;
    Ok(file)
}

/// The texts, where there are any.
pub open spec fn optional_texts(contents: Seq<Option<String>>) -> Seq<Option<Seq<char>>> {
    contents.map_values(
        |content: Option<String>|
            match content {
                Some(s) => Some(s@),
                None => None,
            },
    )
}

/// What was found in a file: it is no image, or it shows codes, each with the
/// text that could be read, in the order in which they were found.
///
/// Files are read outside the library: decoders and the search for codes panic
/// on some malformed pictures, which has to be contained where they are called.
#[derive(Debug)]
pub enum FileReading {
    NotAnImage,
    Codes(Vec<Option<String>>),
}

/// What was found in a file.
pub enum ReadingModel {
    NotAnImage,
    Codes(Seq<Option<Seq<char>>>),
}

impl View for FileReading {
    type V = ReadingModel;

    open spec fn view(&self) -> ReadingModel {
        match self {
            FileReading::NotAnImage => ReadingModel::NotAnImage,
            FileReading::Codes(contents) => ReadingModel::Codes(optional_texts(contents@)),
        }
    }
}

/// How far a payload has come on its way to the terminal.
#[derive(Debug)]
pub enum QrStep {
    /// This file is to be read. `bare` tells that it is the payload itself as
    /// Base64, which need not be meant as an image.
    Read { file: Vec<u8>, bare: bool },
    /// There are lines to be shown, or there is a reason why not.
    Done(Result<Vec<String>, QrFailure>),
}

/// How far a payload has come on its way to the terminal.
pub enum StepModel {
    Read(Seq<u8>, bool),
    Done(Result<Seq<Seq<char>>, QrFailure>),
}

impl View for QrStep {
    type V = StepModel;

    open spec fn view(&self) -> StepModel {
        match self {
            QrStep::Read { file, bare } => StepModel::Read(file@, *bare),
            QrStep::Done(Ok(lines)) => StepModel::Done(Ok(model::views(lines@))),
            QrStep::Done(Err(failure)) => StepModel::Done(Err(*failure)),
        }
    }
}

/// `qrcode::QrCode::new`, and `build` on its renderer for 8-bit greyscale
/// images: it makes the code for some bytes, unless they are too many, and
/// draws it in black and white. The code is named by `code_for`; it has 21 to
/// 177 modules in a row, with marks in three corners. The margin, if one is
/// asked for, is four modules wide.
#[verifier::external_body]
fn draw_code(content: &[u8], margin: bool, unit: u32) -> (r: Result<Raster, qrcode::types::QrError>)
    requires
        1 <= unit <= 8,
    ensures
        match r {
            Ok(image) => {
                &&& image.wf()
                &&& code_for(content@) is Some
                &&& well_made(code_for(content@)->Some_0)
                &&& image@ == drawn(
                    code_for(content@)->Some_0,
                    if margin {
                        4
                    } else {
                        0
                    },
                    unit as nat,
                )
            },
            Err(_) => code_for(content@) is None,
        },
{
    let code = qrcode::QrCode::new(content)?;
    let luma = code.render::<image::Luma<u8>>().quiet_zone(margin).module_dimensions(
        unit,
        unit,
    ).build();
    Ok(Raster { width: luma.width(), height: luma.height(), pixels: luma.into_raw() })
}

/// The Base64 text in a data URI for an image: what follows the first comma,
/// if the part before it starts with `data:image/` and ends with `;base64`.
pub open spec fn data_uri_body(payload: Seq<char>) -> Option<Seq<char>> {
    let comma = text::first_position(payload, ',');
    let metadata = payload.take(comma);
    if comma < payload.len() && text::begins_with(metadata, "data:image/"@) && text::finishes_with(
        metadata,
        ";base64"@,
    ) {
        Some(payload.skip(comma + 1))
    } else {
        None
    }
}

/// The Base64 text in a data URI for an image.
pub fn embedded_image(payload: &str) -> (r: Option<String>)
    ensures
        match r {
            Some(body) => data_uri_body(payload@) == Some(body@),
            None => data_uri_body(payload@) is None,
        },
{
    let n: usize = payload.unicode_len();
    let comma: usize = text::position(payload, ',');
    if comma >= n {
        return None;
    }
    let metadata = payload.substring_char(0, comma);
    let body = payload.substring_char(comma + 1, n);
    proof {
        assert(payload@.subrange(0, comma as int) =~= payload@.take(comma as int));
        assert(payload@.subrange(comma + 1, n as int) =~= payload@.skip(comma + 1));
    }
    if text::starts_with(metadata, "data:image/") && text::ends_with(metadata, ";base64") {
        Some(body.to_owned())
    } else {
        None
    }
}

/// The image file with a drawn code for a payload.
pub open spec fn drawn_file(payload: Seq<char>) -> Result<Seq<u8>, QrFailure> {
    match code_for(vstd::utf8::encode_utf8(payload)) {
        None => Err(QrFailure::NotDrawn),
        Some(code) => match png_of(drawn(code, 4, 8)) {
            Some(file) => Ok(file),
            None => Err(QrFailure::NotEncoded),
        },
    }
}

/// The image file that a payload stands for: the one in a data URI, the one
/// that the payload is as Base64, if it is an image, else a drawn code for the
/// payload itself.
pub open spec fn payload_file(payload: Seq<char>, decoded_is_image: bool) -> Result<
    Seq<u8>,
    QrFailure,
> {
    match data_uri_body(payload) {
        Some(body) => match base64_decoded(body) {
            Some(file) => Ok(file),
            None => Err(QrFailure::InvalidBase64),
        },
        None => match base64_decoded(payload) {
            Some(file) if decoded_is_image => Ok(file),
            _ => drawn_file(payload),
        },
    }
}

/// The image file that a payload stands for, given whether the payload, if it
/// is Base64, decodes to an image.
pub fn payload_to_png(payload: &str, decoded_is_image: bool) -> (r: Result<Vec<u8>, QrFailure>)
    ensures
        match r {
            Ok(file) => payload_file(payload@, decoded_is_image) == Ok::<Seq<u8>, QrFailure>(file@),
            Err(e) => payload_file(payload@, decoded_is_image) == Err::<Seq<u8>, QrFailure>(e),
        },
{
    if let Some(body) = embedded_image(payload) {
        return match decode_base64(body.as_str()) {
            Ok(file) => Ok(file),
            Err(_) => Err(QrFailure::InvalidBase64),
        };
    }
    if decoded_is_image {
        if let Ok(file) = decode_base64(payload) {
            return Ok(file);
        }
    }
    match draw_code(payload.as_bytes(), true, 8) {
        Ok(image) => match encode_png(&image) {
            Ok(file) => Ok(file),
            Err(_) => Err(QrFailure::NotEncoded),
        },
        Err(_) => Err(QrFailure::NotDrawn),
    }
}

/// The first text that could be read.
pub open spec fn first_text(contents: Seq<Option<Seq<char>>>) -> Option<Seq<char>>
    decreases contents.len(),
{
    if contents.len() == 0 {
        None
    } else if contents.first() is Some {
        contents.first()
    } else {
        first_text(contents.drop_first())
    }
}

/// The first text that could be read.
pub fn first_content(contents: &Vec<Option<String>>) -> (r: Option<String>)
    ensures
        match r {
            Some(s) => first_text(optional_texts(contents@)) == Some(s@),
            None => first_text(optional_texts(contents@)) is None,
        },
{
    let ghost all = optional_texts(contents@);
    let mut i: usize = 0;
    proof {
        assert(all.skip(0) =~= all);
    }
    while i < contents.len()
        invariant
            all == optional_texts(contents@),
            i <= contents@.len(),
            first_text(all) == first_text(all.skip(i as int)),
        decreases contents.len() - i,
    {
        if let Some(content) = &contents[i] {
            return Some(content.clone());
        }
        proof {
            assert(all.skip(i as int).drop_first() =~= all.skip(i + 1));
        }
        i = i + 1;
    }
    None
}

/// The text of the code that an image shows, given what its codes hold.
pub fn decode_qr_content(contents: &Vec<Option<String>>) -> (r: Result<String, QrFailure>)
    ensures
        match r {
            Ok(s) => first_text(optional_texts(contents@)) == Some(s@),
            Err(e) => first_text(optional_texts(contents@)) is None && e == QrFailure::Unreadable,
        },
{
    match first_content(contents) {
        Some(content) => Ok(content),
        None => Err(QrFailure::Unreadable),
    }
}

/// The code that is shown for what the codes of an image hold: the first text
/// that could be read, as a code of its own.
pub open spec fn shown_code(contents: Seq<Option<Seq<char>>>) -> Result<
    (nat, Seq<bool>),
    QrFailure,
> {
    match first_text(contents) {
        None => Err(QrFailure::Unreadable),
        Some(content) => match code_for(vstd::utf8::encode_utf8(content)) {
            None => Err(QrFailure::NotRedrawn),
            Some(code) => Ok(code),
        },
    }
}

/// The lines that are shown for what the codes of an image hold: the code is
/// drawn with one pixel for each module.
pub open spec fn shown_lines(contents: Seq<Option<Seq<char>>>) -> Result<
    Seq<Seq<char>>,
    QrFailure,
> {
    match shown_code(contents) {
        Err(e) => Err(e),
        Ok(code) => Ok(raster::terminal_lines(drawn(code, 0, 1))),
    }
}

/// The step at which a file for a payload is read, if there is one.
pub open spec fn file_step(payload: Seq<char>) -> StepModel {
    match payload_file(payload, false) {
        Ok(file) => StepModel::Read(file, false),
        Err(e) => StepModel::Done(Err(e)),
    }
}

/// The first step for a payload. What may be an image is read, unless it is
/// in a data URI, before a code is drawn for it.
pub open spec fn first_step(payload: Seq<char>) -> StepModel {
    match base64_decoded(payload) {
        Some(file) if data_uri_body(payload) is None => StepModel::Read(file, true),
        _ => file_step(payload),
    }
}

/// The step that follows on the reading of a file. A payload that only might
/// have been an image, and is none, is drawn.
pub open spec fn next_step(payload: Seq<char>, bare: bool, reading: ReadingModel) -> StepModel {
    match reading {
        ReadingModel::NotAnImage => if bare {
            file_step(payload)
        } else {
            StepModel::Done(Err(QrFailure::NotAnImage))
        },
        ReadingModel::Codes(contents) => StepModel::Done(shown_lines(contents)),
    }
}

/// Has a file for a payload read.
fn read_file_of(payload: &str) -> (r: QrStep)
    ensures
        r@ == file_step(payload@),
{
    match payload_to_png(payload, false) {
        Ok(file) => QrStep::Read { file, bare: false },
        Err(failure) => QrStep::Done(Err(failure)),
    }
}

/// Begins to prepare the lines for a payload.
pub fn prepare_qr(payload: &str) -> (r: QrStep)
    ensures
        r@ == first_step(payload@),
{
    if embedded_image(payload).is_none() {
        if let Ok(file) = decode_base64(payload) {
            return QrStep::Read { file, bare: true };
        }
    }
    read_file_of(payload)
}

/// The lines that are shown for what the codes of an image hold.
pub fn render_contents(contents: &Vec<Option<String>>) -> (r: Result<Vec<String>, QrFailure>)
    ensures
        match r {
            Ok(lines) => shown_lines(optional_texts(contents@)) == Ok::<Seq<Seq<char>>, QrFailure>(
                model::views(lines@),
            ),
            Err(e) => shown_lines(optional_texts(contents@)) == Err::<Seq<Seq<char>>, QrFailure>(e),
        },
        r is Ok ==> well_made(shown_code(optional_texts(contents@))->Ok_0),
{
    let content = match decode_qr_content(contents) {
        Ok(content) => content,
        Err(e) => return Err(e),
    };
    match draw_code(content.as_str().as_bytes(), false, 1) {
        Ok(canonical) => Ok(render_terminal_qr(&canonical)),
        Err(_) => Err(QrFailure::NotRedrawn),
    }
}

/// Goes on to prepare the lines for a payload, once a file was read.
pub fn continue_qr(payload: &str, bare: bool, reading: FileReading) -> (r: QrStep)
    ensures
        r@ == next_step(payload@, bare, reading@),
{
    match reading {
        FileReading::NotAnImage => if bare {
            read_file_of(payload)
        } else {
            QrStep::Done(Err(QrFailure::NotAnImage))
        },
        FileReading::Codes(contents) => QrStep::Done(render_contents(&contents)),
    }
}

/// Whether a payload can be a code at all: it must not be blank.
pub fn validate_qr_payload(payload: &str) -> (r: Result<(), QrFailure>)
    ensures
        r == if text::blank(payload@) {
            Err::<(), QrFailure>(QrFailure::EmptyPayload)
        } else {
            Ok::<(), QrFailure>(())
        },
{
    if text::is_blank(payload) {
        Err(QrFailure::EmptyPayload)
    } else {
        Ok(())
    }
}

} // verus!
