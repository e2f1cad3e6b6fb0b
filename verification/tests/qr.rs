//! Login codes, from payloads to lines.

use base64::Engine;
use image::{DynamicImage, GrayImage, ImageFormat, Luma};
use qrcode::QrCode;
use std::io::Cursor;

use dqn::qr::{
    continue_qr, decode_qr_content, embedded_image, first_content, payload_to_png, prepare_qr,
    render_contents, validate_qr_payload, FileReading, QrFailure, QrStep,
};
use dqn::raster::{
    dark_pixel_bounds, detect_module_size, render_terminal_qr, Raster, QUIET_ZONE_MODULES,
};

fn raster(image: &GrayImage) -> Raster {
    Raster::new(image.width(), image.height(), image.as_raw().clone()).unwrap()
}

/// What the codes in an image file hold.
fn read_file(file: &[u8]) -> FileReading {
    let Ok(image) = image::load_from_memory(file) else {
        return FileReading::NotAnImage;
    };
    let mut prepared = rqrr::PreparedImage::prepare(image.to_luma8());
    FileReading::Codes(
        prepared
            .detect_grids()
            .into_iter()
            .map(|grid| grid.decode().ok().map(|(_, content)| content))
            .collect(),
    )
}

/// The lines for a payload, with its files read as they are asked for.
fn prepare(payload: &str) -> Result<Vec<String>, QrFailure> {
    let mut step = prepare_qr(payload);
    loop {
        match step {
            QrStep::Read { file, bare } => step = continue_qr(payload, bare, read_file(&file)),
            QrStep::Done(result) => return result,
        }
    }
}

fn code_image(content: &[u8], quiet_zone: bool, unit: u32) -> GrayImage {
    QrCode::new(content)
        .unwrap()
        .render::<Luma<u8>>()
        .quiet_zone(quiet_zone)
        .module_dimensions(unit, unit)
        .build()
}

fn png(image: GrayImage) -> Vec<u8> {
    let mut png = Vec::new();
    DynamicImage::ImageLuma8(image)
        .write_to(&mut Cursor::new(&mut png), ImageFormat::Png)
        .unwrap();
    png
}

#[test]
fn generated_qr_is_rendered_at_module_resolution() {
    let png = payload_to_png("https://example.com/login?id=123", false).unwrap();
    let image = image::load_from_memory(&png).unwrap().to_luma8();
    let lines = render_terminal_qr(&raster(&image));
    assert!(lines.len() >= 10);
    assert!(lines.iter().any(|line| line.contains('█')));
    assert!(lines
        .iter()
        .all(|line| line.chars().count() == lines[0].chars().count()));
    assert!(lines[..2].iter().all(|line| line.trim().is_empty()));
    assert!(lines[lines.len() - 2..]
        .iter()
        .all(|line| line.trim().is_empty()));
}

#[test]
fn arbitrary_image_padding_keeps_qq_qr_modules_aligned() {
    let image = code_image(b"https://y.qq.com/login/test", false, 6);
    let mut padded = GrayImage::from_pixel(image.width() + 37, image.height() + 29, Luma([255]));
    image::imageops::replace(&mut padded, &image, 17, 11);

    assert_eq!(detect_module_size(&raster(&padded)), 6);
    let lines = render_terminal_qr(&raster(&padded));
    assert_eq!(
        lines[0].chars().count(),
        image.width() as usize / 6 + QUIET_ZONE_MODULES * 2
    );
    assert!(lines.iter().any(|line| line.contains('█')));
}

#[test]
fn decorated_image_is_decoded_and_reencoded_to_compact_terminal_qr() {
    let image = code_image(b"https://y.qq.com/login/test", true, 6);
    let payload = format!(
        "data:image/png;base64,{}",
        base64::engine::general_purpose::STANDARD.encode(png(image))
    );

    let lines = prepare(&payload).unwrap();
    assert!(lines[0].chars().count() < 60);
    assert!(lines.len() < 30);
}

#[test]
fn code_of_a_payload_is_drawn_as_its_modules() {
    let content = b"https://example.com/login?id=123";
    let code = QrCode::new(content).unwrap();
    let side = code.width();
    let colors = code.to_colors();
    let file = payload_to_png("https://example.com/login?id=123", false).unwrap();
    let image = image::load_from_memory(&file).unwrap().to_luma8();
    assert_eq!(image.width() as usize, (side + 8) * 8);
    assert_eq!(image.height() as usize, (side + 8) * 8);
    for y in 0..image.height() {
        for x in 0..image.width() {
            let (row, column) = (y as usize / 8, x as usize / 8);
            let dark = (4..side + 4).contains(&row)
                && (4..side + 4).contains(&column)
                && colors[(row - 4) * side + column - 4] == qrcode::Color::Dark;
            assert_eq!(image.get_pixel(x, y).0[0], if dark { 0 } else { 255 });
        }
    }
}

#[test]
fn lines_of_a_payload_are_those_of_its_modules() {
    let content = "https://y.qq.com/login/test";
    let code = QrCode::new(content.as_bytes()).unwrap();
    let side = code.width();
    let colors = code.to_colors();
    let dark = |row: usize, column: usize| {
        (4..side + 4).contains(&row)
            && (4..side + 4).contains(&column)
            && colors[(row - 4) * side + column - 4] == qrcode::Color::Dark
    };
    let lines = prepare(content).unwrap();
    assert_eq!(lines.len(), (side + 8).div_ceil(2));
    for (index, line) in lines.iter().enumerate() {
        let expected: String = (0..side + 8)
            .map(|column| match (dark(2 * index, column), dark(2 * index + 1, column)) {
                (true, true) => '█',
                (true, false) => '▀',
                (false, true) => '▄',
                (false, false) => ' ',
            })
            .collect();
        assert_eq!(*line, expected);
    }
}

#[test]
fn code_in_an_image_is_read() {
    let texts = |contents: &[Option<&str>]| -> Vec<Option<String>> {
        contents
            .iter()
            .map(|content| content.map(str::to_owned))
            .collect()
    };
    let image = code_image("歌曲 login".as_bytes(), true, 5);
    let FileReading::Codes(contents) = read_file(&png(image)) else {
        panic!("no image");
    };
    assert_eq!(decode_qr_content(&contents).unwrap(), "歌曲 login");
    assert_eq!(
        decode_qr_content(&texts(&[None, Some("a"), Some("b")])).unwrap(),
        "a"
    );
    assert_eq!(decode_qr_content(&texts(&[None])), Err(QrFailure::Unreadable));
    assert_eq!(decode_qr_content(&Vec::new()), Err(QrFailure::Unreadable));
}

#[test]
fn bare_base64_of_an_image_is_the_image() {
    let image = png(code_image(b"x", true, 4));
    let payload = base64::engine::general_purpose::STANDARD.encode(&image);
    assert_eq!(payload_to_png(&payload, true).unwrap(), image);
    let QrStep::Read { file, bare: true } = prepare_qr(&payload) else {
        panic!("not read");
    };
    assert_eq!(file, image);
    let lines = render_terminal_qr(&raster(&code_image(b"x", false, 1)));
    assert_eq!(prepare(&payload).unwrap(), lines);
}

#[test]
fn bare_base64_of_anything_else_is_drawn() {
    let payload = base64::engine::general_purpose::STANDARD.encode(b"no image at all");
    let QrStep::Read { file, bare: true } = prepare_qr(&payload) else {
        panic!("not read");
    };
    assert_eq!(file, b"no image at all");
    let drawn = payload_to_png(&payload, false).unwrap();
    let QrStep::Read { file, bare: false } = continue_qr(&payload, true, FileReading::NotAnImage)
    else {
        panic!("not drawn");
    };
    assert_eq!(file, drawn);
    let lines = render_terminal_qr(&raster(&code_image(payload.as_bytes(), false, 1)));
    assert_eq!(prepare(&payload).unwrap(), lines);
}

#[test]
fn readings_decide_what_is_shown() {
    assert!(matches!(
        continue_qr("x", false, FileReading::NotAnImage),
        QrStep::Done(Err(QrFailure::NotAnImage))
    ));
    assert!(matches!(
        continue_qr("x", true, FileReading::Codes(Vec::new())),
        QrStep::Done(Err(QrFailure::Unreadable))
    ));
    let contents = vec![Some("x".repeat(5000))];
    assert_eq!(render_contents(&contents), Err(QrFailure::NotRedrawn));
    let contents = vec![None, Some("login".to_owned())];
    let lines = render_terminal_qr(&raster(&code_image(b"login", false, 1)));
    assert_eq!(render_contents(&contents).unwrap(), lines);
    assert!(matches!(
        continue_qr("x", false, FileReading::Codes(contents)),
        QrStep::Done(Ok(shown)) if shown == lines
    ));
}

#[test]
fn each_failure_has_its_message() {
    assert_eq!(validate_qr_payload(" \n"), Err(QrFailure::EmptyPayload));
    assert_eq!(validate_qr_payload(""), Err(QrFailure::EmptyPayload));
    assert_eq!(validate_qr_payload(" x "), Ok(()));
    assert_eq!(QrFailure::EmptyPayload.message(), "平台返回了空二维码");

    let failure = prepare("data:image/png;base64,!!!!").unwrap_err();
    assert_eq!(failure, QrFailure::InvalidBase64);
    assert_eq!(failure.message(), "无法解码二维码 Base64 数据");

    let failure = prepare("data:image/png;base64,AAAA").unwrap_err();
    assert_eq!(failure, QrFailure::NotAnImage);
    assert_eq!(failure.message(), "平台返回的二维码不是有效图片");

    let white = png(GrayImage::from_pixel(64, 64, Luma([255])));
    let payload = format!(
        "data:image/png;base64,{}",
        base64::engine::general_purpose::STANDARD.encode(white)
    );
    let failure = prepare(&payload).unwrap_err();
    assert_eq!(failure, QrFailure::Unreadable);
    assert_eq!(failure.message(), "无法识别平台返回的二维码内容");

    let failure = prepare(&"x".repeat(5000)).unwrap_err();
    assert_eq!(failure, QrFailure::NotDrawn);
    assert_eq!(failure.message(), "无法生成登录二维码");

    assert_eq!(QrFailure::NotEncoded.message(), "无法编码登录二维码");
    assert_eq!(QrFailure::NotRedrawn.message(), "无法重新生成标准终端二维码");
}

#[test]
fn data_uris_are_taken_apart_at_the_first_comma() {
    assert_eq!(
        embedded_image("data:image/png;base64,aa,bb"),
        Some("aa,bb".to_owned())
    );
    assert_eq!(embedded_image("data:image/;base64,"), Some(String::new()));
    assert_eq!(embedded_image("data:image/png,aa"), None);
    assert_eq!(embedded_image("data:text/plain;base64,aa"), None);
    assert_eq!(embedded_image("data:image/png;base64"), None);
}

#[test]
fn first_readable_code_is_taken() {
    let contents = vec![None, Some("a".to_owned()), Some("b".to_owned())];
    assert_eq!(first_content(&contents), Some("a".to_owned()));
    assert_eq!(first_content(&vec![None, None]), None);
    assert_eq!(first_content(&Vec::new()), None);
}

#[test]
fn empty_and_light_images_give_a_notice() {
    for image in [
        Raster::new(0, 0, Vec::new()).unwrap(),
        Raster::new(2, 2, vec![128; 4]).unwrap(),
    ] {
        assert_eq!(dark_pixel_bounds(&image), None);
        assert_eq!(render_terminal_qr(&image), vec!["平台返回的二维码图片为空"]);
    }
    assert!(Raster::new(2, 2, vec![0; 3]).is_none());
}

#[test]
fn dark_pixels_are_bounded_and_measured() {
    let mut pixels = vec![255u8; 100];
    for (x, y) in [(2, 4), (3, 4), (2, 5), (3, 5)] {
        pixels[y * 10 + x] = 127;
    }
    let image = Raster::new(10, 10, pixels).unwrap();
    assert_eq!(dark_pixel_bounds(&image), Some((2, 4, 3, 5)));
    assert_eq!(detect_module_size(&image), 2);
    let lines = render_terminal_qr(&image);
    let empty = " ".repeat(9);
    let expected = [
        empty.clone(),
        empty.clone(),
        "    ▀    ".to_owned(),
        empty.clone(),
        empty,
    ];
    assert_eq!(lines, expected);
}

#[test]
fn light_margins_leave_no_trace() {
    let image = code_image(b"margin", false, 3);
    let mut padded = GrayImage::from_pixel(image.width() + 9, image.height() + 9, Luma([255]));
    image::imageops::replace(&mut padded, &image, 4, 5);
    assert_eq!(
        render_terminal_qr(&raster(&padded)),
        render_terminal_qr(&raster(&image))
    );
}

#[test]
fn size_and_margin_of_a_drawn_code_do_not_matter() {
    for content in ["a", "https://y.qq.com/login/test", "歌曲"] {
        let lines = render_terminal_qr(&raster(&code_image(content.as_bytes(), false, 1)));
        for unit in [1, 2, 3, 5, 8, 13] {
            for margin in [false, true] {
                let image = raster(&code_image(content.as_bytes(), margin, unit));
                assert_eq!(detect_module_size(&image), unit);
                assert_eq!(render_terminal_qr(&image), lines);
            }
        }
    }
}

#[test]
fn codes_have_marks_in_three_corners() {
    for length in [0, 1, 20, 200, 2000] {
        let image = code_image(&vec![b'x'; length], false, 1);
        let last = image.width() - 1;
        assert!(image.width() >= 21 && image.width() <= 177);
        assert_eq!(image.width(), image.height());
        for (x, y) in [(0, 0), (last, 0), (0, last)] {
            assert_eq!(image.get_pixel(x, y).0[0], 0);
        }
    }
}
