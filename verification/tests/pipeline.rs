use ico2img::pipeline::{
    convert, encode_decoded, fits_decoder, handle_ico, write_image, Cause, ConversionError,
};
use ico2img::format::SupportedImages;

fn pixels(width: u32, height: u32, with_alpha: bool) -> Vec<u8> {
    let mut data = Vec::new();
    for y in 0..height {
        for x in 0..width {
            let alpha = if with_alpha { (x * 37 + y * 11) % 256 } else { 255 };
            data.extend_from_slice(&[(x * 16) as u8, (y * 16) as u8, (x * y) as u8, alpha as u8]);
        }
    }
    data
}

fn entry(width: u32, height: u32, with_alpha: bool) -> ico::IconDirEntry {
    let image = ico::IconImage::from_rgba_data(width, height, pixels(width, height, with_alpha));
    ico::IconDirEntry::encode_as_png(&image).unwrap()
}

fn reread(file: Vec<u8>) -> ico::IconDirEntry {
    let dir = ico::IconDir::read(std::io::Cursor::new(file)).unwrap();
    dir.entries()[0].clone()
}

fn corrupt_entry() -> ico::IconDirEntry {
    let mut dir = ico::IconDir::new(ico::ResourceType::Icon);
    dir.add_entry(entry(4, 4, true));
    let mut file = Vec::new();
    dir.write(&mut file).unwrap();
    file[6 + 16 + 8 + 8 + 3] ^= 0x55;
    reread(file)
}

fn oversized_entry() -> ico::IconDirEntry {
    let mut file: Vec<u8> = vec![0, 0, 1, 0, 1, 0];
    file.extend_from_slice(&[0, 0, 0, 0, 1, 0, 32, 0]);
    file.extend_from_slice(&40u32.to_le_bytes());
    file.extend_from_slice(&22u32.to_le_bytes());
    file.extend_from_slice(&40u32.to_le_bytes());
    file.extend_from_slice(&70000i32.to_le_bytes());
    file.extend_from_slice(&140000i32.to_le_bytes());
    file.extend_from_slice(&[1, 0, 32, 0]);
    file.extend_from_slice(&[0; 24]);
    reread(file)
}

#[test]
fn handle_ico_gives_a_png_file() {
    let png = handle_ico(&entry(8, 6, true)).unwrap();
    assert_eq!(&png[..8], b"\x89PNG\r\n\x1a\n");
    assert_eq!(image::guess_format(&png).unwrap(), image::ImageFormat::Png);
}

#[test]
fn png_round_trip_keeps_every_pixel() {
    let png = handle_ico(&entry(8, 6, true)).unwrap();
    let decoded = image::load_from_memory(&png).unwrap();
    assert_eq!((decoded.width(), decoded.height()), (8, 6));
    assert_eq!(decoded.to_rgba8().into_raw(), pixels(8, 6, true));
}

#[test]
fn png_round_trip_keeps_opaque_pixels() {
    let png = handle_ico(&entry(5, 9, false)).unwrap();
    let decoded = image::load_from_memory(&png).unwrap();
    assert_eq!(decoded.to_rgba8().into_raw(), pixels(5, 9, false));
}

#[test]
fn handle_ico_decodes_bmp_entries_too() {
    let image = ico::IconImage::from_rgba_data(4, 4, pixels(4, 4, true));
    let entry = ico::IconDirEntry::encode_as_bmp(&image).unwrap();
    let png = handle_ico(&entry).unwrap();
    let decoded = image::load_from_memory(&png).unwrap();
    assert_eq!(decoded.to_rgba8().into_raw(), pixels(4, 4, true));
}

#[test]
fn convert_to_png_is_the_intermediate_image() {
    let entry = entry(8, 6, true);
    assert_eq!(convert(&entry, SupportedImages::Png).unwrap(), handle_ico(&entry).unwrap());
}

#[test]
fn convert_to_jpeg_twice_is_identical() {
    let entry = entry(16, 16, true);
    let first = convert(&entry, SupportedImages::Jpeg).unwrap();
    let second = convert(&entry, SupportedImages::Jpeg).unwrap();
    assert_eq!(first, second);
    assert_eq!(image::guess_format(&first).unwrap(), image::ImageFormat::Jpeg);
}

#[test]
fn convert_twice_is_identical_in_every_format() {
    let entry = entry(7, 5, true);
    for format in [SupportedImages::Png, SupportedImages::Bmp, SupportedImages::Webp] {
        assert_eq!(convert(&entry, format).unwrap(), convert(&entry, format).unwrap());
    }
}

#[test]
fn jpeg_has_no_alpha_channel() {
    for with_alpha in [true, false] {
        let jpeg = convert(&entry(16, 16, with_alpha), SupportedImages::Jpeg).unwrap();
        let decoded = image::load_from_memory(&jpeg).unwrap();
        assert_eq!((decoded.width(), decoded.height()), (16, 16));
        assert_eq!(decoded.color(), image::ColorType::Rgb8);
        assert!(!decoded.color().has_alpha());
    }
}

#[test]
fn jpeg_drops_alpha_without_blending() {
    let transparent = convert(&entry(16, 16, true), SupportedImages::Jpeg).unwrap();
    let opaque = convert(&entry(16, 16, false), SupportedImages::Jpeg).unwrap();
    assert_eq!(transparent, opaque);
}

#[test]
fn bmp_keeps_every_pixel() {
    for with_alpha in [true, false] {
        let bmp = convert(&entry(6, 4, with_alpha), SupportedImages::Bmp).unwrap();
        assert_eq!(image::guess_format(&bmp).unwrap(), image::ImageFormat::Bmp);
        let decoded = image::load_from_memory(&bmp).unwrap();
        assert_eq!(decoded.to_rgba8().into_raw(), pixels(6, 4, with_alpha));
    }
}

#[test]
fn webp_keeps_every_pixel() {
    for with_alpha in [true, false] {
        let webp = convert(&entry(6, 4, with_alpha), SupportedImages::Webp).unwrap();
        assert_eq!(image::guess_format(&webp).unwrap(), image::ImageFormat::WebP);
        let decoded = image::load_from_memory(&webp).unwrap();
        assert_eq!(decoded.to_rgba8().into_raw(), pixels(6, 4, with_alpha));
    }
}

#[test]
fn corrupt_entry_fails_to_decode() {
    let entry = corrupt_entry();
    assert!(matches!(
        handle_ico(&entry),
        Err(ConversionError::DecodeFailed(Cause::Container(_)))
    ));
    for format in [
        SupportedImages::Png,
        SupportedImages::Jpeg,
        SupportedImages::Bmp,
        SupportedImages::Webp,
    ] {
        assert!(matches!(
            convert(&entry, format),
            Err(ConversionError::DecodeFailed(Cause::Container(_)))
        ));
    }
}

#[test]
fn oversized_entry_is_refused_before_decoding() {
    let entry = oversized_entry();
    assert_eq!((entry.width(), entry.height()), (70000, 70000));
    assert!(matches!(handle_ico(&entry), Err(ConversionError::DecodeFailed(Cause::Oversized))));
    assert!(matches!(
        convert(&entry, SupportedImages::Bmp),
        Err(ConversionError::DecodeFailed(Cause::Oversized))
    ));
}

#[test]
fn decoder_limits_are_those_of_32_bit_arithmetic() {
    assert!(fits_decoder(1, 1));
    assert!(fits_decoder(256, 256));
    assert!(fits_decoder(32768, 32767));
    assert!(!fits_decoder(32768, 32768));
    assert!(fits_decoder(134217727, 1));
    assert!(!fits_decoder(134217728, 1));
    assert!(fits_decoder(1, 1073741823));
    assert!(!fits_decoder(1, 1073741824));
    assert!(!fits_decoder(u32::MAX, u32::MAX));
    assert!(fits_decoder(0, u32::MAX));
}

#[test]
fn write_image_appends_png_unchanged() {
    let png = handle_ico(&entry(3, 3, true)).unwrap();
    let mut writer = vec![1, 2, 3];
    write_image(&mut writer, &png, SupportedImages::Png).unwrap();
    assert_eq!(&writer[..3], &[1, 2, 3]);
    assert_eq!(&writer[3..], &png[..]);
}

#[test]
fn write_image_passes_any_bytes_through_as_png() {
    let mut writer = Vec::new();
    write_image(&mut writer, b"not an image", SupportedImages::Png).unwrap();
    assert_eq!(writer, b"not an image");
}

#[test]
fn write_image_appends_the_encoded_file() {
    let entry = entry(3, 3, true);
    let png = handle_ico(&entry).unwrap();
    let mut writer = vec![9, 9];
    write_image(&mut writer, &png, SupportedImages::Bmp).unwrap();
    assert_eq!(&writer[..2], &[9, 9]);
    assert_eq!(&writer[2..], &convert(&entry, SupportedImages::Bmp).unwrap()[..]);
}

#[test]
fn write_image_appends_nothing_on_failure() {
    for format in [SupportedImages::Jpeg, SupportedImages::Bmp, SupportedImages::Webp] {
        let mut writer = vec![7, 7, 7];
        let r = write_image(&mut writer, b"not an image", format);
        assert!(matches!(r, Err(ConversionError::DecodeFailed(Cause::Codec(_)))));
        assert_eq!(writer, vec![7, 7, 7]);
    }
}

#[test]
fn truncated_intermediate_image_fails_to_decode() {
    let png = handle_ico(&entry(8, 8, true)).unwrap();
    let mut writer = Vec::new();
    let r = write_image(&mut writer, &png[..png.len() / 2], SupportedImages::Webp);
    assert!(matches!(r, Err(ConversionError::DecodeFailed(Cause::Codec(_)))));
    assert!(writer.is_empty());
}

#[test]
fn failed_decoding_is_passed_on() {
    let error = image::load_from_memory(b"junk").unwrap_err();
    assert!(matches!(
        encode_decoded(Err(error), SupportedImages::Bmp),
        Err(ConversionError::DecodeFailed(Cause::Codec(_)))
    ));
}

#[test]
fn decoded_image_is_encoded_in_the_format() {
    let image = image::DynamicImage::ImageRgba8(
        image::RgbaImage::from_raw(4, 2, pixels(4, 2, true)).unwrap(),
    );
    let expected = [
        (SupportedImages::Png, image::ImageFormat::Png),
        (SupportedImages::Jpeg, image::ImageFormat::Jpeg),
        (SupportedImages::Bmp, image::ImageFormat::Bmp),
        (SupportedImages::Webp, image::ImageFormat::WebP),
    ];
    for (format, written) in expected {
        let file = encode_decoded(Ok(image.clone()), format).unwrap();
        assert_eq!(image::guess_format(&file).unwrap(), written);
    }
}

#[test]
fn jpeg_is_encoded_from_the_rgb_flattening() {
    let image = image::DynamicImage::ImageRgba8(
        image::RgbaImage::from_raw(4, 2, pixels(4, 2, true)).unwrap(),
    );
    let mut expected = std::io::Cursor::new(Vec::new());
    image.to_rgb8().write_to(&mut expected, image::ImageFormat::Jpeg).unwrap();
    let file = encode_decoded(Ok(image), SupportedImages::Jpeg).unwrap();
    assert_eq!(file, expected.into_inner());
}

#[test]
fn empty_raster_is_refused_by_the_jpeg_encoder() {
    let image = image::DynamicImage::new_rgba8(0, 0);
    let r = encode_decoded(Ok(image), SupportedImages::Jpeg);
    assert!(matches!(r, Err(ConversionError::EncodeFailed(Cause::Codec(_)))));
}

#[test]
fn encoder_refusal_is_an_encode_failure() {
    let image = image::DynamicImage::new_rgba8(0, 0);
    for format in [SupportedImages::Bmp, SupportedImages::Webp] {
        let r = encode_decoded(Ok(image.clone()), format);
        assert!(matches!(r, Ok(_) | Err(ConversionError::EncodeFailed(Cause::Codec(_)))));
    }
    let wide = image::DynamicImage::new_rgb8(70000, 1);
    let r = encode_decoded(Ok(wide), SupportedImages::Jpeg);
    assert!(matches!(r, Err(ConversionError::EncodeFailed(Cause::Codec(_)))));
}

#[test]
fn jpeg_of_a_grey_image_is_still_rgb() {
    let grey = image::DynamicImage::ImageLuma8(
        image::GrayImage::from_raw(4, 4, (0..16).map(|v| v * 16).collect()).unwrap(),
    );
    let file = encode_decoded(Ok(grey), SupportedImages::Jpeg).unwrap();
    assert_eq!(image::load_from_memory(&file).unwrap().color(), image::ColorType::Rgb8);
    let grey_alpha = image::DynamicImage::ImageLumaA8(
        image::GrayAlphaImage::from_raw(4, 4, (0..32).map(|v| v * 8).collect()).unwrap(),
    );
    let file = encode_decoded(Ok(grey_alpha), SupportedImages::Jpeg).unwrap();
    assert_eq!(image::load_from_memory(&file).unwrap().color(), image::ColorType::Rgb8);
}

#[test]
fn other_formats_are_encoded_from_the_image_as_it_is() {
    let image = image::DynamicImage::ImageRgba8(
        image::RgbaImage::from_raw(4, 2, pixels(4, 2, true)).unwrap(),
    );
    for (format, written) in [
        (SupportedImages::Bmp, image::ImageFormat::Bmp),
        (SupportedImages::Webp, image::ImageFormat::WebP),
    ] {
        let mut expected = std::io::Cursor::new(Vec::new());
        image.write_to(&mut expected, written).unwrap();
        assert_eq!(encode_decoded(Ok(image.clone()), format).unwrap(), expected.into_inner());
    }
}
