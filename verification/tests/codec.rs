use avif_convert::codec::{convert, decode, encode_avif};
use avif_convert::image_data::{DecodedImage, PixelData};
use avif_convert::normalize::normalize;

fn png_bytes(img: image::DynamicImage) -> Vec<u8> {
    let mut out = std::io::Cursor::new(Vec::new());
    img.write_to(&mut out, image::ImageFormat::Png).unwrap();
    out.into_inner()
}

fn rgb_2x2_png() -> Vec<u8> {
    let raw = vec![10, 20, 30, 40, 50, 60, 70, 80, 90, 100, 110, 120];
    let buf = image::RgbImage::from_raw(2, 2, raw).unwrap();
    png_bytes(image::DynamicImage::ImageRgb8(buf))
}

#[test]
fn decode_rgb_png_keeps_samples() {
    let img = decode(&rgb_2x2_png()).unwrap();
    assert_eq!(img.width, 2);
    assert_eq!(img.height, 2);
    match img.data {
        PixelData::Rgb8(d) => {
            assert_eq!(d, vec![10, 20, 30, 40, 50, 60, 70, 80, 90, 100, 110, 120]);
        }
        _ => panic!("expected an 8-bit RGB representation"),
    }
}

#[test]
fn decode_gray_png_then_normalize() {
    let buf = image::GrayImage::from_raw(2, 2, vec![0, 85, 170, 255]).unwrap();
    let png = png_bytes(image::DynamicImage::ImageLuma8(buf));
    let img = decode(&png).unwrap();
    match &img.data {
        PixelData::Gray8(d) => assert_eq!(d, &vec![0, 85, 170, 255]),
        _ => panic!("expected an 8-bit grayscale representation"),
    }
    let out = normalize(&img);
    assert_eq!(
        out,
        vec![0, 0, 0, 255, 85, 85, 85, 255, 170, 170, 170, 255, 255, 255, 255, 255]
    );
}

#[test]
fn decode_gray_alpha_png_keeps_alpha() {
    let buf = image::GrayAlphaImage::from_raw(1, 2, vec![10, 200, 30, 40]).unwrap();
    let png = png_bytes(image::DynamicImage::ImageLumaA8(buf));
    let img = decode(&png).unwrap();
    match &img.data {
        PixelData::GrayAlpha8(d) => assert_eq!(d, &vec![10, 200, 30, 40]),
        _ => panic!("expected an 8-bit grayscale-alpha representation"),
    }
    let out = normalize(&img);
    assert_eq!(out, vec![10, 10, 10, 200, 30, 30, 30, 40]);
}

#[test]
fn decode_rgb16_png_truncates_on_normalize() {
    let raw: Vec<u16> = vec![0x1234, 0x5678, 0x9ABC];
    let buf: image::ImageBuffer<image::Rgb<u16>, Vec<u16>> =
        image::ImageBuffer::from_raw(1, 1, raw).unwrap();
    let png = png_bytes(image::DynamicImage::ImageRgb16(buf));
    let img = decode(&png).unwrap();
    match &img.data {
        PixelData::Rgb16(d) => assert_eq!(d, &vec![0x1234, 0x5678, 0x9ABC]),
        _ => panic!("expected a 16-bit RGB representation"),
    }
    let out = normalize(&img);
    assert_eq!(out, vec![0x12, 0x56, 0x9A, 255]);
}

#[test]
fn decode_malformed_input_fails() {
    let err = decode(&vec![0, 1, 2, 3, 4, 5, 6, 7]).unwrap_err();
    assert!(err.is_decode());
    assert!(!err.message().is_empty());
}

#[test]
fn decode_truncated_png_fails() {
    let mut png = rgb_2x2_png();
    png.truncate(12);
    let err = decode(&png).unwrap_err();
    assert!(err.is_decode());
}

#[test]
fn convert_produces_avif_container() {
    let out = convert(&rgb_2x2_png(), 6, 50).unwrap();
    assert!(!out.is_empty());
    assert_eq!(&out[4..8], b"ftyp");
    assert_eq!(&out[8..12], b"avif");
}

#[test]
fn convert_output_differs_from_input() {
    let png = rgb_2x2_png();
    let out = convert(&png, 10, 50).unwrap();
    assert_ne!(out, png);
}

#[test]
fn convert_malformed_input_fails() {
    let err = convert(&vec![42; 16], 6, 50).unwrap_err();
    assert!(err.is_decode());
}

#[test]
fn encode_succeeds_at_boundary_knobs() {
    let img = DecodedImage {
        width: 2,
        height: 2,
        data: PixelData::Gray8(vec![0, 85, 170, 255]),
    };
    let pixels = normalize(&img);
    assert!(encode_avif(&pixels, 2, 2, 1, 50).is_ok());
    assert!(encode_avif(&pixels, 2, 2, 10, 50).is_ok());
    assert!(encode_avif(&pixels, 2, 2, 6, 1).is_ok());
    assert!(encode_avif(&pixels, 2, 2, 6, 100).is_ok());
}

#[test]
fn encode_rejects_zero_area() {
    let err = encode_avif(&Vec::new(), 0, 2, 6, 50).unwrap_err();
    assert!(err.is_encode());
    let err = encode_avif(&Vec::new(), 2, 0, 6, 50).unwrap_err();
    assert!(err.is_encode());
}

#[test]
fn encode_rejects_out_of_range_knobs() {
    let pixels = vec![0; 16];
    assert!(encode_avif(&pixels, 2, 2, 0, 50).unwrap_err().is_encode());
    assert!(encode_avif(&pixels, 2, 2, 11, 50).unwrap_err().is_encode());
    assert!(encode_avif(&pixels, 2, 2, 6, 0).unwrap_err().is_encode());
    assert!(encode_avif(&pixels, 2, 2, 6, 101).unwrap_err().is_encode());
}

#[test]
fn encode_rejects_wrong_buffer_length() {
    let err = encode_avif(&vec![0; 15], 2, 2, 6, 50).unwrap_err();
    assert!(err.is_encode());
}

#[test]
fn encode_is_deterministic() {
    let img = DecodedImage {
        width: 2,
        height: 2,
        data: PixelData::Rgb8(vec![10, 20, 30, 40, 50, 60, 70, 80, 90, 100, 110, 120]),
    };
    let pixels = normalize(&img);
    let a = encode_avif(&pixels, 2, 2, 1, 100).unwrap();
    let b = encode_avif(&pixels, 2, 2, 1, 100).unwrap();
    assert_eq!(a, b);
}
