//! Tests for the image codec adapter: decoding, encoding, round trips, and
//! the error paths for malformed or unsupported inputs.

use image::ImageEncoder;
use img_assets::deserialize_img;
use img_assets::serialize_img;
use img_assets::DecodeError;
use img_assets::EncodeError;
use img_assets::Texture2D;
use img_assets::TextureData;

/// The 2x2 four-channel test pixels: black, red, green, blue, row-major.
fn rgba_2x2_pixels() -> Vec<[u8; 4]> {
    vec![
        [0, 0, 0, 255],
        [255, 0, 0, 255],
        [0, 255, 0, 255],
        [0, 0, 255, 255],
    ]
}

/// The same pixels as one interleaved byte run.
fn rgba_2x2_raw() -> Vec<u8> {
    rgba_2x2_pixels().into_iter().flatten().collect()
}

/// The 2x2 test image encoded as PNG by the same encoder the library uses.
fn rgba_2x2_png() -> Vec<u8> {
    let mut out: Vec<u8> = Vec::new();
    let encoder = image::codecs::png::PngEncoder::new(&mut out);
    encoder
        .write_image(&rgba_2x2_raw(), 2, 2, image::ColorType::Rgba8)
        .unwrap();
    out
}

/// A radiance stream of the given dimensions whose first pixel carries the
/// RGBE bytes (169, 252, 205, 126) and whose other pixels are zero.
fn radiance_stream(width: u32, height: u32) -> Vec<u8> {
    let mut bytes = Vec::new();
    bytes.extend_from_slice(b"#?RADIANCE\n");
    bytes.extend_from_slice(b"FORMAT=32-bit_rle_rgbe\n");
    bytes.extend_from_slice(b"\n");
    bytes.extend_from_slice(format!("-Y {} +X {}\n", height, width).as_bytes());
    bytes.extend_from_slice(&[169, 252, 205, 126]);
    for _ in 1..(width as usize * height as usize) {
        bytes.extend_from_slice(&[0, 0, 0, 0]);
    }
    bytes
}

#[test]
pub fn deserialize_png() {
    let tex = deserialize_img(&rgba_2x2_png()).unwrap();
    if let TextureData::RgbaU8(data) = tex.data {
        assert_eq!(
            data,
            vec![
                [0, 0, 0, 255],
                [255, 0, 0, 255],
                [0, 255, 0, 255],
                [0, 0, 255, 255],
            ]
        );
    } else {
        panic!("Wrong texture data")
    }
    assert_eq!(tex.width, 2);
    assert_eq!(tex.height, 2);
}

#[test]
pub fn serialize_png() {
    let tex = Texture2D {
        data: TextureData::RgbaU8(rgba_2x2_pixels()),
        width: 2,
        height: 2,
    };
    let img = serialize_img(&tex, "test.png").unwrap();

    assert_eq!(&rgba_2x2_png(), img.get("test.png").unwrap());
}

#[test]
pub fn deserialize_hdr() {
    let tex = deserialize_img(&radiance_stream(1024, 512)).unwrap();
    if let TextureData::RgbF32Bits(data) = tex.data {
        assert_eq!(data.len(), 1024 * 512);
        let first = [
            f32::from_bits(data[0][0]),
            f32::from_bits(data[0][1]),
            f32::from_bits(data[0][2]),
        ];
        assert_eq!(first, [0.16503906, 0.24609375, 0.20019531]);
    } else {
        panic!("Wrong texture data")
    }
    assert_eq!(tex.width, 1024);
    assert_eq!(tex.height, 512);
}

#[test]
fn round_trip_reproduces_rgba_buffer() {
    let tex = Texture2D {
        data: TextureData::RgbaU8(rgba_2x2_pixels()),
        width: 2,
        height: 2,
    };
    let bundle = serialize_img(&tex, "rt.png").unwrap();
    let encoded = bundle.get("rt.png").unwrap();
    let back = deserialize_img(encoded).unwrap();
    assert_eq!(back.width, tex.width);
    assert_eq!(back.height, tex.height);
    assert_eq!(back.data, tex.data);
}

#[test]
fn deserialize_empty_input_fails() {
    assert_eq!(deserialize_img(&[]), Err(DecodeError::Malformed));
}

#[test]
fn deserialize_unrecognized_bytes_fail() {
    assert_eq!(
        deserialize_img(b"this is not an image"),
        Err(DecodeError::Malformed)
    );
}

#[test]
fn deserialize_corrupt_png_fails() {
    let mut bytes = rgba_2x2_png();
    bytes.truncate(12);
    assert_eq!(deserialize_img(&bytes), Err(DecodeError::Malformed));
}

#[test]
fn deserialize_truncated_hdr_fails() {
    let mut bytes = radiance_stream(8, 8);
    bytes.truncate(bytes.len() - 40);
    assert_eq!(deserialize_img(&bytes), Err(DecodeError::Malformed));
}

#[test]
fn deserialize_gray_png() {
    let raw: Vec<u8> = vec![7, 9, 11, 13, 17, 19];
    let mut png: Vec<u8> = Vec::new();
    image::codecs::png::PngEncoder::new(&mut png)
        .write_image(&raw, 3, 2, image::ColorType::L8)
        .unwrap();
    let tex = deserialize_img(&png).unwrap();
    assert_eq!(tex.width, 3);
    assert_eq!(tex.height, 2);
    assert_eq!(tex.data, TextureData::RU8(raw));
}

#[test]
fn deserialize_gray_alpha_png() {
    let raw: Vec<u8> = vec![10, 20, 30, 40, 50, 60, 70, 80];
    let mut png: Vec<u8> = Vec::new();
    image::codecs::png::PngEncoder::new(&mut png)
        .write_image(&raw, 2, 2, image::ColorType::La8)
        .unwrap();
    let tex = deserialize_img(&png).unwrap();
    assert_eq!(tex.width, 2);
    assert_eq!(tex.height, 2);
    assert_eq!(
        tex.data,
        TextureData::RgU8(vec![[10, 20], [30, 40], [50, 60], [70, 80]])
    );
}

#[test]
fn deserialize_rgb_png() {
    let raw: Vec<u8> = vec![1, 2, 3, 4, 5, 6, 7, 8, 9, 10, 11, 12];
    let mut png: Vec<u8> = Vec::new();
    image::codecs::png::PngEncoder::new(&mut png)
        .write_image(&raw, 2, 2, image::ColorType::Rgb8)
        .unwrap();
    let tex = deserialize_img(&png).unwrap();
    assert_eq!(tex.width, 2);
    assert_eq!(tex.height, 2);
    assert_eq!(
        tex.data,
        TextureData::RgbU8(vec![[1, 2, 3], [4, 5, 6], [7, 8, 9], [10, 11, 12]])
    );
}

#[test]
fn deserialize_sixteen_bit_png_is_unsupported() {
    let raw: Vec<u8> = vec![0, 1, 0, 2, 0, 3, 0, 4];
    let mut png: Vec<u8> = Vec::new();
    image::codecs::png::PngEncoder::new(&mut png)
        .write_image(&raw, 2, 2, image::ColorType::L16)
        .unwrap();
    assert_eq!(deserialize_img(&png), Err(DecodeError::UnsupportedLayout));
}

#[test]
fn serialize_single_channel_is_unsupported() {
    let tex = Texture2D {
        data: TextureData::RU8(vec![1, 2, 3, 4]),
        width: 2,
        height: 2,
    };
    assert_eq!(
        serialize_img(&tex, "gray.png"),
        Err(EncodeError::UnsupportedLayout)
    );
}

#[test]
fn serialize_hdr_layout_is_unsupported() {
    let tex = Texture2D {
        data: TextureData::RgbF32Bits(vec![[0, 0, 0]]),
        width: 1,
        height: 1,
    };
    assert_eq!(
        serialize_img(&tex, "radiance.hdr"),
        Err(EncodeError::UnsupportedLayout)
    );
}

#[test]
fn serialize_mismatched_pixel_count_fails() {
    let tex = Texture2D {
        data: TextureData::RgbaU8(rgba_2x2_pixels()),
        width: 3,
        height: 2,
    };
    assert_eq!(
        serialize_img(&tex, "bad.png"),
        Err(EncodeError::ByteCountMismatch)
    );
}

#[test]
fn serialize_zero_extent_fails() {
    let tex = Texture2D {
        data: TextureData::RgbaU8(Vec::new()),
        width: 0,
        height: 0,
    };
    assert_eq!(serialize_img(&tex, "empty.png"), Err(EncodeError::Codec));
}
