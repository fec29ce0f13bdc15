//! Conversion between encoded image byte streams and [`Texture2D`] pixel
//! buffers.
//!
//! The compressed formats are decoded and encoded by the `image` codec crate
//! behind a small set of trusted wrappers; everything around those calls —
//! format sniffing, regrouping interleaved bytes into per-pixel tuples,
//! flattening them back, and the exact success and failure conditions — is
//! verified.

use crate::assets::RawAssets;
use crate::texture::Texture2D;
use crate::texture::TextureData;
use image::DynamicImage as Dyn;
use image::ImageEncoder;
use vstd::arithmetic::div_mod::lemma_fundamental_div_mod;
use vstd::arithmetic::div_mod::lemma_fundamental_div_mod_converse;
use vstd::prelude::*;

verus! {

#[verifier::external_type_specification]
#[verifier::external_body]
pub struct ExImageError(image::ImageError);

/// Why a byte stream could not be decoded into a pixel buffer.
#[derive(Debug, Clone, Copy, PartialEq, Eq, Structural)]
pub enum DecodeError {
    /// The stream is malformed or truncated, or matches no known format.
    Malformed,
    /// The stream decoded to a channel layout this library does not support
    /// (for example an indexed palette or a 16-bit channel depth).
    UnsupportedLayout,
}

/// Why a pixel buffer could not be encoded.
#[derive(Debug, Clone, Copy, PartialEq, Eq, Structural)]
pub enum EncodeError {
    /// Only the four-channel 8-bit layout can be encoded.
    UnsupportedLayout,
    /// The pixel count does not match the buffer's stated dimensions.
    ByteCountMismatch,
    /// The underlying encoder rejected the image: a zero dimension, or an
    /// image too large for it.
    Codec,
}

/// The signature that opens a radiance high-dynamic-range stream: the bytes
/// of `#?RADIANCE`.
pub open spec fn radiance_magic() -> Seq<u8> {
    seq![0x23u8, 0x3fu8, 0x52u8, 0x41u8, 0x44u8, 0x49u8, 0x41u8, 0x4eu8, 0x43u8, 0x45u8]
}

/// True when the stream sniffs as the radiance high-dynamic-range format:
/// it starts with the radiance signature.
pub open spec fn has_hdr_magic(s: Seq<u8>) -> bool {
    s.len() >= 10 && s.subrange(0, 10) == radiance_magic()
}

/// `s` regrouped into consecutive runs of `k` bytes, one run per pixel; a
/// trailing remainder shorter than `k` is dropped.
pub open spec fn chunked(s: Seq<u8>, k: int) -> Seq<Seq<u8>>
    recommends
        0 < k,
{
    Seq::new((s.len() / k as nat) as nat, |i: int| s.subrange(k * i, k * i + k))
}

/// Pixel rows of length `k` flattened back into one interleaved byte run.
pub open spec fn flat(p: Seq<Seq<u8>>, k: int) -> Seq<u8>
    recommends
        0 < k,
{
    Seq::new((k * p.len()) as nat, |i: int| p[i / k][i % k])
}

/// The per-pixel byte tuples of a two-channel buffer, as sequences.
pub open spec fn rows2(v: Seq<[u8; 2]>) -> Seq<Seq<u8>> {
    v.map_values(|p: [u8; 2]| p@)
}

/// The per-pixel byte tuples of a three-channel buffer, as sequences.
pub open spec fn rows3(v: Seq<[u8; 3]>) -> Seq<Seq<u8>> {
    v.map_values(|p: [u8; 3]| p@)
}

/// The per-pixel byte tuples of a four-channel buffer, as sequences.
pub open spec fn rows4(v: Seq<[u8; 4]>) -> Seq<Seq<u8>> {
    v.map_values(|p: [u8; 4]| p@)
}

/// The per-pixel bit-pattern tuples of a high-dynamic-range buffer, as
/// sequences.
pub open spec fn rows_hdr(v: Seq<[u32; 3]>) -> Seq<Seq<u32>> {
    v.map_values(|p: [u32; 3]| p@)
}

/// Every radiance component of a high-dynamic-range buffer is the bit
/// pattern of a finite, non-negative float: it stays below the exponent
/// mask.
pub open spec fn hdr_components_finite(v: Seq<[u32; 3]>) -> bool {
    forall|i: int, j: int| 0 <= i < v.len() && 0 <= j < 3 ==> #[trigger] v[i]@[j] < 0x7f80_0000
}

/// Law: flattening fixed-arity pixel rows and regrouping them yields the
/// rows back unchanged. Together with the encode and decode contracts this
/// makes a round trip through the lossless raster container reproduce a
/// four-channel buffer exactly.
pub proof fn lemma_chunked_of_flat(p: Seq<Seq<u8>>, k: int)
    requires
        0 < k,
        forall|i: int| 0 <= i < p.len() ==> (#[trigger] p[i]).len() == k,
    ensures
        chunked(flat(p, k), k) == p,
{
    let n = p.len() as int;
    let f = flat(p, k);
    assert(f.len() == k * n);
    assert((k * n) / k == n && (k * n) % k == 0) by {
        assert(k * n == n * k) by (nonlinear_arith);
        lemma_fundamental_div_mod_converse(k * n, k, n, 0);
    }
    assert(chunked(f, k).len() == n);
    assert forall|i: int| 0 <= i < n implies #[trigger] chunked(f, k)[i] =~= p[i] by {
        assert(0 <= k * i && k * i + k <= k * n) by (nonlinear_arith)
            requires
                0 <= i < n && 0 < k,
        ;
        let row = f.subrange(k * i, k * i + k);
        assert(chunked(f, k)[i] == row);
        assert(row.len() == k);
        assert forall|j: int| 0 <= j < k implies row[j] == p[i][j] by {
            assert(row[j] == f[k * i + j]);
            assert((k * i + j) / k == i && (k * i + j) % k == j) by {
                assert(k * i + j == i * k + j) by (nonlinear_arith);
                lemma_fundamental_div_mod_converse(k * i + j, k, i, j);
            }
        }
    }
    assert(chunked(f, k) =~~= p);
}

/// Regroup an interleaved byte run into two-byte pixel tuples.
fn group2(bytes: Vec<u8>) -> (out: Vec<[u8; 2]>)
    ensures
        rows2(out@) == chunked(bytes@, 2),
{
    let mut out: Vec<[u8; 2]> = Vec::new();
    let n: usize = bytes.len() / 2;
    proof {
        lemma_fundamental_div_mod(bytes@.len() as int, 2);
    }
    for i in 0..n
        invariant
            n == bytes@.len() / 2,
            2 * n <= bytes@.len(),
            bytes@.len() <= usize::MAX,
            out@.len() == i,
            forall|j: int, t: int|
                0 <= j < i && 0 <= t < 2 ==> #[trigger] out@[j]@[t] == bytes@[2 * j + t],
    {
        out.push([bytes[2 * i], bytes[2 * i + 1]]);
    }
    proof {
        assert forall|j: int| 0 <= j < out@.len() implies #[trigger] rows2(out@)[j] =~= chunked(
            bytes@,
            2,
        )[j] by {}
        assert(rows2(out@) =~~= chunked(bytes@, 2));
    }
    out
}

/// Regroup an interleaved byte run into three-byte pixel tuples.
fn group3(bytes: Vec<u8>) -> (out: Vec<[u8; 3]>)
    ensures
        rows3(out@) == chunked(bytes@, 3),
{
    let mut out: Vec<[u8; 3]> = Vec::new();
    let n: usize = bytes.len() / 3;
    proof {
        lemma_fundamental_div_mod(bytes@.len() as int, 3);
    }
    for i in 0..n
        invariant
            n == bytes@.len() / 3,
            3 * n <= bytes@.len(),
            bytes@.len() <= usize::MAX,
            out@.len() == i,
            forall|j: int, t: int|
                0 <= j < i && 0 <= t < 3 ==> #[trigger] out@[j]@[t] == bytes@[3 * j + t],
    {
        out.push([bytes[3 * i], bytes[3 * i + 1], bytes[3 * i + 2]]);
    }
    proof {
        assert forall|j: int| 0 <= j < out@.len() implies #[trigger] rows3(out@)[j] =~= chunked(
            bytes@,
            3,
        )[j] by {}
        assert(rows3(out@) =~~= chunked(bytes@, 3));
    }
    out
}

/// Regroup an interleaved byte run into four-byte pixel tuples.
fn group4(bytes: Vec<u8>) -> (out: Vec<[u8; 4]>)
    ensures
        rows4(out@) == chunked(bytes@, 4),
{
    let mut out: Vec<[u8; 4]> = Vec::new();
    let n: usize = bytes.len() / 4;
    proof {
        lemma_fundamental_div_mod(bytes@.len() as int, 4);
    }
    for i in 0..n
        invariant
            n == bytes@.len() / 4,
            4 * n <= bytes@.len(),
            bytes@.len() <= usize::MAX,
            out@.len() == i,
            forall|j: int, t: int|
                0 <= j < i && 0 <= t < 4 ==> #[trigger] out@[j]@[t] == bytes@[4 * j + t],
    {
        out.push([bytes[4 * i], bytes[4 * i + 1], bytes[4 * i + 2], bytes[4 * i + 3]]);
    }
    proof {
        assert forall|j: int| 0 <= j < out@.len() implies #[trigger] rows4(out@)[j] =~= chunked(
            bytes@,
            4,
        )[j] by {}
        assert(rows4(out@) =~~= chunked(bytes@, 4));
    }
    out
}

/// Flatten four-byte pixel tuples back into one interleaved byte run,
/// row-major, channel order preserved.
fn flatten_rgba(data: &Vec<[u8; 4]>) -> (out: Vec<u8>)
    ensures
        out@ == flat(rows4(data@), 4),
{
    let mut out: Vec<u8> = Vec::new();
    let n: usize = data.len();
    for i in 0..n
        invariant
            n == data@.len(),
            out@.len() == 4 * i,
            forall|j: int, t: int|
                0 <= j < i && 0 <= t < 4 ==> out@[4 * j + t] == rows4(data@)[j][t],
    {
        let p: [u8; 4] = data[i];
        out.push(p[0]);
        out.push(p[1]);
        out.push(p[2]);
        out.push(p[3]);
    }
    proof {
        assert forall|i: int| 0 <= i < out@.len() implies out@[i] == flat(rows4(data@), 4)[i] by {
            lemma_fundamental_div_mod(i, 4);
        }
        assert(out@ =~= flat(rows4(data@), 4));
    }
    out
}

/// Check whether a byte stream sniffs as the radiance high-dynamic-range
/// format.
fn is_hdr_magic(bytes: &[u8]) -> (r: bool)
    ensures
        r == has_hdr_magic(bytes@),
{
    if bytes.len() < 10 {
        return false;
    }
    let m: bool = bytes[0] == 0x23 && bytes[1] == 0x3f && bytes[2] == 0x52 && bytes[3] == 0x41
        && bytes[4] == 0x44 && bytes[5] == 0x49 && bytes[6] == 0x41 && bytes[7] == 0x4e
        && bytes[8] == 0x43 && bytes[9] == 0x45;
    proof {
        if m {
            assert(bytes@.subrange(0, 10) =~= radiance_magic());
        } else {
            if bytes@.subrange(0, 10) == radiance_magic() {
                assert(m);
            }
        }
    }
    m
}

/// What the external raster decoder yields for a byte stream: nothing when
/// the stream is rejected, otherwise the channel count of the decoded layout
/// (`1` to `4` for the supported 8-bit layouts, `0` for any other layout),
/// the width, the height, and the interleaved bytes.
pub uninterp spec fn raster_of(bytes: Seq<u8>) -> Option<(u32, u32, u32, Seq<u8>)>;

/// What the external encoder produces for a four-channel 8-bit image of the
/// given dimensions and interleaved bytes, serialized into the lossless
/// raster container.
pub uninterp spec fn png_bytes_of(width: u32, height: u32, raw: Seq<u8>) -> Seq<u8>;

/// What the external radiance decoder yields for a byte stream: nothing when
/// the header is malformed or the pixel stream is truncated, otherwise the
/// width, the height, and the per-pixel triples of radiance bit patterns.
pub uninterp spec fn hdr_of(bytes: Seq<u8>) -> Option<(u32, u32, Seq<Seq<u32>>)>;

/// Dimensions within which the external codec is known to both encode and
/// decode a four-channel 8-bit image: both are positive and the raw pixel
/// bytes stay comfortably inside the decoder's default allocation limit.
pub open spec fn raster_dims_safe(width: u32, height: u32) -> bool {
    0 < width && 0 < height && 4 * ((width as int) * (height as int)) <= 0x1000_0000
}

/// A decoded raster image handed back by the external codec.
struct RasterImage {
    /// Channel count of the decoded layout; `0` for an unsupported layout.
    channels: u32,
    /// Width in pixels.
    width: u32,
    /// Height in pixels.
    height: u32,
    /// Interleaved sample bytes, row-major.
    bytes: Vec<u8>,
}

/// A decoded radiance image handed back by the external codec.
struct HdrImage {
    /// Width in pixels.
    width: u32,
    /// Height in pixels.
    height: u32,
    /// One triple of radiance bit patterns per pixel, row-major.
    pixels: Vec<[u32; 3]>,
}

/// Relies on `image::load_from_memory`: it sniffs the format from the bytes
/// alone and decodes them; a decoded image buffer holds exactly
/// `channels * width * height` samples; decoding the output of the PNG
/// encoder (a lossless format) gives back the dimensions and bytes that were
/// encoded; and an empty input matches no format signature.
#[verifier::external_body]
fn decode_raster(bytes: &[u8]) -> (r: Result<RasterImage, image::ImageError>)
    ensures
        r matches Ok(img) ==> raster_of(bytes@) == Some(
            (img.channels, img.width, img.height, img.bytes@),
        ) && (1 <= img.channels <= 4 ==> img.bytes@.len() == img.channels * ((img.width as int) * (img.height as int))),
        r is Err ==> raster_of(bytes@) is None,
        bytes@.len() == 0 ==> r is Err,
        r is Err ==> (forall|w: u32, h: u32, raw: Seq<u8>|
            raster_dims_safe(w, h) && raw.len() == 4 * ((w as int) * (h as int)) ==> bytes@
                != #[trigger] png_bytes_of(w, h, raw)),
        r matches Ok(img) ==> (forall|w: u32, h: u32, raw: Seq<u8>|
            raster_dims_safe(w, h) && raw.len() == 4 * ((w as int) * (h as int)) && bytes@
                == #[trigger] png_bytes_of(w, h, raw) ==> img.channels == 4 && img.width == w
                && img.height == h && img.bytes@ == raw),
{
    match image::load_from_memory(bytes) {
        Err(e) => Err(e),
        Ok(img) => {
            let channels: u32 = match &img {
                Dyn::ImageLuma8(_) => 1,
                Dyn::ImageLumaA8(_) => 2,
                Dyn::ImageRgb8(_) => 3,
                Dyn::ImageRgba8(_) => 4,
                _ => 0,
            };
            let (w, h) = (img.width(), img.height());
            Ok(RasterImage { channels, width: w, height: h, bytes: img.into_bytes() })
        },
    }
}

/// Relies on `image::codecs::hdr::HdrDecoder`: on success,
/// `read_image_native` yields exactly `width * height` pixels in row-major
/// order, and every radiance component it converts to is a finite,
/// non-negative float (so its bit pattern is below the exponent mask); the
/// native radiance values pass through unchanged, without clamping or
/// scaling.
#[verifier::external_body]
fn decode_hdr(bytes: &[u8]) -> (r: Result<HdrImage, image::ImageError>)
    ensures
        r matches Ok(img) ==> hdr_of(bytes@) == Some((img.width, img.height, rows_hdr(img.pixels@)))
            && img.pixels@.len() == (img.width as int) * (img.height as int) && (forall|
            i: int,
            j: int,
        |
            0 <= i < img.pixels@.len() && 0 <= j < 3 ==> #[trigger] img.pixels@[i]@[j]
                < 0x7f80_0000),
        r is Err ==> hdr_of(bytes@) is None,
{
    let decoder = image::codecs::hdr::HdrDecoder::new(bytes)?;
    let meta = decoder.metadata();
    match decoder.read_image_native() {
        Err(e) => Err(e),
        Ok(native) => {
            let pixels = native.iter().map(
                |p| {
                    let image::Rgb(v) = p.to_hdr();
                    [v[0].to_bits(), v[1].to_bits(), v[2].to_bits()]
                },
            ).collect();
            Ok(HdrImage { width: meta.width, height: meta.height, pixels })
        },
    }
}

/// Relies on `image::codecs::png::PngEncoder::write_image`: writing a
/// four-channel 8-bit buffer of matching length to an in-memory vector fails
/// only when a dimension is zero or the image is very large, and its output
/// starts with the PNG signature byte `0x89`.
#[verifier::external_body]
fn encode_png(width: u32, height: u32, raw: Vec<u8>) -> (r: Result<Vec<u8>, image::ImageError>)
    requires
        raw@.len() == 4 * ((width as int) * (height as int)),
    ensures
        r matches Ok(out) ==> out@ == png_bytes_of(width, height, raw@) && out@.len() >= 8
            && out@[0] == 0x89,
        width == 0 || height == 0 ==> r is Err,
        raster_dims_safe(width, height) ==> r is Ok,
{
    let mut out: Vec<u8> = Vec::new();
    let encoder = image::codecs::png::PngEncoder::new(&mut out);
    match encoder.write_image(&raw, width, height, image::ColorType::Rgba8) {
        Ok(()) => Ok(out),
        Err(e) => Err(e),
    }
}

/// What a successfully decoded pixel buffer holds for the byte stream it was
/// decoded from: the dimensions the decoder reported, and the decoder's
/// output regrouped into per-pixel tuples of the arity the decoded layout
/// calls for (radiance streams keep their three bit-pattern components per
/// pixel, with no clamping or scaling).
pub open spec fn decoded_texture(bytes: Seq<u8>, tex: Texture2D) -> bool {
    if has_hdr_magic(bytes) {
        hdr_of(bytes) matches Some((w, h, pix)) && tex.width == w && tex.height == h
            && (tex.data matches TextureData::RgbF32Bits(v) && rows_hdr(v@) == pix
            && hdr_components_finite(v@))
    } else {
        raster_of(bytes) matches Some((c, w, h, raw)) && tex.width == w && tex.height == h
            && match tex.data {
            TextureData::RU8(v) => c == 1 && v@ == raw,
            TextureData::RgU8(v) => c == 2 && rows2(v@) == chunked(raw, 2),
            TextureData::RgbU8(v) => c == 3 && rows3(v@) == chunked(raw, 3),
            TextureData::RgbaU8(v) => c == 4 && rows4(v@) == chunked(raw, 4),
            TextureData::RgbF32Bits(_) => false,
        }
    }
}

/// Exactly when each decode error is returned for a byte stream.
pub open spec fn decode_failure(bytes: Seq<u8>, e: DecodeError) -> bool {
    match e {
        DecodeError::Malformed => if has_hdr_magic(bytes) {
            hdr_of(bytes) is None
        } else {
            raster_of(bytes) is None
        },
        DecodeError::UnsupportedLayout => !has_hdr_magic(bytes) && (raster_of(bytes) matches Some(
            (c, _, _, _),
        ) && !(1 <= c <= 4)),
    }
}

/// Decode an encoded image byte stream into a pixel buffer.
///
/// The format is sniffed from the content alone. A radiance stream decodes
/// to the three-channel high-dynamic-range layout; any other stream is
/// handed to the raster decoder and regrouped into the fixed-arity layout
/// matching its decoded channel depth. Streams that decode to any other
/// layout are rejected rather than reinterpreted, and a stream that matches
/// no format (the empty stream among them) is rejected as malformed.
pub fn deserialize_img(bytes: &[u8]) -> (r: Result<Texture2D, DecodeError>)
    ensures
        match r {
            Ok(tex) => tex.wf() && decoded_texture(bytes@, tex),
            Err(e) => decode_failure(bytes@, e),
        },
        bytes@.len() == 0 ==> r == Err::<Texture2D, DecodeError>(DecodeError::Malformed),
        forall|w: u32, h: u32, raw: Seq<u8>|
            raster_dims_safe(w, h) && raw.len() == 4 * ((w as int) * (h as int)) && bytes@
                == #[trigger] png_bytes_of(w, h, raw) && !has_hdr_magic(bytes@) ==> (r matches Ok(
                tex,
            ) && tex.width == w && tex.height == h && (tex.data matches TextureData::RgbaU8(v)
                && rows4(v@) == chunked(raw, 4))),
{
    if is_hdr_magic(bytes) {
        match decode_hdr(bytes) {
            Ok(img) => Ok(
                Texture2D {
                    data: TextureData::RgbF32Bits(img.pixels),
                    width: img.width,
                    height: img.height,
                },
            ),
            Err(_) => Err(DecodeError::Malformed),
        }
    } else {
        match decode_raster(bytes) {
            Ok(img) => {
                let width = img.width;
                let height = img.height;
                if img.channels == 1 {
                    let ghost raw = img.bytes@;
                    let t = Texture2D { data: TextureData::RU8(img.bytes), width, height };
                    proof {
                        assert(raw.len() == 1 * ((width as int) * (height as int)));
                        assert(t.data.pixel_count() == raw.len());
                    }
                    Ok(t)
                } else if img.channels == 2 {
                    let ghost raw = img.bytes@;
                    let v = group2(img.bytes);
                    proof {
                        assert(rows2(v@).len() == v@.len());
                        assert(chunked(raw, 2).len() == raw.len() / 2);
                        assert(raw.len() == 2 * ((width as int) * (height as int)));
                        assert(raw.len() / 2 == (width as int) * (height as int));
                        assert(v@.len() == (width as int) * (height as int));
                    }
                    let t = Texture2D { data: TextureData::RgU8(v), width, height };
                    Ok(t)
                } else if img.channels == 3 {
                    let ghost raw = img.bytes@;
                    let v = group3(img.bytes);
                    proof {
                        assert(rows3(v@).len() == v@.len());
                        assert(chunked(raw, 3).len() == raw.len() / 3);
                        assert(raw.len() == 3 * ((width as int) * (height as int)));
                        assert(raw.len() / 3 == (width as int) * (height as int));
                        assert(v@.len() == (width as int) * (height as int));
                    }
                    let t = Texture2D { data: TextureData::RgbU8(v), width, height };
                    Ok(t)
                } else if img.channels == 4 {
                    let ghost raw = img.bytes@;
                    let v = group4(img.bytes);
                    proof {
                        assert(rows4(v@).len() == v@.len());
                        assert(chunked(raw, 4).len() == raw.len() / 4);
                        assert(raw.len() == 4 * ((width as int) * (height as int)));
                        assert(raw.len() / 4 == (width as int) * (height as int));
                        assert(v@.len() == (width as int) * (height as int));
                    }
                    let t = Texture2D { data: TextureData::RgbaU8(v), width, height };
                    Ok(t)
                } else {
                    Err(DecodeError::UnsupportedLayout)
                }
            },
            Err(_) => Err(DecodeError::Malformed),
        }
    }
}

/// Encode a pixel buffer as a lossless compressed raster stream and wrap it
/// in a single-entry asset bundle keyed by `path`.
///
/// Only the four-channel 8-bit layout is supported as an encoding source;
/// every other layout is rejected, as is a buffer whose pixel count does not
/// match its stated dimensions. The per-pixel tuples are flattened back into
/// one interleaved byte run, row-major, channel order preserved.
pub fn serialize_img(tex: &Texture2D, path: &str) -> (r: Result<RawAssets, EncodeError>)
    ensures
        match r {
            Ok(assets) => tex.data matches TextureData::RgbaU8(v) && v@.len() == (tex.width as int)
                * (tex.height as int) && assets@ == Map::<Seq<char>, Seq<u8>>::empty().insert(
                path@,
                png_bytes_of(tex.width, tex.height, flat(rows4(v@), 4)),
            ) && !has_hdr_magic(png_bytes_of(tex.width, tex.height, flat(rows4(v@), 4))),
            Err(e) => match e {
                EncodeError::UnsupportedLayout => !(tex.data is RgbaU8),
                EncodeError::ByteCountMismatch => tex.data matches TextureData::RgbaU8(v) && v@.len()
                    != (tex.width as int) * (tex.height as int),
                EncodeError::Codec => tex.data matches TextureData::RgbaU8(v) && v@.len() == (
                tex.width as int) * (tex.height as int) && !raster_dims_safe(tex.width, tex.height),
            },
        },
        (tex.data matches TextureData::RgbaU8(v) && v@.len() == (tex.width as int) * (
        tex.height as int) && raster_dims_safe(tex.width, tex.height)) ==> r is Ok,
        (tex.data matches TextureData::RgbaU8(v) && v@.len() == (tex.width as int) * (
        tex.height as int) && (tex.width == 0 || tex.height == 0)) ==> r == Err::<
            RawAssets,
            EncodeError,
        >(EncodeError::Codec),
{
    let data = match &tex.data {
        TextureData::RgbaU8(v) => v,
        _ => { return Err(EncodeError::UnsupportedLayout) },
    };
    proof {
        assert((tex.width as int) * (tex.height as int) <= u64::MAX) by (nonlinear_arith)
            requires
                tex.width as int <= 0xffff_ffff && tex.height as int <= 0xffff_ffff,
        ;
    }
    let wh: u64 = (tex.width as u64) * (tex.height as u64);
    if wh != data.len() as u64 {
        return Err(EncodeError::ByteCountMismatch);
    }
    let raw = flatten_rgba(data);
    match encode_png(tex.width, tex.height, raw) {
        Ok(bytes) => {
            proof {
                if has_hdr_magic(bytes@) {
                    assert(bytes@.subrange(0, 10)[0] == radiance_magic()[0]);
                    assert(false);
                }
            }
            let mut assets = RawAssets::new();
            assets.insert(path, bytes);
            Ok(assets)
        },
        Err(_) => Err(EncodeError::Codec),
    }
}

} // verus!
