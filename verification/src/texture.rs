//! RGBA8 texture buffers and their PNG encoding.

use image::ImageEncoder;
use vstd::prelude::*;

verus! {

/// Minimum generated-map resolution.
pub const MIN_TEXTURE_RESOLUTION: u32 = 16;

/// Maximum generated-map resolution.
pub const MAX_TEXTURE_RESOLUTION: u32 = 4096;

#[verifier::external_type_specification]
#[verifier::external_body]
pub struct ExIoError(std::io::Error);

/// The PNG file that the `image` crate writes for an RGBA8 buffer of the
/// given size, or `None` when its encoder reports an error.
pub uninterp spec fn png_rgba8_encoding(width: u32, height: u32, pixels: Seq<u8>) -> Option<
    Seq<u8>,
>;

/// Width, height and RGBA8 pixels that the `image` crate decodes from an
/// encoded image file, or `None` when it cannot decode it.
pub uninterp spec fn image_rgba8_decoding(bytes: Seq<u8>) -> Option<(u32, u32, Seq<u8>)>;

/// Largest RGBA8 buffer, in bytes, whose PNG encoding is promised to decode
/// back: half the 512 MiB allocation limit that `image` decodes with by
/// default, which the decoded buffer counts against.
pub const PNG_ROUND_TRIP_MAX_BYTES: u64 = 0x1000_0000;

/// Encodes RGBA8 pixels as PNG with `image`'s `PngEncoder::write_image`.
/// It panics unless the buffer holds exactly `width * height * 4` bytes,
/// which `requires` excludes. The `png` encoder under it fails only on a
/// zero width or height (writing into a `Vec` cannot fail otherwise). The
/// file it writes is an 8-bit RGBA PNG of
/// that size holding those pixels, so `image::load_from_memory` decodes it
/// back to them, for a non-empty image within `PNG_ROUND_TRIP_MAX_BYTES`.
/// Nothing is stated of the error message.
#[verifier::external_body]
fn encode_png_rgba8(pixels: &[u8], width: u32, height: u32) -> (r: Result<Vec<u8>, String>)
    requires
        pixels@.len() == width as nat * height as nat * 4,
    ensures
        (r is Ok) == (width > 0 && height > 0),
        match r {
            Ok(png) => {
                &&& png_rgba8_encoding(width, height, pixels@) == Some(png@)
                &&& width > 0 && height > 0 && pixels@.len() <= PNG_ROUND_TRIP_MAX_BYTES
                    ==> image_rgba8_decoding(png@) == Some((width, height, pixels@))
            },
            Err(_) => png_rgba8_encoding(width, height, pixels@) is None,
        },
{
    let mut buf = Vec::new();
    let encoder = image::codecs::png::PngEncoder::new(&mut buf);
    match encoder.write_image(pixels, width, height, image::ExtendedColorType::Rgba8) {
        Ok(()) => Ok(buf),
        Err(e) => Err(e.to_string()),
    }
}

/// Decodes an image with `image::load_from_memory` (format guessed from the
/// bytes) and converts it to RGBA8; nothing is stated of the error message.
#[verifier::external_body]
fn decode_image_rgba8(bytes: &[u8]) -> (r: Result<(u32, u32, Vec<u8>), String>)
    ensures
        match r {
            Ok((w, h, px)) => image_rgba8_decoding(bytes@) == Some((w, h, px@)),
            Err(_) => image_rgba8_decoding(bytes@) is None,
        },
{
    match image::load_from_memory(bytes) {
        Ok(img) => {
            let rgba = img.to_rgba8();
            let (w, h) = rgba.dimensions();
            Ok((w, h, rgba.into_raw()))
        },
        Err(e) => Err(e.to_string()),
    }
}

/// An RGBA8 texture, row-major, four bytes per texel.
#[derive(Debug, Clone, PartialEq, Eq)]
pub struct RgbaTexture {
    /// Width in texels.
    pub width: u32,
    /// Height in texels.
    pub height: u32,
    /// RGBA8 pixels, `width * height * 4` bytes.
    pub pixels: Vec<u8>,
}

/// Errors from texture encode/decode and slot resolution.
#[derive(Debug)]
pub enum TextureError {
    /// An image failed to decode.
    Decode(String),
    /// An image failed to encode.
    Encode(String),
    /// A slot path could not be read.
    Io(std::io::Error),
    /// A slot path was set but empty or non-UTF-8.
    BadPath(String),
}

/// Byte offset of texel `(x, y)` in a row-major RGBA8 buffer of the given
/// width.
pub open spec fn texel_offset(width: u32, x: u32, y: u32) -> int {
    (y * width + x) * 4
}

impl RgbaTexture {
    /// The buffer holds exactly `width * height` texels, and every byte
    /// offset of it fits a `u32`.
    pub open spec fn wf(&self) -> bool {
        &&& self.pixels@.len() == self.width as nat * self.height as nat * 4
        &&& self.width as nat * self.height as nat * 4 <= u32::MAX
    }

    /// The four bytes at byte offset `i`.
    pub open spec fn texel_at(&self, i: int) -> Seq<u8> {
        self.pixels@.subrange(i, i + 4)
    }

    /// A zeroed texture.
    pub fn new(width: u32, height: u32) -> (t: Self)
        requires
            width as nat * height as nat * 4 <= u32::MAX,
        ensures
            t.width == width,
            t.height == height,
            t.wf(),
            forall|i: int| 0 <= i < t.pixels@.len() ==> t.pixels@[i] == 0,
    {
        assert(width * height <= u32::MAX) by (nonlinear_arith)
            requires
                width as nat * height as nat * 4 <= u32::MAX,
        ;
        let n = ((width * height * 4) as usize);
        let mut pixels: Vec<u8> = Vec::new();
        let mut i: usize = 0;
        while i < n
            invariant
                i <= n,
                pixels@.len() == i,
                forall|j: int| 0 <= j < i ==> pixels@[j] == 0,
            decreases n - i,
        {
            pixels.push(0);
            i = i + 1;
        }
        RgbaTexture { width, height, pixels }
    }

    /// Texel at integer coordinates, clamped to the last row and column.
    pub fn get(&self, x: u32, y: u32) -> (c: [u8; 4])
        requires
            self.wf(),
            self.width > 0,
            self.height > 0,
        ensures
            c@ == self.texel_at(
                texel_offset(
                    self.width,
                    if x < self.width { x } else { (self.width - 1) as u32 },
                    if y < self.height { y } else { (self.height - 1) as u32 },
                ),
            ),
    {
        let x = if x < self.width { x } else { self.width - 1 };
        let y = if y < self.height { y } else { self.height - 1 };
        proof {
            assert((y * self.width + x) * 4 + 4 <= self.width as nat * self.height as nat * 4)
                by (nonlinear_arith)
                requires
                    x < self.width,
                    y < self.height,
            ;
        }
        let i = ((y * self.width + x) * 4) as usize;
        let c = [self.pixels[i], self.pixels[i + 1], self.pixels[i + 2], self.pixels[i + 3]];
        assert(c@ =~= self.texel_at(i as int));
        c
    }

    /// Writes a texel at the linear texel index `y * width + x`.
    pub fn set(&mut self, x: u32, y: u32, c: [u8; 4])
        requires
            (y * old(self).width + x) * 4 + 4 <= old(self).pixels@.len(),
            (y * old(self).width + x) * 4 <= u32::MAX,
        ensures
            final(self).width == old(self).width,
            final(self).height == old(self).height,
            final(self).pixels@ == old(self).pixels@.take(texel_offset(old(self).width, x, y))
                + c@ + old(self).pixels@.skip(texel_offset(old(self).width, x, y) + 4),
    {
        let i = ((y * self.width + x) * 4) as usize;
        self.pixels[i] = c[0];
        self.pixels[i + 1] = c[1];
        self.pixels[i + 2] = c[2];
        self.pixels[i + 3] = c[3];
        assert(self.pixels@ =~= old(self).pixels@.take(i as int) + c@ + old(self).pixels@.skip(
            i + 4,
        ));
    }

    /// Encodes the texture as PNG bytes (deterministic for identical
    /// pixels); it succeeds exactly when the texture is not empty. A
    /// texture within `PNG_ROUND_TRIP_MAX_BYTES` decodes back from them, by
    /// `from_image_bytes`, to itself.
    pub fn to_png(&self) -> (r: Result<Vec<u8>, TextureError>)
        requires
            self.pixels@.len() == self.width as nat * self.height as nat * 4,
        ensures
            (r is Ok) == (self.width > 0 && self.height > 0),
            match r {
                Ok(png) => {
                    &&& png_rgba8_encoding(self.width, self.height, self.pixels@) == Some(png@)
                    &&& self.width > 0 && self.height > 0 && self.pixels@.len()
                        <= PNG_ROUND_TRIP_MAX_BYTES ==> image_rgba8_decoding(png@) == Some(
                        (self.width, self.height, self.pixels@),
                    )
                },
                Err(e) => e is Encode && png_rgba8_encoding(
                    self.width,
                    self.height,
                    self.pixels@,
                ) is None,
            },
    {
        match encode_png_rgba8(self.pixels.as_slice(), self.width, self.height) {
            Ok(png) => Ok(png),
            Err(msg) => Err(TextureError::Encode(msg)),
        }
    }

    /// Decodes any image format `image` understands into RGBA8.
    pub fn from_image_bytes(bytes: &[u8]) -> (r: Result<Self, TextureError>)
        ensures
            match r {
                Ok(t) => image_rgba8_decoding(bytes@) == Some((t.width, t.height, t.pixels@)),
                Err(e) => e is Decode && image_rgba8_decoding(bytes@) is None,
            },
    {
        match decode_image_rgba8(bytes) {
            Ok((width, height, pixels)) => Ok(RgbaTexture { width, height, pixels }),
            Err(msg) => Err(TextureError::Decode(msg)),
        }
    }
}

/// Reading a texel back after `set` gives what was written, and every
/// other texel keeps its bytes.
pub proof fn lemma_set_then_get(t: RgbaTexture, x: u32, y: u32, c: [u8; 4], x2: u32, y2: u32)
    requires
        t.wf(),
        x < t.width,
        y < t.height,
        x2 < t.width,
        y2 < t.height,
    ensures
        ({
            let o = texel_offset(t.width, x, y);
            let written = t.pixels@.take(o) + c@ + t.pixels@.skip(o + 4);
            let o2 = texel_offset(t.width, x2, y2);
            &&& written.len() == t.pixels@.len()
            &&& written.subrange(o2, o2 + 4) == if x2 == x && y2 == y {
                c@
            } else {
                t.pixels@.subrange(o2, o2 + 4)
            }
        }),
{
    let w = t.width as int;
    let o = texel_offset(t.width, x, y);
    let o2 = texel_offset(t.width, x2, y2);
    assert(o == (y * w + x) * 4);
    assert(o2 == (y2 * w + x2) * 4);
    assert(o + 4 <= t.pixels@.len()) by (nonlinear_arith)
        requires
            o == (y * w + x) * 4,
            x < w,
            y < t.height,
            t.pixels@.len() == w * t.height * 4,
    ;
    assert(o2 + 4 <= t.pixels@.len()) by (nonlinear_arith)
        requires
            o2 == (y2 * w + x2) * 4,
            x2 < w,
            y2 < t.height,
            t.pixels@.len() == w * t.height * 4,
    ;
    assert(0 <= o && 0 <= o2) by (nonlinear_arith)
        requires
            o == (y * w + x) * 4,
            o2 == (y2 * w + x2) * 4,
            w >= 0,
    ;
    let written = t.pixels@.take(o) + c@ + t.pixels@.skip(o + 4);
    if x2 == x && y2 == y {
        assert(written.subrange(o2, o2 + 4) =~= c@);
    } else {
        assert(y2 * w + x2 != y * w + x) by (nonlinear_arith)
            requires
                x < w,
                x2 < w,
                x >= 0,
                x2 >= 0,
                !(x2 == x && y2 == y),
        ;
        assert(o2 + 4 <= o || o + 4 <= o2);
        assert(written.subrange(o2, o2 + 4) =~= t.pixels@.subrange(o2, o2 + 4));
    }
}

/// The material maps a species ships with.
#[derive(Debug, Clone)]
pub struct TextureSet {
    /// Tiled bark albedo (opaque).
    pub bark_albedo: RgbaTexture,
    /// Tiled bark normal map, OpenGL +Y (glTF) convention.
    pub bark_normal: RgbaTexture,
    /// Leaf card albedo+alpha.
    pub leaf_card: RgbaTexture,
}

} // verus!
