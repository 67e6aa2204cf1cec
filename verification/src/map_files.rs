//! The baked map files of a package: which pixel format each canonical map
//! must decode as, and the checks on a decoded map's size and format.

use crate::map_checks::{channel_max, channel_min, channel_ranges};
use vstd::prelude::*;
use vstd::string::StrSliceExecFns;

verus! {

/// Pixel formats a decoded PNG can have.
#[derive(Debug, Clone, Copy, PartialEq, Eq, Structural)]
pub enum MapColorType {
    L8,
    La8,
    Rgb8,
    Rgba8,
    L16,
    La16,
    Rgb16,
    Rgba16,
    Rgb32F,
    Rgba32F,
    /// Any other format.
    Other,
}

/// The label of a pixel format in reports.
pub fn color_type_label(t: MapColorType) -> (r: &'static str)
    ensures
        r@ == match t {
            MapColorType::L8 => "L8"@,
            MapColorType::La8 => "LA8"@,
            MapColorType::Rgb8 => "RGB8"@,
            MapColorType::Rgba8 => "RGBA8"@,
            MapColorType::L16 => "L16"@,
            MapColorType::La16 => "LA16"@,
            MapColorType::Rgb16 => "RGB16"@,
            MapColorType::Rgba16 => "RGBA16"@,
            MapColorType::Rgb32F => "RGB32F"@,
            MapColorType::Rgba32F => "RGBA32F"@,
            MapColorType::Other => "unsupported"@,
        },
{
    match t {
        MapColorType::L8 => "L8",
        MapColorType::La8 => "LA8",
        MapColorType::Rgb8 => "RGB8",
        MapColorType::Rgba8 => "RGBA8",
        MapColorType::L16 => "L16",
        MapColorType::La16 => "LA16",
        MapColorType::Rgb16 => "RGB16",
        MapColorType::Rgba16 => "RGBA16",
        MapColorType::Rgb32F => "RGB32F",
        MapColorType::Rgba32F => "RGBA32F",
        MapColorType::Other => "unsupported",
    }
}

/// `cs` without trailing separators and trailing `.` components, which a
/// path's components ignore.
pub open spec fn trim_tail(cs: Seq<char>) -> Seq<char>
    decreases cs.len(),
{
    if cs.len() > 0 && cs.last() == '/' {
        trim_tail(cs.drop_last())
    } else if cs.len() >= 2 && cs.last() == '.' && cs[cs.len() - 2] == '/' {
        trim_tail(cs.drop_last())
    } else {
        cs
    }
}

/// Index just after the last `/` among the first `n` chars (0 when none).
pub open spec fn component_start(cs: Seq<char>, n: int) -> int
    decreases n,
{
    if n <= 0 {
        0
    } else if cs[n - 1] == '/' {
        n
    } else {
        component_start(cs, n - 1)
    }
}

/// The final component of a `/`-separated path, if it names a file: none
/// for an empty path, a root, `.` or `..`.
pub open spec fn file_name_of(cs: Seq<char>) -> Option<Seq<char>> {
    let t = trim_tail(cs);
    let last = t.subrange(component_start(t, t.len() as int), t.len() as int);
    if last.len() == 0 || last == seq!['.'] || last == seq!['.', '.'] {
        None
    } else {
        Some(last)
    }
}

/// The format each canonical map must decode as; none for other files.
pub open spec fn expected_color_of(file: Seq<char>) -> Option<MapColorType> {
    match file_name_of(file) {
        None => None,
        Some(n) => if n == "height_u16.png"@ {
            Some(MapColorType::L16)
        } else if n == "normal_yplus.png"@ || n == "normal_yminus.png"@ {
            Some(MapColorType::Rgb8)
        } else if n == "masks_rgba.png"@ {
            Some(MapColorType::Rgba8)
        } else if n == "grass_density.png"@ {
            Some(MapColorType::L8)
        } else {
            None
        },
    }
}

/// Chars `from..to` of `s` equal `t`.
fn range_eq(s: &str, from: usize, to: usize, t: &str) -> (r: bool)
    requires
        from <= to <= s@.len(),
    ensures
        r == (s@.subrange(from as int, to as int) == t@),
{
    let m = t.unicode_len();
    if to - from != m {
        assert(s@.subrange(from as int, to as int).len() != t@.len());
        return false;
    }
    let mut i: usize = 0;
    while i < m
        invariant
            from <= to <= s@.len(),
            to - from == m,
            m == t@.len(),
            i <= m,
            forall|j: int| 0 <= j < i ==> s@[from + j] == t@[j],
        decreases m - i,
    {
        if s.get_char(from + i) != t.get_char(i) {
            assert(s@.subrange(from as int, to as int)[i as int] != t@[i as int]);
            return false;
        }
        i = i + 1;
    }
    assert(s@.subrange(from as int, to as int) =~= t@);
    true
}

proof fn lemma_trim_step(cs: Seq<char>, e: int)
    requires
        0 < e <= cs.len(),
    ensures
        cs.take(e).drop_last() == cs.take(e - 1),
{
    assert(cs.take(e).drop_last() =~= cs.take(e - 1));
}

/// The format a canonical map file must decode as, by its file name.
pub fn expected_map_color_type(manifest_file: &str) -> (r: Option<MapColorType>)
    ensures
        r == expected_color_of(manifest_file@),
{
    let cs = manifest_file;
    let n = cs.unicode_len();
    let mut e: usize = n;
    assert(cs@.take(n as int) =~= cs@);
    loop
        invariant
            n == cs@.len(),
            e <= n,
            trim_tail(cs@.take(e as int)) == trim_tail(cs@),
        ensures
            e <= n,
            trim_tail(cs@) == cs@.take(e as int),
        decreases e,
    {
        if e > 0 && cs.get_char(e - 1) == '/' {
            proof {
                lemma_trim_step(cs@, e as int);
            }
            e = e - 1;
        } else if e >= 2 && cs.get_char(e - 1) == '.' && cs.get_char(e - 2) == '/' {
            proof {
                lemma_trim_step(cs@, e as int);
            }
            e = e - 1;
        } else {
            break;
        }
    }
    let ghost t = cs@.take(e as int);
    let mut s: usize = e;
    while s > 0 && cs.get_char(s - 1) != '/'
        invariant
            s <= e <= n,
            n == cs@.len(),
            t == cs@.take(e as int),
            component_start(t, e as int) == component_start(t, s as int),
        decreases s,
    {
        assert(t[s - 1] == cs@[s - 1]);
        s = s - 1;
    }
    proof {
        if s > 0 {
            assert(t[s - 1] == '/');
        }
        assert(component_start(t, s as int) == s);
        assert(t.subrange(s as int, e as int) =~= cs@.subrange(s as int, e as int));
    }
    let dot = range_eq(cs, s, e, ".");
    let dot_dot = range_eq(cs, s, e, "..");
    proof {
        reveal_strlit(".");
        reveal_strlit("..");
        assert("."@ =~= seq!['.']);
        assert(".."@ =~= seq!['.', '.']);
        let tt = trim_tail(cs@);
        assert(tt.len() == e);
        assert(component_start(tt, tt.len() as int) == s);
        assert(tt.subrange(s as int, e as int) =~= cs@.subrange(s as int, e as int));
    }
    if s == e || dot || dot_dot {
        return None;
    }
    proof {
        assert(file_name_of(cs@) == Some(cs@.subrange(s as int, e as int)));
    }
    if range_eq(cs, s, e, "height_u16.png") {
        Some(MapColorType::L16)
    } else if range_eq(cs, s, e, "normal_yplus.png") || range_eq(cs, s, e, "normal_yminus.png") {
        Some(MapColorType::Rgb8)
    } else if range_eq(cs, s, e, "masks_rgba.png") {
        Some(MapColorType::Rgba8)
    } else if range_eq(cs, s, e, "grass_density.png") {
        Some(MapColorType::L8)
    } else {
        None
    }
}

/// Why a decoded map does not fit the manifest.
#[derive(Debug, Clone, Copy, PartialEq, Eq, Structural)]
pub enum MapFileError {
    /// The map is not `expected x expected` pixels.
    Dimensions { expected: u32, width: u32, height: u32 },
    /// The map decodes as another pixel format than its file requires.
    ColorType { expected: MapColorType, actual: MapColorType },
    /// The file does not decode as an image of the format that its name's
    /// extension names.
    Decode,
    /// The map decodes as a pixel format that has no channel ranges here.
    UnsupportedColorType { actual: MapColorType },
}

/// A decoded map has the package's resolution and, for a canonical file,
/// its format.
pub open spec fn png_map_check(
    width: u32,
    height: u32,
    color: MapColorType,
    expected_resolution: u32,
    manifest_file: Seq<char>,
) -> Result<(), MapFileError> {
    if width != expected_resolution || height != expected_resolution {
        Err(MapFileError::Dimensions { expected: expected_resolution, width, height })
    } else {
        match expected_color_of(manifest_file) {
            Some(expected) => if color != expected {
                Err(MapFileError::ColorType { expected, actual: color })
            } else {
                Ok(())
            },
            None => Ok(()),
        }
    }
}

/// Checks a decoded map's size and pixel format against the manifest.
pub fn check_png_map(
    width: u32,
    height: u32,
    color: MapColorType,
    expected_resolution: u32,
    manifest_file: &str,
) -> (r: Result<(), MapFileError>)
    ensures
        r == png_map_check(width, height, color, expected_resolution, manifest_file@),
{
    if width != expected_resolution || height != expected_resolution {
        return Err(MapFileError::Dimensions { expected: expected_resolution, width, height });
    }
    match expected_map_color_type(manifest_file) {
        Some(expected) => {
            if color != expected {
                Err(MapFileError::ColorType { expected, actual: color })
            } else {
                Ok(())
            }
        },
        None => Ok(()),
    }
}

/// What the `image` crate decodes from a map file named `file` with
/// contents `bytes`, the format taken from the file name's extension as
/// `image::open` takes it: width, height, the channel count and bytes per
/// pixel of its `ColorType` (which tell the colour types apart), and its
/// samples, one `u32` per value; or `None` when the extension names no
/// format it decodes or the contents do not decode.
pub uninterp spec fn map_file_decoding(file: Seq<char>, bytes: Seq<u8>) -> Option<
    (u32, u32, u8, u8, Seq<u32>),
>;

/// Decodes a map file as `image::open` does, from its name and contents:
/// `ImageFormat::from_path` picks the format by the extension, then
/// `image::load_from_memory_with_format` decodes. Hands out the colour
/// type's `channel_count` and `bytes_per_pixel` and the samples: the 16-bit
/// values of a 16-bit grey image, else the bytes of `as_bytes`. With one
/// byte per channel value, or a 16-bit grey image, there is one sample per
/// channel value of each pixel. Nothing is stated of the error message.
#[verifier::external_body]
fn decode_map_file(file: &str, bytes: &[u8]) -> (r: Result<(u32, u32, u8, u8, Vec<u32>), String>)
    ensures
        match r {
            Ok((w, h, channels, bytes_per_pixel, samples)) => {
                &&& map_file_decoding(file@, bytes@) == Some(
                    (w, h, channels, bytes_per_pixel, samples@),
                )
                &&& channels == bytes_per_pixel ==> samples@.len() == w as nat * h as nat
                    * channels as nat
                &&& channels == 1 && bytes_per_pixel == 2 ==> samples@.len() == w as nat * h as nat
            },
            Err(_) => map_file_decoding(file@, bytes@) is None,
        },
{
    let format = image::ImageFormat::from_path(file).map_err(|e| e.to_string())?;
    match image::load_from_memory_with_format(bytes, format) {
        Ok(img) => {
            let samples: Vec<u32> = match img.as_luma16() {
                Some(b) => b.as_raw().iter().copied().map(u32::from).collect(),
                None => img.as_bytes().iter().copied().map(u32::from).collect(),
            };
            let c = img.color();
            Ok((img.width(), img.height(), c.channel_count(), c.bytes_per_pixel(), samples))
        },
        Err(e) => Err(e.to_string()),
    }
}

/// The pixel format with the given channel count and bytes per pixel.
pub open spec fn color_type_of(channels: u8, bytes_per_pixel: u8) -> MapColorType {
    if channels == 1 && bytes_per_pixel == 1 {
        MapColorType::L8
    } else if channels == 2 && bytes_per_pixel == 2 {
        MapColorType::La8
    } else if channels == 3 && bytes_per_pixel == 3 {
        MapColorType::Rgb8
    } else if channels == 4 && bytes_per_pixel == 4 {
        MapColorType::Rgba8
    } else if channels == 1 && bytes_per_pixel == 2 {
        MapColorType::L16
    } else if channels == 2 && bytes_per_pixel == 4 {
        MapColorType::La16
    } else if channels == 3 && bytes_per_pixel == 6 {
        MapColorType::Rgb16
    } else if channels == 4 && bytes_per_pixel == 8 {
        MapColorType::Rgba16
    } else if channels == 3 && bytes_per_pixel == 12 {
        MapColorType::Rgb32F
    } else if channels == 4 && bytes_per_pixel == 16 {
        MapColorType::Rgba32F
    } else {
        MapColorType::Other
    }
}

/// The pixel format with the given channel count and bytes per pixel.
pub fn map_color_type(channels: u8, bytes_per_pixel: u8) -> (r: MapColorType)
    ensures
        r == color_type_of(channels, bytes_per_pixel),
{
    match (channels, bytes_per_pixel) {
        (1, 1) => MapColorType::L8,
        (2, 2) => MapColorType::La8,
        (3, 3) => MapColorType::Rgb8,
        (4, 4) => MapColorType::Rgba8,
        (1, 2) => MapColorType::L16,
        (2, 4) => MapColorType::La16,
        (3, 6) => MapColorType::Rgb16,
        (4, 8) => MapColorType::Rgba16,
        (3, 12) => MapColorType::Rgb32F,
        (4, 16) => MapColorType::Rgba32F,
        _ => MapColorType::Other,
    }
}

/// Channels per pixel of the formats whose channel ranges are reported:
/// L8, L16, RGB8 and RGBA8.
pub open spec fn range_channels(color: MapColorType) -> Option<nat> {
    match color {
        MapColorType::L8 => Some(1),
        MapColorType::L16 => Some(1),
        MapColorType::Rgb8 => Some(3),
        MapColorType::Rgba8 => Some(4),
        _ => None,
    }
}

/// A baked map that passed: its size, pixel format, channel count and
/// per-channel lowest and highest values.
#[derive(Debug, Clone, PartialEq, Eq)]
pub struct MapSummary {
    /// Width in pixels.
    pub width: u32,
    /// Height in pixels.
    pub height: u32,
    /// The pixel format it decodes as.
    pub color: MapColorType,
    /// Channels per pixel.
    pub channels: usize,
    /// Lowest value of each channel.
    pub channel_min: Vec<u32>,
    /// Highest value of each channel.
    pub channel_max: Vec<u32>,
}

/// The samples of a decoded map hold whole pixels of the format whose
/// channel ranges are reported, if it is one.
pub open spec fn whole_pixels(channels: u8, bytes_per_pixel: u8, samples: Seq<u32>) -> bool {
    match range_channels(color_type_of(channels, bytes_per_pixel)) {
        Some(n) => samples.len() % n == 0,
        None => true,
    }
}

/// The verdict on a decoded map: it has the package's resolution and its
/// file's format, and a format with channel ranges; then its size, format,
/// channel count and per-channel lowest and highest values.
pub open spec fn map_summary_check(
    width: u32,
    height: u32,
    channels: u8,
    bytes_per_pixel: u8,
    samples: Seq<u32>,
    expected_resolution: u32,
    manifest_file: Seq<char>,
) -> Result<(u32, u32, MapColorType, nat, Seq<u32>, Seq<u32>), MapFileError> {
    let color = color_type_of(channels, bytes_per_pixel);
    match png_map_check(width, height, color, expected_resolution, manifest_file) {
        Err(e) => Err(e),
        Ok(_) => match range_channels(color) {
            None => Err(MapFileError::UnsupportedColorType { actual: color }),
            Some(n) => {
                let pixels = samples.len() / n;
                Ok(
                    (
                        width,
                        height,
                        color,
                        n,
                        Seq::new(n, |c: int| channel_min(samples, n, c as nat, pixels)),
                        Seq::new(n, |c: int| channel_max(samples, n, c as nat, pixels)),
                    ),
                )
            },
        },
    }
}

/// The verdict on a baked map's file: it decodes, and then passes
/// `map_summary_check`.
pub open spec fn png_map_validation(
    manifest_file: Seq<char>,
    bytes: Seq<u8>,
    expected_resolution: u32,
) -> Result<(u32, u32, MapColorType, nat, Seq<u32>, Seq<u32>), MapFileError> {
    match map_file_decoding(manifest_file, bytes) {
        None => Err(MapFileError::Decode),
        Some((w, h, ch, bpp, samples)) => map_summary_check(
            w,
            h,
            ch,
            bpp,
            samples,
            expected_resolution,
            manifest_file,
        ),
    }
}

/// Checks a decoded map against the manifest: its size, the format its
/// file name requires, and a format whose channel ranges can be reported;
/// then reports those ranges. The map is given by its size, its colour
/// type's channel count and bytes per pixel, and its samples.
pub fn png_map_summary(
    width: u32,
    height: u32,
    channels: u8,
    bytes_per_pixel: u8,
    samples: &[u32],
    expected_resolution: u32,
    manifest_file: &str,
) -> (r: Result<MapSummary, MapFileError>)
    requires
        whole_pixels(channels, bytes_per_pixel, samples@),
    ensures
        match r {
            Ok(s) => map_summary_check(
                width,
                height,
                channels,
                bytes_per_pixel,
                samples@,
                expected_resolution,
                manifest_file@,
            ) is Ok && map_summary_check(
                width,
                height,
                channels,
                bytes_per_pixel,
                samples@,
                expected_resolution,
                manifest_file@,
            )->Ok_0 == (
                s.width,
                s.height,
                s.color,
                s.channels as nat,
                s.channel_min@,
                s.channel_max@,
            ),
            Err(e) => map_summary_check(
                width,
                height,
                channels,
                bytes_per_pixel,
                samples@,
                expected_resolution,
                manifest_file@,
            ) is Err && map_summary_check(
                width,
                height,
                channels,
                bytes_per_pixel,
                samples@,
                expected_resolution,
                manifest_file@,
            )->Err_0 == e,
        },
{
    let color = map_color_type(channels, bytes_per_pixel);
    match check_png_map(width, height, color, expected_resolution, manifest_file) {
        Ok(()) => {},
        Err(e) => return Err(e),
    }
    let n: usize = match color {
        MapColorType::L8 => 1,
        MapColorType::L16 => 1,
        MapColorType::Rgb8 => 3,
        MapColorType::Rgba8 => 4,
        _ => return Err(MapFileError::UnsupportedColorType { actual: color }),
    };
    let (lows, highs) = channel_ranges(samples, n);
    proof {
        let m = n as nat;
        let pixels = (samples@.len() / m) as nat;
        assert forall|c: int| 0 <= c < m implies highs@[c] == channel_max(
            samples@,
            m,
            c as nat,
            pixels,
        ) by {
            assert(lows@[c] == channel_min(samples@, m, c as nat, pixels));
        }
        assert(lows@ =~= Seq::new(m, |c: int| channel_min(samples@, m, c as nat, pixels)));
        assert(highs@ =~= Seq::new(m, |c: int| channel_max(samples@, m, c as nat, pixels)));
    }
    Ok(MapSummary { width, height, color, channels: n, channel_min: lows, channel_max: highs })
}

/// Decodes a baked map's file, its format taken from the extension of
/// `manifest_file`, and checks it with `png_map_summary`.
pub fn validate_png_map_bytes(bytes: &[u8], expected_resolution: u32, manifest_file: &str) -> (r:
    Result<MapSummary, MapFileError>)
    ensures
        match r {
            Ok(s) => png_map_validation(manifest_file@, bytes@, expected_resolution) is Ok
                && png_map_validation(manifest_file@, bytes@, expected_resolution)->Ok_0 == (
                s.width,
                s.height,
                s.color,
                s.channels as nat,
                s.channel_min@,
                s.channel_max@,
            ),
            Err(e) => png_map_validation(manifest_file@, bytes@, expected_resolution) is Err
                && png_map_validation(manifest_file@, bytes@, expected_resolution)->Err_0 == e,
        },
{
    let (width, height, ch, bpp, samples) = match decode_map_file(manifest_file, bytes) {
        Ok(v) => v,
        Err(_) => return Err(MapFileError::Decode),
    };
    proof {
        let px = width as nat * height as nat;
        match range_channels(color_type_of(ch, bpp)) {
            Some(n) => {
                assert(samples@.len() == px * n) by (nonlinear_arith)
                    requires
                        ch == bpp ==> samples@.len() == px * ch,
                        ch == 1 && bpp == 2 ==> samples@.len() == px,
                        range_channels(color_type_of(ch, bpp)) == Some(n),
                ;
                vstd::arithmetic::div_mod::lemma_mod_multiples_basic(px as int, n as int);
                assert(px * n == n * px) by (nonlinear_arith);
            },
            None => {},
        }
    }
    png_map_summary(width, height, ch, bpp, samples.as_slice(), expected_resolution, manifest_file)
}

} // verus!
