//! Checks on decoded baked maps: per-channel value ranges and the
//! relationships between the normal, mask and grass density maps.

use vstd::prelude::*;

verus! {

/// Lowest value of channel `c` over the first `n` pixels (`u32::MAX`
/// when `n` is zero).
pub open spec fn channel_min(values: Seq<u32>, channels: nat, c: nat, n: nat) -> u32
    decreases n,
{
    if n == 0 {
        u32::MAX
    } else {
        let prev = channel_min(values, channels, c, (n - 1) as nat);
        let v = values[(n - 1) * channels + c];
        if v < prev {
            v
        } else {
            prev
        }
    }
}

/// Highest value of channel `c` over the first `n` pixels (0 when `n` is
/// zero).
pub open spec fn channel_max(values: Seq<u32>, channels: nat, c: nat, n: nat) -> u32
    decreases n,
{
    if n == 0 {
        0
    } else {
        let prev = channel_max(values, channels, c, (n - 1) as nat);
        let v = values[(n - 1) * channels + c];
        if v > prev {
            v
        } else {
            prev
        }
    }
}

/// Folds one pixel's channel values into running per-channel minima and
/// maxima.
pub fn update_channel_range(min: &mut Vec<u32>, max: &mut Vec<u32>, values: &[u32])
    requires
        values@.len() <= old(min)@.len(),
        values@.len() <= old(max)@.len(),
    ensures
        final(min)@.len() == old(min)@.len(),
        final(max)@.len() == old(max)@.len(),
        forall|i: int|
            0 <= i < old(min)@.len() ==> #[trigger] final(min)@[i] == if i < values@.len() {
                if values@[i] < old(min)@[i] {
                    values@[i]
                } else {
                    old(min)@[i]
                }
            } else {
                old(min)@[i]
            },
        forall|i: int|
            0 <= i < old(max)@.len() ==> #[trigger] final(max)@[i] == if i < values@.len() {
                if values@[i] > old(max)@[i] {
                    values@[i]
                } else {
                    old(max)@[i]
                }
            } else {
                old(max)@[i]
            },
{
    let mut index: usize = 0;
    while index < values.len()
        invariant
            index <= values@.len(),
            values@.len() <= min@.len(),
            values@.len() <= max@.len(),
            min@.len() == old(min)@.len(),
            max@.len() == old(max)@.len(),
            forall|i: int|
                0 <= i < min@.len() ==> #[trigger] min@[i] == if i < index {
                    if values@[i] < old(min)@[i] {
                        values@[i]
                    } else {
                        old(min)@[i]
                    }
                } else {
                    old(min)@[i]
                },
            forall|i: int|
                0 <= i < max@.len() ==> #[trigger] max@[i] == if i < index {
                    if values@[i] > old(max)@[i] {
                        values@[i]
                    } else {
                        old(max)@[i]
                    }
                } else {
                    old(max)@[i]
                },
        decreases values@.len() - index,
    {
        let v = values[index];
        if v < min[index] {
            min[index] = v;
        }
        if v > max[index] {
            max[index] = v;
        }
        index = index + 1;
    }
}

/// Per-channel minimum and maximum over a decoded image whose pixels are
/// `channels` consecutive values each.
pub fn channel_ranges(values: &[u32], channels: usize) -> (r: (Vec<u32>, Vec<u32>))
    requires
        channels > 0,
        values@.len() % (channels as nat) == 0,
    ensures
        r.0@.len() == channels,
        r.1@.len() == channels,
        forall|c: int|
            0 <= c < channels ==> #[trigger] r.0@[c] == channel_min(
                values@,
                channels as nat,
                c as nat,
                (values@.len() / (channels as nat)) as nat,
            ) && r.1@[c] == channel_max(
                values@,
                channels as nat,
                c as nat,
                (values@.len() / (channels as nat)) as nat,
            ),
{
    let mut min: Vec<u32> = Vec::new();
    let mut max: Vec<u32> = Vec::new();
    let mut c: usize = 0;
    while c < channels
        invariant
            c <= channels,
            min@.len() == c,
            max@.len() == c,
            forall|j: int| 0 <= j < c ==> min@[j] == u32::MAX && max@[j] == 0,
        decreases channels - c,
    {
        min.push(u32::MAX);
        max.push(0);
        c = c + 1;
    }
    let total = values.len();
    let pixels = total / channels;
    proof {
        vstd::arithmetic::div_mod::lemma_fundamental_div_mod(values@.len() as int, channels as int);
    }
    let mut p: usize = 0;
    while p < pixels
        invariant
            p <= pixels,
            pixels == values@.len() / (channels as nat),
            values@.len() == channels * pixels,
            values@.len() == total,
            min@.len() == channels,
            max@.len() == channels,
            forall|j: int|
                0 <= j < channels ==> #[trigger] min@[j] == channel_min(
                    values@,
                    channels as nat,
                    j as nat,
                    p as nat,
                ) && max@[j] == channel_max(values@, channels as nat, j as nat, p as nat),
        decreases pixels - p,
    {
        proof {
            assert((p + 1) * channels <= pixels * channels) by (nonlinear_arith)
                requires
                    p < pixels,
            ;
            assert(pixels * channels == channels * pixels) by (nonlinear_arith);
            assert(p * channels + channels == (p + 1) * channels) by (nonlinear_arith);
        }
        let start = p * channels;
        let pixel = &values[start..start + channels];
        let ghost old_min = min@;
        let ghost old_max = max@;
        update_channel_range(&mut min, &mut max, pixel);
        proof {
            assert forall|j: int| 0 <= j < channels implies #[trigger] min@[j] == channel_min(
                values@,
                channels as nat,
                j as nat,
                (p + 1) as nat,
            ) && max@[j] == channel_max(values@, channels as nat, j as nat, (p + 1) as nat) by {
                assert(pixel@[j] == values@[start + j]);
                assert(((p + 1 - 1) as nat) * channels + j == start + j);
            }
        }
        p = p + 1;
    }
    (min, max)
}

/// Semantic validation summary across baked map artifacts.
#[derive(Debug, Clone, Copy, PartialEq, Eq, Structural)]
pub struct MapRelationshipSummary {
    /// Pixels compared between Unity Y+ and Unreal Y- normal maps.
    pub normal_pair_pixels: usize,
    /// Pixels whose red or blue channels differ between conventions.
    pub normal_red_blue_mismatches: usize,
    /// Pixels whose green channels are not inverse within tolerance.
    pub normal_green_flip_mismatches: usize,
    /// Largest `|g+ + g- - 255|`.
    pub normal_green_flip_max_error: u8,
    /// Pixels compared between packed mask R and grass density map.
    pub grass_density_pixels: usize,
    /// Pixels where the grass density map differs from mask R.
    pub grass_density_mask_r_mismatches: usize,
}

/// Why baked maps do not agree with each other.
#[derive(Debug, Clone, Copy, PartialEq, Eq, Structural)]
pub enum MapRelationshipError {
    /// The two normal maps differ in size (Y+ size, then Y- size).
    NormalDimensions { plus_width: u32, plus_height: u32, minus_width: u32, minus_height: u32 },
    /// The normal maps are not a Y+/Y- pair.
    NormalConvention { red_blue_mismatches: usize, green_flip_mismatches: usize, max_green_error: u8 },
    /// The grass density map differs in size from the masks (density size,
    /// then mask size).
    GrassDensityDimensions {
        density_width: u32,
        density_height: u32,
        mask_width: u32,
        mask_height: u32,
    },
    /// The grass density map differs from mask R.
    GrassDensityMismatch { mismatches: usize },
    /// A map's file does not decode as an image of the format that its
    /// name's extension names.
    Decode { map: BakedMap },
}

/// The four baked maps whose contents are compared with each other.
#[derive(Debug, Clone, Copy, PartialEq, Eq, Structural)]
pub enum BakedMap {
    /// The Unity (Y+) normal map.
    NormalYPlus,
    /// The Unreal (Y-) normal map.
    NormalYMinus,
    /// The packed RGBA mask map.
    Masks,
    /// The grass density map.
    GrassDensity,
}

/// Width, height and RGB8 pixels that the `image` crate gives for a file
/// named `file` with contents `bytes`, decoded as `image::open` decodes it
/// (the format taken from the name's extension) and converted with
/// `to_rgb8`; or `None` when it does not decode.
pub uninterp spec fn rgb8_file_decoding(file: Seq<char>, bytes: Seq<u8>) -> Option<(u32, u32, Seq<u8>)>;

/// As `rgb8_file_decoding`, converted with `to_rgba8`.
pub uninterp spec fn rgba8_file_decoding(file: Seq<char>, bytes: Seq<u8>) -> Option<(u32, u32, Seq<u8>)>;

/// As `rgb8_file_decoding`, converted with `to_luma8`.
pub uninterp spec fn luma8_file_decoding(file: Seq<char>, bytes: Seq<u8>) -> Option<(u32, u32, Seq<u8>)>;

/// Decodes a file as `image::open` does, from its name and contents
/// (`ImageFormat::from_path`, then `image::load_from_memory_with_format`),
/// and converts it with `DynamicImage::to_rgb8`, whose buffer holds three
/// bytes per pixel; nothing is stated of the error message.
#[verifier::external_body]
fn decode_rgb8_file(file: &str, bytes: &[u8]) -> (r: Result<(u32, u32, Vec<u8>), String>)
    ensures
        match r {
            Ok((w, h, px)) => rgb8_file_decoding(file@, bytes@) == Some((w, h, px@)) && px@.len()
                == w as nat * h as nat * 3,
            Err(_) => rgb8_file_decoding(file@, bytes@) is None,
        },
{
    let format = image::ImageFormat::from_path(file).map_err(|e| e.to_string())?;
    match image::load_from_memory_with_format(bytes, format) {
        Ok(img) => {
            let b = img.to_rgb8();
            Ok((b.width(), b.height(), b.into_raw()))
        },
        Err(e) => Err(e.to_string()),
    }
}

/// Decodes a file as `image::open` does, from its name and contents
/// (`ImageFormat::from_path`, then `image::load_from_memory_with_format`),
/// and converts it with `DynamicImage::to_rgba8`, whose buffer holds four
/// bytes per pixel; nothing is stated of the error message.
#[verifier::external_body]
fn decode_rgba8_file(file: &str, bytes: &[u8]) -> (r: Result<(u32, u32, Vec<u8>), String>)
    ensures
        match r {
            Ok((w, h, px)) => rgba8_file_decoding(file@, bytes@) == Some((w, h, px@)) && px@.len()
                == w as nat * h as nat * 4,
            Err(_) => rgba8_file_decoding(file@, bytes@) is None,
        },
{
    let format = image::ImageFormat::from_path(file).map_err(|e| e.to_string())?;
    match image::load_from_memory_with_format(bytes, format) {
        Ok(img) => {
            let b = img.to_rgba8();
            Ok((b.width(), b.height(), b.into_raw()))
        },
        Err(e) => Err(e.to_string()),
    }
}

/// Decodes a file as `image::open` does, from its name and contents
/// (`ImageFormat::from_path`, then `image::load_from_memory_with_format`),
/// and converts it with `DynamicImage::to_luma8`, whose buffer holds one
/// byte per pixel; nothing is stated of the error message.
#[verifier::external_body]
fn decode_luma8_file(file: &str, bytes: &[u8]) -> (r: Result<(u32, u32, Vec<u8>), String>)
    ensures
        match r {
            Ok((w, h, px)) => luma8_file_decoding(file@, bytes@) == Some((w, h, px@)) && px@.len()
                == w as nat * h as nat,
            Err(_) => luma8_file_decoding(file@, bytes@) is None,
        },
{
    let format = image::ImageFormat::from_path(file).map_err(|e| e.to_string())?;
    match image::load_from_memory_with_format(bytes, format) {
        Ok(img) => {
            let b = img.to_luma8();
            Ok((b.width(), b.height(), b.into_raw()))
        },
        Err(e) => Err(e.to_string()),
    }
}

/// How far two green values are from summing to 255, capped at 255.
pub open spec fn green_flip_error(plus: u8, minus: u8) -> u8 {
    let d = plus + minus - 255;
    let a = if d < 0 {
        -d
    } else {
        d
    };
    (if a > 255 {
        255
    } else {
        a
    }) as u8
}

/// Pixels among the first `n` RGB pixels whose red or blue differ.
pub open spec fn red_blue_mismatch_count(plus: Seq<u8>, minus: Seq<u8>, n: nat) -> nat
    decreases n,
{
    if n == 0 {
        0
    } else {
        let i = (n - 1) * 3;
        red_blue_mismatch_count(plus, minus, (n - 1) as nat) + if plus[i] != minus[i] || plus[i + 2]
            != minus[i + 2] {
            1nat
        } else {
            0nat
        }
    }
}

/// Pixels among the first `n` whose green flip error exceeds 1.
pub open spec fn green_mismatch_count(plus: Seq<u8>, minus: Seq<u8>, n: nat) -> nat
    decreases n,
{
    if n == 0 {
        0
    } else {
        let i = (n - 1) * 3 + 1;
        green_mismatch_count(plus, minus, (n - 1) as nat) + if green_flip_error(plus[i], minus[i])
            > 1 {
            1nat
        } else {
            0nat
        }
    }
}

/// Largest green flip error among the first `n` pixels.
pub open spec fn green_max_error(plus: Seq<u8>, minus: Seq<u8>, n: nat) -> u8
    decreases n,
{
    if n == 0 {
        0
    } else {
        let i = (n - 1) * 3 + 1;
        let prev = green_max_error(plus, minus, (n - 1) as nat);
        let e = green_flip_error(plus[i], minus[i]);
        if e > prev {
            e
        } else {
            prev
        }
    }
}

/// Pixels among the first `n` whose density differs from mask R.
pub open spec fn density_mismatch_count(masks: Seq<u8>, density: Seq<u8>, n: nat) -> nat
    decreases n,
{
    if n == 0 {
        0
    } else {
        density_mismatch_count(masks, density, (n - 1) as nat) + if masks[(n - 1) * 4] != density[n
            - 1] {
            1nat
        } else {
            0nat
        }
    }
}

/// What is wrong with a decoded Y+/Y- normal map pair, if anything:
/// their sizes differ, or some pixel is not a Y+/Y- pair.
pub open spec fn normal_pair_error(plus: (u32, u32, Seq<u8>), minus: (u32, u32, Seq<u8>)) -> Option<
    MapRelationshipError,
> {
    let n = plus.0 as nat * plus.1 as nat;
    if plus.0 != minus.0 || plus.1 != minus.1 {
        Some(
            MapRelationshipError::NormalDimensions {
                plus_width: plus.0,
                plus_height: plus.1,
                minus_width: minus.0,
                minus_height: minus.1,
            },
        )
    } else if red_blue_mismatch_count(plus.2, minus.2, n) > 0 || green_mismatch_count(
        plus.2,
        minus.2,
        n,
    ) > 0 {
        Some(
            MapRelationshipError::NormalConvention {
                red_blue_mismatches: red_blue_mismatch_count(plus.2, minus.2, n) as usize,
                green_flip_mismatches: green_mismatch_count(plus.2, minus.2, n) as usize,
                max_green_error: green_max_error(plus.2, minus.2, n),
            },
        )
    } else {
        None
    }
}

/// What is wrong with a decoded RGBA mask map and grass density map, if
/// anything: their sizes differ, or some density differs from mask R.
pub open spec fn density_pair_error(masks: (u32, u32, Seq<u8>), density: (u32, u32, Seq<u8>)) -> Option<
    MapRelationshipError,
> {
    let m = density.0 as nat * density.1 as nat;
    if masks.0 != density.0 || masks.1 != density.1 {
        Some(
            MapRelationshipError::GrassDensityDimensions {
                density_width: density.0,
                density_height: density.1,
                mask_width: masks.0,
                mask_height: masks.1,
            },
        )
    } else if density_mismatch_count(masks.2, density.2, m) > 0 {
        Some(
            MapRelationshipError::GrassDensityMismatch {
                mismatches: density_mismatch_count(masks.2, density.2, m) as usize,
            },
        )
    } else {
        None
    }
}

/// The verdict on the decoded Y+/Y- normal maps, RGBA masks and grass
/// density map, checked in that order.
pub open spec fn map_relationship_check(
    plus: (u32, u32, Seq<u8>),
    minus: (u32, u32, Seq<u8>),
    masks: (u32, u32, Seq<u8>),
    density: (u32, u32, Seq<u8>),
) -> Result<MapRelationshipSummary, MapRelationshipError> {
    match normal_pair_error(plus, minus) {
        Some(e) => Err(e),
        None => match density_pair_error(masks, density) {
            Some(e) => Err(e),
            None => Ok(
                MapRelationshipSummary {
                    normal_pair_pixels: (plus.0 as nat * plus.1 as nat) as usize,
                    normal_red_blue_mismatches: 0,
                    normal_green_flip_mismatches: 0,
                    normal_green_flip_max_error: green_max_error(
                        plus.2,
                        minus.2,
                        plus.0 as nat * plus.1 as nat,
                    ),
                    grass_density_pixels: (density.0 as nat * density.1 as nat) as usize,
                    grass_density_mask_r_mismatches: 0,
                },
            ),
        },
    }
}

proof fn lemma_counts_bounded(plus: Seq<u8>, minus: Seq<u8>, n: nat)
    ensures
        red_blue_mismatch_count(plus, minus, n) <= n,
        green_mismatch_count(plus, minus, n) <= n,
    decreases n,
{
    if n > 0 {
        lemma_counts_bounded(plus, minus, (n - 1) as nat);
    }
}

proof fn lemma_density_count_bounded(masks: Seq<u8>, density: Seq<u8>, n: nat)
    ensures
        density_mismatch_count(masks, density, n) <= n,
    decreases n,
{
    if n > 0 {
        lemma_density_count_bounded(masks, density, (n - 1) as nat);
    }
}

fn green_error(plus: u8, minus: u8) -> (e: u8)
    ensures
        e == green_flip_error(plus, minus),
{
    let d: i16 = plus as i16 + minus as i16 - 255;
    let a: u16 = if d < 0 {
        (0 - d) as u16
    } else {
        d as u16
    };
    if a > 255 {
        255
    } else {
        a as u8
    }
}

/// Checks that two decoded normal maps are Y+/Y- pairs of one another,
/// and gives their pixel count and largest green flip error.
fn check_normal_pair(plus: (u32, u32, &[u8]), minus: (u32, u32, &[u8])) -> (r: Result<
    (usize, u8),
    MapRelationshipError,
>)
    requires
        plus.2@.len() == plus.0 as nat * plus.1 as nat * 3,
        minus.2@.len() == minus.0 as nat * minus.1 as nat * 3,
    ensures
        match r {
            Ok((n, e)) => normal_pair_error((plus.0, plus.1, plus.2@), (minus.0, minus.1, minus.2@))
                is None && n == plus.0 as nat * plus.1 as nat && e == green_max_error(
                plus.2@,
                minus.2@,
                plus.0 as nat * plus.1 as nat,
            ),
            Err(e) => normal_pair_error((plus.0, plus.1, plus.2@), (minus.0, minus.1, minus.2@))
                == Some(e),
        },
{
    if plus.0 != minus.0 || plus.1 != minus.1 {
        return Err(
            MapRelationshipError::NormalDimensions {
                plus_width: plus.0,
                plus_height: plus.1,
                minus_width: minus.0,
                minus_height: minus.1,
            },
        );
    }
    let pl = plus.2;
    let mi = minus.2;
    let total = pl.len();
    let n = total / 3;
    proof {
        assert(n == plus.0 as nat * plus.1 as nat);
    }
    let mut red_blue: usize = 0;
    let mut green: usize = 0;
    let mut max_error: u8 = 0;
    let mut i: usize = 0;
    while i < n
        invariant
            i <= n,
            n == plus.0 as nat * plus.1 as nat,
            pl@.len() == n * 3,
            pl@.len() == total,
            mi@.len() == n * 3,
            pl@ == plus.2@,
            mi@ == minus.2@,
            red_blue == red_blue_mismatch_count(pl@, mi@, i as nat),
            green == green_mismatch_count(pl@, mi@, i as nat),
            max_error == green_max_error(pl@, mi@, i as nat),
        decreases n - i,
    {
        proof {
            lemma_counts_bounded(pl@, mi@, i as nat);
        }
        let o = i * 3;
        if pl[o] != mi[o] || pl[o + 2] != mi[o + 2] {
            red_blue = red_blue + 1;
        }
        let e = green_error(pl[o + 1], mi[o + 1]);
        if e > max_error {
            max_error = e;
        }
        if e > 1 {
            green = green + 1;
        }
        i = i + 1;
    }
    if red_blue > 0 || green > 0 {
        return Err(
            MapRelationshipError::NormalConvention {
                red_blue_mismatches: red_blue,
                green_flip_mismatches: green,
                max_green_error: max_error,
            },
        );
    }
    Ok((n, max_error))
}

/// Checks that a decoded grass density map has the size of the decoded
/// RGBA mask map and repeats its R channel, and gives its pixel count.
fn check_density_pair(masks: (u32, u32, &[u8]), density: (u32, u32, &[u8])) -> (r: Result<
    usize,
    MapRelationshipError,
>)
    requires
        masks.2@.len() == masks.0 as nat * masks.1 as nat * 4,
        density.2@.len() == density.0 as nat * density.1 as nat,
    ensures
        match r {
            Ok(m) => density_pair_error((masks.0, masks.1, masks.2@), (density.0, density.1, density.2@))
                is None && m == density.0 as nat * density.1 as nat,
            Err(e) => density_pair_error(
                (masks.0, masks.1, masks.2@),
                (density.0, density.1, density.2@),
            ) == Some(e),
        },
{
    if masks.0 != density.0 || masks.1 != density.1 {
        return Err(
            MapRelationshipError::GrassDensityDimensions {
                density_width: density.0,
                density_height: density.1,
                mask_width: masks.0,
                mask_height: masks.1,
            },
        );
    }
    let ma = masks.2;
    let de = density.2;
    let m = de.len();
    let ml = ma.len();
    let mut mismatches: usize = 0;
    let mut j: usize = 0;
    while j < m
        invariant
            j <= m,
            m == density.0 as nat * density.1 as nat,
            de@.len() == m,
            ma@.len() == m * 4,
            ma@.len() == ml,
            ma@ == masks.2@,
            de@ == density.2@,
            mismatches == density_mismatch_count(ma@, de@, j as nat),
        decreases m - j,
    {
        proof {
            lemma_density_count_bounded(ma@, de@, j as nat);
        }
        if ma[j * 4] != de[j] {
            mismatches = mismatches + 1;
        }
        j = j + 1;
    }
    if mismatches > 0 {
        return Err(MapRelationshipError::GrassDensityMismatch { mismatches });
    }
    Ok(m)
}

/// Checks that the baked maps agree: the two normal maps are Y+/Y- pairs
/// of one another and the grass density map repeats mask R. Each map is
/// given decoded, as width, height and row-major channel bytes.
pub fn map_relationships(
    plus: (u32, u32, &[u8]),
    minus: (u32, u32, &[u8]),
    masks: (u32, u32, &[u8]),
    density: (u32, u32, &[u8]),
) -> (r: Result<MapRelationshipSummary, MapRelationshipError>)
    requires
        plus.2@.len() == plus.0 as nat * plus.1 as nat * 3,
        minus.2@.len() == minus.0 as nat * minus.1 as nat * 3,
        masks.2@.len() == masks.0 as nat * masks.1 as nat * 4,
        density.2@.len() == density.0 as nat * density.1 as nat,
    ensures
        r == map_relationship_check(
            (plus.0, plus.1, plus.2@),
            (minus.0, minus.1, minus.2@),
            (masks.0, masks.1, masks.2@),
            (density.0, density.1, density.2@),
        ),
{
    let (n, max_error) = match check_normal_pair(plus, minus) {
        Ok(v) => v,
        Err(e) => return Err(e),
    };
    let m = match check_density_pair(masks, density) {
        Ok(v) => v,
        Err(e) => return Err(e),
    };
    Ok(
        MapRelationshipSummary {
            normal_pair_pixels: n,
            normal_red_blue_mismatches: 0,
            normal_green_flip_mismatches: 0,
            normal_green_flip_max_error: max_error,
            grass_density_pixels: m,
            grass_density_mask_r_mismatches: 0,
        },
    )
}

/// The verdict on four baked map files, each given by its name and
/// contents: the Y+ and Y- normal maps are decoded as RGB8 and compared,
/// then the masks (as RGBA8) and the grass density map (as L8) are decoded
/// and compared.
pub open spec fn baked_maps_check(
    yplus: (Seq<char>, Seq<u8>),
    yminus: (Seq<char>, Seq<u8>),
    masks: (Seq<char>, Seq<u8>),
    density: (Seq<char>, Seq<u8>),
) -> Result<MapRelationshipSummary, MapRelationshipError> {
    match rgb8_file_decoding(yplus.0, yplus.1) {
        None => Err(MapRelationshipError::Decode { map: BakedMap::NormalYPlus }),
        Some(p) => match rgb8_file_decoding(yminus.0, yminus.1) {
            None => Err(MapRelationshipError::Decode { map: BakedMap::NormalYMinus }),
            Some(m) => match normal_pair_error(p, m) {
                Some(e) => Err(e),
                None => match rgba8_file_decoding(masks.0, masks.1) {
                    None => Err(MapRelationshipError::Decode { map: BakedMap::Masks }),
                    Some(k) => match luma8_file_decoding(density.0, density.1) {
                        None => Err(MapRelationshipError::Decode { map: BakedMap::GrassDensity }),
                        Some(d) => map_relationship_check(p, m, k, d),
                    },
                },
            },
        },
    }
}

/// Decodes the four baked map files, each given by its name and contents,
/// and checks that they agree, as `map_relationships` does; a map is
/// decoded only once the maps before it have passed.
pub fn map_relationships_from_files(
    yplus: (&str, &[u8]),
    yminus: (&str, &[u8]),
    masks: (&str, &[u8]),
    density: (&str, &[u8]),
) -> (r: Result<MapRelationshipSummary, MapRelationshipError>)
    ensures
        r == baked_maps_check(
            (yplus.0@, yplus.1@),
            (yminus.0@, yminus.1@),
            (masks.0@, masks.1@),
            (density.0@, density.1@),
        ),
{
    let (pw, ph, plus) = match decode_rgb8_file(yplus.0, yplus.1) {
        Ok(v) => v,
        Err(_) => return Err(MapRelationshipError::Decode { map: BakedMap::NormalYPlus }),
    };
    let (mw, mh, minus) = match decode_rgb8_file(yminus.0, yminus.1) {
        Ok(v) => v,
        Err(_) => return Err(MapRelationshipError::Decode { map: BakedMap::NormalYMinus }),
    };
    let (n, max_error) = match check_normal_pair((pw, ph, plus.as_slice()), (mw, mh, minus.as_slice())) {
        Ok(v) => v,
        Err(e) => return Err(e),
    };
    let (kw, kh, mask_px) = match decode_rgba8_file(masks.0, masks.1) {
        Ok(v) => v,
        Err(_) => return Err(MapRelationshipError::Decode { map: BakedMap::Masks }),
    };
    let (dw, dh, density_px) = match decode_luma8_file(density.0, density.1) {
        Ok(v) => v,
        Err(_) => return Err(MapRelationshipError::Decode { map: BakedMap::GrassDensity }),
    };
    let m = match check_density_pair((kw, kh, mask_px.as_slice()), (dw, dh, density_px.as_slice())) {
        Ok(v) => v,
        Err(e) => return Err(e),
    };
    Ok(
        MapRelationshipSummary {
            normal_pair_pixels: n,
            normal_red_blue_mismatches: 0,
            normal_green_flip_mismatches: 0,
            normal_green_flip_max_error: max_error,
            grass_density_pixels: m,
            grass_density_mask_r_mismatches: 0,
        },
    )
}

/// No pixel among the first `n` has a red or blue mismatch exactly when
/// every one of them has equal red and equal blue in both maps.
proof fn lemma_red_blue_none(plus: Seq<u8>, minus: Seq<u8>, n: nat)
    requires
        plus.len() >= 3 * n,
        minus.len() >= 3 * n,
    ensures
        (red_blue_mismatch_count(plus, minus, n) == 0) <==> (forall|i: int|
            0 <= i < n ==> #[trigger] plus[3 * i] == minus[3 * i] && plus[3 * i + 2] == minus[3 * i + 2]),
    decreases n,
{
    if n > 0 {
        lemma_red_blue_none(plus, minus, (n - 1) as nat);
        let k = n - 1;
        assert((n - 1) * 3 == 3 * k);
        assert(red_blue_mismatch_count(plus, minus, n) == red_blue_mismatch_count(plus, minus, (n
            - 1) as nat) + if plus[3 * k] != minus[3 * k] || plus[3 * k + 2] != minus[3 * k + 2] {
            1nat
        } else {
            0nat
        });
        if red_blue_mismatch_count(plus, minus, n) == 0 {
            assert(red_blue_mismatch_count(plus, minus, (n - 1) as nat) == 0);
            assert forall|i: int| 0 <= i < n implies #[trigger] plus[3 * i] == minus[3 * i]
                && plus[3 * i + 2] == minus[3 * i + 2] by {
                if i < k {
                } else {
                    assert(i == k);
                }
            }
        } else {
            if red_blue_mismatch_count(plus, minus, (n - 1) as nat) != 0 {
                if forall|i: int|
                    0 <= i < n ==> #[trigger] plus[3 * i] == minus[3 * i] && plus[3 * i + 2]
                        == minus[3 * i + 2] {
                    assert(forall|i: int|
                        0 <= i < n - 1 ==> #[trigger] plus[3 * i] == minus[3 * i] && plus[3 * i
                            + 2] == minus[3 * i + 2]);
                }
            } else {
                assert(!(plus[3 * k] == minus[3 * k] && plus[3 * k + 2] == minus[3 * k + 2]));
            }
        }
    }
}

/// No pixel among the first `n` has a green flip mismatch exactly when the
/// two greens of every one of them sum to 255 within one.
proof fn lemma_green_none(plus: Seq<u8>, minus: Seq<u8>, n: nat)
    requires
        plus.len() >= 3 * n,
        minus.len() >= 3 * n,
    ensures
        (green_mismatch_count(plus, minus, n) == 0) <==> (forall|i: int|
            0 <= i < n ==> -1 <= #[trigger] plus[3 * i + 1] + minus[3 * i + 1] - 255 <= 1),
    decreases n,
{
    if n > 0 {
        lemma_green_none(plus, minus, (n - 1) as nat);
        let k = n - 1;
        assert((n - 1) * 3 + 1 == 3 * k + 1);
        if green_mismatch_count(plus, minus, n) == 0 {
            assert forall|i: int| 0 <= i < n implies -1 <= #[trigger] plus[3 * i + 1] + minus[3 * i
                + 1] - 255 <= 1 by {
                if i < k {
                } else {
                    assert(i == k);
                }
            }
        } else {
            if green_mismatch_count(plus, minus, (n - 1) as nat) != 0 {
                let i = choose|i: int|
                    0 <= i < n - 1 && !(-1 <= #[trigger] plus[3 * i + 1] + minus[3 * i + 1] - 255
                        <= 1);
                assert(0 <= i < n);
            } else {
                assert(!(-1 <= plus[3 * k + 1] + minus[3 * k + 1] - 255 <= 1));
            }
        }
    }
}

/// No pixel among the first `n` has a density differing from mask R
/// exactly when every density equals its pixel's mask R.
proof fn lemma_density_none(masks: Seq<u8>, density: Seq<u8>, n: nat)
    requires
        masks.len() >= 4 * n,
        density.len() >= n,
    ensures
        (density_mismatch_count(masks, density, n) == 0) <==> (forall|j: int|
            0 <= j < n ==> masks[4 * j] == #[trigger] density[j]),
    decreases n,
{
    if n > 0 {
        lemma_density_none(masks, density, (n - 1) as nat);
        let k = n - 1;
        assert((n - 1) * 4 == 4 * k);
        if density_mismatch_count(masks, density, n) == 0 {
            assert forall|j: int| 0 <= j < n implies masks[4 * j] == #[trigger] density[j] by {
                if j < k {
                } else {
                    assert(j == k);
                }
            }
        } else {
            if density_mismatch_count(masks, density, (n - 1) as nat) != 0 {
                let j = choose|j: int| 0 <= j < n - 1 && masks[4 * j] != #[trigger] density[j];
                assert(0 <= j < n);
            } else {
                assert(masks[4 * k] != density[k]);
            }
        }
    }
}

/// Every pixel among the first `n` is a Y+/Y- pair: equal red, equal
/// blue, and greens that sum to 255 within one.
pub open spec fn pixels_paired(p: Seq<u8>, q: Seq<u8>, n: nat) -> bool {
    forall|i: int|
        0 <= i < n ==> {
            &&& #[trigger] p[3 * i] == q[3 * i]
            &&& p[3 * i + 2] == q[3 * i + 2]
            &&& -1 <= p[3 * i + 1] + q[3 * i + 1] - 255 <= 1
        }
}

/// Every one of the first `n` densities equals its pixel's mask R.
pub open spec fn density_repeats_mask_r(masks: Seq<u8>, density: Seq<u8>, n: nat) -> bool {
    forall|j: int| 0 <= j < n ==> masks[4 * j] == #[trigger] density[j]
}

/// The baked maps agree exactly when the two normal maps have one size and
/// every pixel of them is a Y+/Y- pair (equal red, equal blue, and greens
/// that sum to 255 within one), and the grass density map has the masks'
/// size and repeats mask R at every pixel.
pub proof fn lemma_map_relationships_meaning(
    plus: (u32, u32, Seq<u8>),
    minus: (u32, u32, Seq<u8>),
    masks: (u32, u32, Seq<u8>),
    density: (u32, u32, Seq<u8>),
)
    requires
        plus.2.len() == plus.0 as nat * plus.1 as nat * 3,
        minus.2.len() == minus.0 as nat * minus.1 as nat * 3,
        masks.2.len() == masks.0 as nat * masks.1 as nat * 4,
        density.2.len() == density.0 as nat * density.1 as nat,
    ensures
        map_relationship_check(plus, minus, masks, density) is Ok <==> {
            &&& plus.0 == minus.0 && plus.1 == minus.1
            &&& pixels_paired(plus.2, minus.2, plus.0 as nat * plus.1 as nat)
            &&& masks.0 == density.0 && masks.1 == density.1
            &&& density_repeats_mask_r(masks.2, density.2, density.0 as nat * density.1 as nat)
        },
{
    let n = plus.0 as nat * plus.1 as nat;
    let m = density.0 as nat * density.1 as nat;
    let p = plus.2;
    let q = minus.2;
    if plus.0 == minus.0 && plus.1 == minus.1 {
        lemma_red_blue_none(p, q, n);
        lemma_green_none(p, q, n);
        if pixels_paired(p, q, n) {
            assert forall|i: int| 0 <= i < n implies -1 <= #[trigger] p[3 * i + 1] + q[3 * i + 1]
                - 255 <= 1 by {
                assert(p[3 * i] == q[3 * i]);
            }
        }
        if red_blue_mismatch_count(p, q, n) == 0 && green_mismatch_count(p, q, n) == 0 {
            assert forall|i: int| 0 <= i < n implies {
                &&& #[trigger] p[3 * i] == q[3 * i]
                &&& p[3 * i + 2] == q[3 * i + 2]
                &&& -1 <= p[3 * i + 1] + q[3 * i + 1] - 255 <= 1
            } by {
                assert(-1 <= p[3 * i + 1] + q[3 * i + 1] - 255 <= 1);
            }
        }
    }
    if masks.0 == density.0 && masks.1 == density.1 {
        lemma_density_none(masks.2, density.2, m);
    }
}

} // verus!
