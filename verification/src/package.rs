//! Nature package layout rules: file naming, package-relative paths,
//! per-layer seeds, byte footprints, baked-map checks and platform budgets.

use crate::rng::splitmix_mix;
use crate::text::{
    collapse_separators, decimal_digits, is_ascii_alphanumeric, push_char, push_decimal,
    push_signed_decimal, push_str, sanitize_identifier, sanitized_identifier, signed_decimal,
    strip_leading_underscores, strip_trailing_underscores,
};
use vstd::prelude::*;
use vstd::string::StrSliceExecFns;
use vstd::wrapping::u64_specs;

verus! {

/// Supported groundcover layer families.
#[derive(Debug, Clone, Copy, PartialEq, Eq, Structural)]
pub enum GroundcoverKind {
    /// Blade or clump grass.
    Grass,
    /// Moss mask and optional tuft meshes.
    Moss,
    /// Small flower layer.
    Flower,
    /// Weed or herbaceous layer.
    Weed,
    /// Dead leaves, twigs, or organic litter.
    Litter,
    /// Small woody shrub clumps.
    Shrub,
    /// Faceted small stones or rocks.
    Rock,
    /// Fallen low logs or branches.
    Log,
}

/// Per-layer noise seed of each groundcover kind.
pub open spec fn layer_seed_of(kind: GroundcoverKind) -> u64 {
    match kind {
        GroundcoverKind::Grass => 0x100,
        GroundcoverKind::Moss => 0x200,
        GroundcoverKind::Flower => 0x300,
        GroundcoverKind::Weed => 0x400,
        GroundcoverKind::Litter => 0x500,
        GroundcoverKind::Shrub => 0x600,
        GroundcoverKind::Rock => 0x700,
        GroundcoverKind::Log => 0x800,
    }
}

/// Per-layer noise seed.
pub fn layer_seed(kind: GroundcoverKind) -> (r: u64)
    ensures
        r == layer_seed_of(kind),
{
    match kind {
        GroundcoverKind::Grass => 0x100,
        GroundcoverKind::Moss => 0x200,
        GroundcoverKind::Flower => 0x300,
        GroundcoverKind::Weed => 0x400,
        GroundcoverKind::Litter => 0x500,
        GroundcoverKind::Shrub => 0x600,
        GroundcoverKind::Rock => 0x700,
        GroundcoverKind::Log => 0x800,
    }
}

/// SplitMix64 of `x`: advance by the golden-ratio increment, then mix.
pub fn splitmix64(x: u64) -> (r: u64)
    ensures
        r == splitmix_mix(u64_specs::wrapping_add(x, crate::rng::SPLITMIX_GAMMA)),
{
    let x = x.wrapping_add(0x9e3779b97f4a7c15);
    let mut z = x;
    z = (z ^ (z >> 30)).wrapping_mul(0xbf58476d1ce4e5b9);
    z = (z ^ (z >> 27)).wrapping_mul(0x94d049bb133111eb);
    z ^ (z >> 31)
}

/// File-name label of each groundcover kind.
pub open spec fn kind_filename(kind: GroundcoverKind) -> Seq<char> {
    match kind {
        GroundcoverKind::Grass => "grass"@,
        GroundcoverKind::Moss => "moss"@,
        GroundcoverKind::Flower => "flower"@,
        GroundcoverKind::Weed => "weed"@,
        GroundcoverKind::Litter => "litter"@,
        GroundcoverKind::Shrub => "shrub"@,
        GroundcoverKind::Rock => "rock"@,
        GroundcoverKind::Log => "log"@,
    }
}

/// File-name label of a groundcover kind.
pub fn groundcover_kind_filename(kind: GroundcoverKind) -> (r: &'static str)
    ensures
        r@ == kind_filename(kind),
{
    match kind {
        GroundcoverKind::Grass => "grass",
        GroundcoverKind::Moss => "moss",
        GroundcoverKind::Flower => "flower",
        GroundcoverKind::Weed => "weed",
        GroundcoverKind::Litter => "litter",
        GroundcoverKind::Shrub => "shrub",
        GroundcoverKind::Rock => "rock",
        GroundcoverKind::Log => "log",
    }
}

/// File-name sanitising: ASCII letters and digits kept and lower-cased,
/// other runs collapsed to `_`, underscores trimmed, `asset` when nothing
/// is left.
pub fn sanitize_filename(name: &str) -> (r: String)
    ensures
        r@ == sanitized_identifier(name@, true, "asset"@),
{
    sanitize_identifier(name, true, "asset")
}

/// `{sanitized name}_lod{index}.glb`.
pub fn prototype_lod_filename(name: &str, index: u32) -> (r: String)
    ensures
        r@ == sanitized_identifier(name@, true, "asset"@) + "_lod"@ + decimal_digits(index as nat)
            + ".glb"@,
{
    let mut r = sanitize_filename(name);
    push_str(&mut r, "_lod");
    push_decimal(&mut r, index as u64);
    push_str(&mut r, ".glb");
    r
}

/// `instances/binary/{layer}_{kind}_{chunk_x}_{chunk_z}.bin`.
pub fn scatter_binary_relative_path(
    layer_name: &str,
    kind: GroundcoverKind,
    chunk_x: i32,
    chunk_z: i32,
) -> (r: String)
    ensures
        r@ == "instances/binary/"@ + sanitized_identifier(layer_name@, true, "asset"@) + seq!['_']
            + kind_filename(kind) + seq!['_'] + signed_decimal(chunk_x as int) + seq!['_']
            + signed_decimal(chunk_z as int) + ".bin"@,
{
    let mut r = String::new();
    push_str(&mut r, "instances/binary/");
    let layer = sanitize_filename(layer_name);
    push_str(&mut r, layer.as_str());
    push_char(&mut r, '_');
    push_str(&mut r, groundcover_kind_filename(kind));
    push_char(&mut r, '_');
    push_signed_decimal(&mut r, chunk_x);
    push_char(&mut r, '_');
    push_signed_decimal(&mut r, chunk_z);
    push_str(&mut r, ".bin");
    assert(r@ =~= "instances/binary/"@ + sanitized_identifier(layer_name@, true, "asset"@)
        + seq!['_'] + kind_filename(kind) + seq!['_'] + signed_decimal(chunk_x as int) + seq!['_']
        + signed_decimal(chunk_z as int) + ".bin"@);
    r
}

/// Why a path is not a package-relative file path.
#[derive(Debug, Clone, Copy, PartialEq, Eq, Structural)]
pub enum PackagePathError {
    /// The path is empty.
    Empty,
    /// The path is absolute.
    Absolute,
    /// A `..` component would leave the package directory.
    EscapesPackage,
}

/// `cs` has a `..` component (components are separated by `/`).
pub open spec fn has_parent_component(cs: Seq<char>) -> bool {
    exists|i: int|
        0 <= i && i + 2 <= cs.len() && #[trigger] cs[i] == '.' && cs[i + 1] == '.' && (i == 0
            || cs[i - 1] == '/') && (i + 2 == cs.len() || cs[i + 2] == '/')
}

/// The verdict on a package path, checked in this order: empty, absolute
/// (leading `/`), then any `..` component.
pub open spec fn package_path_check(cs: Seq<char>) -> Result<(), PackagePathError> {
    if cs.len() == 0 {
        Err(PackagePathError::Empty)
    } else if cs[0] == '/' {
        Err(PackagePathError::Absolute)
    } else if has_parent_component(cs) {
        Err(PackagePathError::EscapesPackage)
    } else {
        Ok(())
    }
}

/// Checks that a `/`-separated path stays inside the package directory.
pub fn validate_package_relative_path(relative: &str) -> (r: Result<(), PackagePathError>)
    ensures
        r == package_path_check(relative@),
{
    let n = relative.unicode_len();
    if n == 0 {
        return Err(PackagePathError::Empty);
    }
    if relative.get_char(0) == '/' {
        return Err(PackagePathError::Absolute);
    }
    let mut i: usize = 0;
    while i < n - 1
        invariant
            n == relative@.len(),
            n > 0,
            relative@[0] != '/',
            i <= n - 1,
            forall|j: int|
                0 <= j < i && j + 2 <= n ==> !(#[trigger] relative@[j] == '.' && relative@[j + 1] == '.' && (j
                    == 0 || relative@[j - 1] == '/') && (j + 2 == n || relative@[j + 2] == '/')),
        decreases n - i,
    {
        let a = relative.get_char(i);
        let b = relative.get_char(i + 1);
        if a == '.' && b == '.' {
            let left = i == 0 || relative.get_char(i - 1) == '/';
            let right = i + 2 == n || relative.get_char(i + 2) == '/';
            if left && right {
                return Err(PackagePathError::EscapesPackage);
            }
        }
        i = i + 1;
    }
    assert(!has_parent_component(relative@));
    Ok(())
}

/// `cs` holds no `.`.
pub open spec fn dot_free(cs: Seq<char>) -> bool {
    forall|i: int| 0 <= i < cs.len() ==> #[trigger] cs[i] != '.'
}

proof fn lemma_collapse_dot_free(cs: Seq<char>, lower: bool)
    ensures
        dot_free(collapse_separators(cs, lower)),
    decreases cs.len(),
{
    if cs.len() > 0 {
        lemma_collapse_dot_free(cs.drop_last(), lower);
        let prev = collapse_separators(cs.drop_last(), lower);
        let c = cs.last();
        if is_ascii_alphanumeric(c) {
            let d = if lower && 'A' <= c && c <= 'Z' {
                ((c as u32) + 32) as char
            } else {
                c
            };
            assert(d != '.');
            assert(collapse_separators(cs, lower) =~= prev.push(if lower {
                crate::text::ascii_lowercase(c)
            } else {
                c
            }));
        }
    }
}

proof fn lemma_strip_dot_free(cs: Seq<char>)
    requires
        dot_free(cs),
    ensures
        dot_free(strip_leading_underscores(cs)),
        dot_free(strip_trailing_underscores(cs)),
    decreases cs.len(),
{
    if cs.len() > 0 {
        if cs[0] == '_' {
            assert(dot_free(cs.drop_first()));
            lemma_strip_dot_free(cs.drop_first());
        }
        if cs.last() == '_' {
            assert(dot_free(cs.drop_last()));
            lemma_strip_dot_free(cs.drop_last());
        }
    }
}

proof fn lemma_digits_dot_free(v: nat)
    ensures
        dot_free(decimal_digits(v)),
        decimal_digits(v).len() > 0,
    decreases v,
{
    if v >= 10 {
        lemma_digits_dot_free(v / 10);
        assert(decimal_digits(v) =~= decimal_digits(v / 10).push(
            (('0' as u32) + v % 10) as char,
        ));
    }
}

proof fn lemma_sanitized_dot_free(cs: Seq<char>)
    ensures
        dot_free(sanitized_identifier(cs, true, "asset"@)),
{
    lemma_collapse_dot_free(cs, true);
    let c = collapse_separators(cs, true);
    lemma_strip_dot_free(c);
    lemma_strip_dot_free(strip_leading_underscores(c));
    reveal_strlit("asset");
}

/// A dot-free name followed by a one-dot extension is a package file path.
proof fn lemma_dotted_path_stays_inside(a: Seq<char>, ext: Seq<char>)
    requires
        a.len() > 0,
        a[0] != '/',
        dot_free(a),
        ext.len() >= 2,
        ext[0] == '.',
        dot_free(ext.drop_first()),
    ensures
        package_path_check(a + ext) == Ok::<(), PackagePathError>(()),
{
    let cs = a + ext;
    assert(cs[0] == a[0]);
    if has_parent_component(cs) {
        let i = choose|i: int|
            0 <= i && i + 2 <= cs.len() && #[trigger] cs[i] == '.' && cs[i + 1] == '.' && (i == 0
                || cs[i - 1] == '/') && (i + 2 == cs.len() || cs[i + 2] == '/');
        if i < a.len() {
            assert(a[i] == '.');
        } else {
            assert(cs[i + 1] == ext.drop_first()[i - a.len()]);
        }
    }
}

/// Every binary scatter path the exporter writes stays inside the package.
pub proof fn lemma_scatter_binary_path_stays_inside(
    layer_name: Seq<char>,
    kind: GroundcoverKind,
    chunk_x: i32,
    chunk_z: i32,
)
    ensures
        package_path_check(
            "instances/binary/"@ + sanitized_identifier(layer_name, true, "asset"@) + seq!['_']
                + kind_filename(kind) + seq!['_'] + signed_decimal(chunk_x as int) + seq!['_']
                + signed_decimal(chunk_z as int) + ".bin"@,
        ) == Ok::<(), PackagePathError>(()),
{
    reveal_strlit("instances/binary/");
    reveal_strlit(".bin");
    reveal_strlit("grass");
    reveal_strlit("moss");
    reveal_strlit("flower");
    reveal_strlit("weed");
    reveal_strlit("litter");
    reveal_strlit("shrub");
    reveal_strlit("rock");
    reveal_strlit("log");
    lemma_sanitized_dot_free(layer_name);
    lemma_digits_dot_free(if chunk_x < 0 { (-(chunk_x as int)) as nat } else { chunk_x as nat });
    lemma_digits_dot_free(if chunk_z < 0 { (-(chunk_z as int)) as nat } else { chunk_z as nat });
    let name = sanitized_identifier(layer_name, true, "asset"@);
    let a = "instances/binary/"@ + name + seq!['_'] + kind_filename(kind) + seq!['_']
        + signed_decimal(chunk_x as int) + seq!['_'] + signed_decimal(chunk_z as int);
    assert(dot_free(kind_filename(kind)));
    assert(dot_free(signed_decimal(chunk_x as int)));
    assert(dot_free(signed_decimal(chunk_z as int)));
    assert(dot_free(a));
    assert(a[0] == 'i');
    assert(dot_free(".bin"@.drop_first()));
    lemma_dotted_path_stays_inside(a, ".bin"@);
    assert(a + ".bin"@ =~= "instances/binary/"@ + name + seq!['_'] + kind_filename(kind)
        + seq!['_'] + signed_decimal(chunk_x as int) + seq!['_'] + signed_decimal(chunk_z as int)
        + ".bin"@);
}

/// Every prototype LOD path the exporter writes (under `prototypes/`)
/// stays inside the package.
pub proof fn lemma_prototype_path_stays_inside(name: Seq<char>, index: u32)
    ensures
        package_path_check(
            "prototypes/"@ + sanitized_identifier(name, true, "asset"@) + "_lod"@ + decimal_digits(
                index as nat,
            ) + ".glb"@,
        ) == Ok::<(), PackagePathError>(()),
{
    reveal_strlit("prototypes/");
    reveal_strlit("_lod");
    reveal_strlit(".glb");
    lemma_sanitized_dot_free(name);
    lemma_digits_dot_free(index as nat);
    let a = "prototypes/"@ + sanitized_identifier(name, true, "asset"@) + "_lod"@ + decimal_digits(
        index as nat,
    );
    assert(dot_free(a));
    assert(a[0] == 'p');
    assert(dot_free(".glb"@.drop_first()));
    lemma_dotted_path_stays_inside(a, ".glb"@);
}

} // verus!
