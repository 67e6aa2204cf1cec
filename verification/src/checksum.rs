//! FNV-1a (64-bit) checksums used for texture seeds, map fixtures and
//! package validation summaries.

use vstd::bytes::spec_u32_to_le_bytes;
use vstd::prelude::*;
use vstd::string::StringSliceAdditionalSpecFns;
use vstd::wrapping::u64_specs;

verus! {

/// FNV-1a 64-bit offset basis.
pub const FNV_OFFSET: u64 = 0xcbf29ce484222325;

/// FNV-1a 64-bit prime.
pub const FNV_PRIME: u64 = 0x100000001b3;

/// One FNV-1a step.
pub open spec fn fnv1a_step(hash: u64, byte: u8) -> u64 {
    u64_specs::wrapping_mul(hash ^ (byte as u64), FNV_PRIME)
}

/// FNV-1a of `bytes`, continuing from `hash`.
pub open spec fn fnv1a_fold(hash: u64, bytes: Seq<u8>) -> u64
    decreases bytes.len(),
{
    if bytes.len() == 0 {
        hash
    } else {
        fnv1a_step(fnv1a_fold(hash, bytes.drop_last()), bytes.last())
    }
}

/// FNV-1a of `bytes` from the offset basis.
pub open spec fn fnv1a_of(bytes: Seq<u8>) -> u64 {
    fnv1a_fold(FNV_OFFSET, bytes)
}

/// The two little-endian bytes of `v`.
pub open spec fn u16_le_bytes(v: u16) -> Seq<u8> {
    seq![(v % 256) as u8, (v / 256) as u8]
}

/// Concatenation of the little-endian bytes of each value.
pub open spec fn u16_seq_le_bytes(values: Seq<u16>) -> Seq<u8>
    decreases values.len(),
{
    if values.len() == 0 {
        Seq::empty()
    } else {
        u16_seq_le_bytes(values.drop_last()) + u16_le_bytes(values.last())
    }
}

/// Concatenation of the little-endian bytes of each value.
pub open spec fn u32_seq_le_bytes(values: Seq<u32>) -> Seq<u8>
    decreases values.len(),
{
    if values.len() == 0 {
        Seq::empty()
    } else {
        u32_seq_le_bytes(values.drop_last()) + spec_u32_to_le_bytes(values.last())
    }
}

/// Concatenation of fixed-size byte groups.
pub open spec fn flatten_groups<const N: usize>(groups: Seq<[u8; N]>) -> Seq<u8>
    decreases groups.len(),
{
    if groups.len() == 0 {
        Seq::empty()
    } else {
        flatten_groups(groups.drop_last()) + groups.last()@
    }
}

/// One FNV-1a step.
pub fn fnv1a(hash: u64, byte: u8) -> (r: u64)
    ensures
        r == fnv1a_step(hash, byte),
{
    (hash ^ byte as u64).wrapping_mul(FNV_PRIME)
}

/// Hashing a concatenation continues from the hash of the first part.
pub proof fn lemma_fnv1a_fold_append(hash: u64, a: Seq<u8>, b: Seq<u8>)
    ensures
        fnv1a_fold(hash, a + b) == fnv1a_fold(fnv1a_fold(hash, a), b),
    decreases b.len(),
{
    if b.len() == 0 {
        assert(a + b =~= a);
    } else {
        lemma_fnv1a_fold_append(hash, a, b.drop_last());
        assert((a + b).drop_last() =~= a + b.drop_last());
        assert((a + b).last() == b.last());
    }
}

/// Extends `hash` with every byte of `bytes`.
pub fn fnv1a_extend(hash: u64, bytes: &[u8]) -> (r: u64)
    ensures
        r == fnv1a_fold(hash, bytes@),
{
    let mut h = hash;
    let mut i: usize = 0;
    while i < bytes.len()
        invariant
            i <= bytes.len(),
            h == fnv1a_fold(hash, bytes@.take(i as int)),
        decreases bytes.len() - i,
    {
        assert(bytes@.take(i + 1).drop_last() =~= bytes@.take(i as int));
        h = fnv1a(h, bytes[i]);
        i = i + 1;
    }
    assert(bytes@.take(i as int) =~= bytes@);
    h
}

/// FNV-1a checksum of a byte buffer (such as the contents of a package file).
pub fn fnv1a_checksum(bytes: &[u8]) -> (r: u64)
    ensures
        r == fnv1a_of(bytes@),
{
    fnv1a_extend(FNV_OFFSET, bytes)
}

/// Texture seed of a species: the explicit seed when one is set, else the
/// FNV-1a hash of the species name's UTF-8 bytes.
pub fn species_texture_seed(explicit_seed: Option<u64>, name: &str) -> (r: u64)
    ensures
        r == match explicit_seed {
            Some(s) => s,
            None => fnv1a_of(name.spec_bytes()),
        },
{
    match explicit_seed {
        Some(s) => s,
        None => fnv1a_checksum(name.as_bytes()),
    }
}

/// Checksum of a baked map set: FNV-1a over the little-endian height
/// samples, then the Y+ normal texels, then the RGBA mask texels.
pub fn map_set_checksum(height_u16: &[u16], normal_yplus: &[[u8; 3]], masks_rgba: &[[u8; 4]]) -> (r:
    u64)
    ensures
        r == fnv1a_of(
            u16_seq_le_bytes(height_u16@) + flatten_groups(normal_yplus@) + flatten_groups(
                masks_rgba@,
            ),
        ),
{
    let mut h = FNV_OFFSET;
    let mut i: usize = 0;
    while i < height_u16.len()
        invariant
            i <= height_u16.len(),
            h == fnv1a_of(u16_seq_le_bytes(height_u16@.take(i as int))),
        decreases height_u16.len() - i,
    {
        let v = height_u16[i];
        let lo = (v & 0xff) as u8;
        let hi = (v >> 8) as u8;
        proof {
            let prefix = u16_seq_le_bytes(height_u16@.take(i as int));
            assert(height_u16@.take(i + 1).drop_last() =~= height_u16@.take(i as int));
            assert(u16_le_bytes(v) == seq![lo, hi]) by {
                assert((v & 0xff) == v % 256) by (bit_vector);
                assert((v >> 8) == v / 256) by (bit_vector);
            }
            lemma_fnv1a_fold_append(FNV_OFFSET, prefix, seq![lo, hi]);
            reveal_with_fuel(fnv1a_fold, 3);
            assert(seq![lo, hi].drop_last() =~= seq![lo]);
            assert(seq![lo].drop_last() =~= Seq::<u8>::empty());
        }
        h = fnv1a(fnv1a(h, lo), hi);
        i = i + 1;
    }
    assert(height_u16@.take(i as int) =~= height_u16@);
    let ghost heights = u16_seq_le_bytes(height_u16@);
    let mut j: usize = 0;
    while j < normal_yplus.len()
        invariant
            j <= normal_yplus.len(),
            h == fnv1a_of(heights + flatten_groups(normal_yplus@.take(j as int))),
        decreases normal_yplus.len() - j,
    {
        let texel = normal_yplus[j];
        proof {
            let prefix = heights + flatten_groups(normal_yplus@.take(j as int));
            assert(normal_yplus@.take(j + 1).drop_last() =~= normal_yplus@.take(j as int));
            assert(heights + flatten_groups(normal_yplus@.take(j + 1)) =~= prefix + texel@);
            lemma_fnv1a_fold_append(FNV_OFFSET, prefix, texel@);
        }
        h = fnv1a_extend(h, &texel);
        j = j + 1;
    }
    assert(normal_yplus@.take(j as int) =~= normal_yplus@);
    let ghost first = heights + flatten_groups(normal_yplus@);
    let mut m: usize = 0;
    while m < masks_rgba.len()
        invariant
            m <= masks_rgba.len(),
            h == fnv1a_of(first + flatten_groups(masks_rgba@.take(m as int))),
        decreases masks_rgba.len() - m,
    {
        let texel = masks_rgba[m];
        proof {
            let prefix = first + flatten_groups(masks_rgba@.take(m as int));
            assert(masks_rgba@.take(m + 1).drop_last() =~= masks_rgba@.take(m as int));
            assert(first + flatten_groups(masks_rgba@.take(m + 1)) =~= prefix + texel@);
            lemma_fnv1a_fold_append(FNV_OFFSET, prefix, texel@);
        }
        h = fnv1a_extend(h, &texel);
        m = m + 1;
    }
    assert(masks_rgba@.take(m as int) =~= masks_rgba@);
    h
}

} // verus!
