//! Binary glTF (GLB) container framing and export naming.
//!
//! A GLB file is a 12-byte header (`glTF`, version 2, total length), a JSON
//! chunk padded with spaces to a multiple of four bytes, and a BIN chunk
//! padded with zeros to a multiple of four bytes.

use crate::text::{
    decimal_digits, push_decimal, push_str, sanitize_identifier, sanitized_identifier,
};
use vstd::bytes::spec_u32_to_le_bytes;
use vstd::prelude::*;

verus! {

/// Export container format.
#[derive(Clone, Copy, Debug, PartialEq, Eq, Structural)]
pub enum ExportFormat {
    /// Binary glTF.
    Glb,
    /// JSON plus a separate binary buffer.
    GlTf,
}

impl ExportFormat {
    /// The default export format, binary glTF.
    pub fn default_format() -> (r: ExportFormat)
        ensures
            r == ExportFormat::Glb,
    {
        ExportFormat::Glb
    }
}

/// Bytes needed to bring a length of `n` to a multiple of four.
pub open spec fn padding_to_four(n: nat) -> nat {
    ((4 - n % 4) % 4) as nat
}

/// `n` copies of `b`.
pub open spec fn repeated(b: u8, n: nat) -> Seq<u8> {
    Seq::new(n, |i: int| b)
}

/// The GLB magic `glTF`.
pub open spec fn glb_magic() -> Seq<u8> {
    seq![0x67u8, 0x6cu8, 0x54u8, 0x46u8]
}

/// Chunk type `JSON`.
pub const GLB_CHUNK_JSON: u32 = 0x4E4F534A;

/// Chunk type `BIN\0`.
pub const GLB_CHUNK_BIN: u32 = 0x004E4942;

/// Padded JSON chunk length.
pub open spec fn json_chunk_len(json: Seq<u8>) -> nat {
    json.len() + padding_to_four(json.len())
}

/// Padded BIN chunk length.
pub open spec fn bin_chunk_len(bin: Seq<u8>) -> nat {
    bin.len() + padding_to_four(bin.len())
}

/// Total GLB file length.
pub open spec fn glb_total_len(json: Seq<u8>, bin: Seq<u8>) -> nat {
    12 + 8 + json_chunk_len(json) + 8 + bin_chunk_len(bin)
}

/// Little-endian bytes of the low 32 bits of `n` (what an `as u32` length
/// field holds).
pub open spec fn le_u32_of(n: nat) -> Seq<u8> {
    spec_u32_to_le_bytes((n % 0x1_0000_0000) as u32)
}

/// The GLB file for a serialised JSON document and a binary buffer.
pub open spec fn glb_file(json: Seq<u8>, bin: Seq<u8>) -> Seq<u8> {
    glb_magic() + spec_u32_to_le_bytes(2) + le_u32_of(glb_total_len(json, bin)) + le_u32_of(
        json_chunk_len(json),
    ) + spec_u32_to_le_bytes(GLB_CHUNK_JSON) + json + repeated(
        0x20,
        padding_to_four(json.len()),
    ) + le_u32_of(bin_chunk_len(bin)) + spec_u32_to_le_bytes(GLB_CHUNK_BIN) + bin + repeated(
        0,
        padding_to_four(bin.len()),
    )
}

pub(crate) fn push_u32_le(out: &mut Vec<u8>, v: u32)
    ensures
        final(out)@ == old(out)@ + spec_u32_to_le_bytes(v),
{
    let b = vstd::bytes::u32_to_le_bytes(v);
    let ghost start = out@;
    let mut i: usize = 0;
    while i < 4
        invariant
            b@ == spec_u32_to_le_bytes(v),
            b@.len() == 4,
            i <= 4,
            out@ == start + b@.take(i as int),
        decreases 4 - i,
    {
        out.push(b[i]);
        i = i + 1;
        assert(out@ =~= start + b@.take(i as int));
    }
    assert(b@.take(4) =~= b@);
}

pub(crate) fn push_bytes(out: &mut Vec<u8>, bytes: &[u8])
    ensures
        final(out)@ == old(out)@ + bytes@,
{
    let ghost start = out@;
    let mut i: usize = 0;
    while i < bytes.len()
        invariant
            i <= bytes.len(),
            out@ == start + bytes@.take(i as int),
        decreases bytes.len() - i,
    {
        out.push(bytes[i]);
        i = i + 1;
        assert(out@ =~= start + bytes@.take(i as int));
    }
    assert(bytes@.take(i as int) =~= bytes@);
}

fn push_repeated(out: &mut Vec<u8>, b: u8, n: usize)
    ensures
        final(out)@ == old(out)@ + repeated(b, n as nat),
{
    let ghost start = out@;
    let mut i: usize = 0;
    while i < n
        invariant
            i <= n,
            out@ == start + repeated(b, i as nat),
        decreases n - i,
    {
        out.push(b);
        i = i + 1;
        assert(out@ =~= start + repeated(b, i as nat));
    }
}

fn pad_len(n: usize) -> (r: usize)
    ensures
        r == padding_to_four(n as nat),
        r < 4,
{
    (4 - n % 4) % 4
}

/// Pads a binary buffer with zeros to a multiple of four bytes.
pub fn pad_binary(binary: &mut Vec<u8>)
    requires
        old(binary)@.len() + 3 <= usize::MAX,
    ensures
        final(binary)@ == old(binary)@ + repeated(0, padding_to_four(old(binary)@.len())),
        final(binary)@.len() % 4 == 0,
{
    let p = pad_len(binary.len());
    push_repeated(binary, 0, p);
}

/// Frames serialised glTF JSON and its binary buffer as a GLB file.
pub fn build_glb_bytes(json: &[u8], bin: &[u8]) -> (out: Vec<u8>)
    requires
        json@.len() + bin@.len() + 34 <= usize::MAX,
    ensures
        out@ == glb_file(json@, bin@),
        out@.len() == glb_total_len(json@, bin@),
        out@.len() % 4 == 0,
{
    let json_padding = pad_len(json.len());
    let json_chunk_length = json.len() + json_padding;
    let bin_padding = pad_len(bin.len());
    let bin_chunk_length = bin.len() + bin_padding;
    let total_length = 12 + 8 + json_chunk_length + 8 + bin_chunk_length;
    let mut out: Vec<u8> = Vec::new();
    out.push(0x67);
    out.push(0x6c);
    out.push(0x54);
    out.push(0x46);
    push_u32_le(&mut out, 2);
    push_u32_le(&mut out, (total_length as u64 % 0x1_0000_0000) as u32);
    push_u32_le(&mut out, (json_chunk_length as u64 % 0x1_0000_0000) as u32);
    push_u32_le(&mut out, GLB_CHUNK_JSON);
    push_bytes(&mut out, json);
    push_repeated(&mut out, 0x20, json_padding);
    push_u32_le(&mut out, (bin_chunk_length as u64 % 0x1_0000_0000) as u32);
    push_u32_le(&mut out, GLB_CHUNK_BIN);
    push_bytes(&mut out, bin);
    push_repeated(&mut out, 0, bin_padding);
    proof {
        vstd::bytes::lemma_auto_spec_u32_to_from_le_bytes();
        assert(out@ =~= glb_file(json@, bin@));
    }
    out
}

/// Scene name of an export: the species name when one is given and not
/// empty, else `Tree`.
pub open spec fn scene_name_of(species_name: Option<Seq<char>>) -> Seq<char> {
    match species_name {
        Some(n) => if n.len() > 0 {
            n
        } else {
            tree_chars()
        },
        None => tree_chars(),
    }
}

/// The text `Tree`.
pub open spec fn tree_chars() -> Seq<char> {
    seq!['T', 'r', 'e', 'e']
}

/// Export node-name sanitising: ASCII letters and digits kept, other runs
/// collapsed to `_`, underscores trimmed, `Tree` when nothing is left.
pub fn sanitize_name(name: &str) -> (r: String)
    ensures
        r@ == sanitized_identifier(name@, false, tree_chars()),
{
    proof {
        reveal_strlit("Tree");
    }
    sanitize_identifier(name, false, "Tree")
}

/// The scene name for an export (see `scene_name_of`).
pub fn scene_name(species_name: Option<&str>) -> (r: String)
    ensures
        r@ == scene_name_of(
            match species_name {
                Some(n) => Some(n@),
                None => None,
            },
        ),
{
    let mut r = String::new();
    match species_name {
        Some(n) => {
            if n.unicode_len() > 0 {
                push_str(&mut r, n);
                return r;
            }
        },
        None => {},
    }
    proof {
        reveal_strlit("Tree");
    }
    push_str(&mut r, "Tree");
    r
}

/// Node name of LOD `lod_index`: the sanitised scene name, `_LOD`, and the
/// index in decimal.
pub fn lod_node_name(species_name: Option<&str>, lod_index: u32) -> (r: String)
    ensures
        r@ == sanitized_identifier(
            scene_name_of(
                match species_name {
                    Some(n) => Some(n@),
                    None => None,
                },
            ),
            false,
            tree_chars(),
        ) + seq!['_', 'L', 'O', 'D'] + decimal_digits(lod_index as nat),
{
    let base = scene_name(species_name);
    let mut r = sanitize_name(base.as_str());
    proof {
        reveal_strlit("_LOD");
    }
    push_str(&mut r, "_LOD");
    push_decimal(&mut r, lod_index as u64);
    r
}

} // verus!
