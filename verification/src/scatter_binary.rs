//! The `midori.scatter.bin.v1` per-chunk scatter buffer: a 16-byte header
//! (`MDSI`, version, record stride, instance count; little-endian `u32`s)
//! followed by one 32-byte record per instance. A record holds eight
//! single-precision fields; here each field is carried as its IEEE-754 bit
//! pattern, so the format logic is exact.

use crate::checksum::{fnv1a_extend, fnv1a_of, lemma_fnv1a_fold_append, FNV_OFFSET};
use vstd::bytes::{
    lemma_auto_spec_u32_to_from_le_bytes, spec_u32_from_le_bytes, spec_u32_to_le_bytes,
    u32_from_le_bytes, u32_to_le_bytes,
};
use vstd::prelude::*;

verus! {

/// Binary scatter format version.
pub const SCATTER_BINARY_VERSION: u32 = 1;

/// Header size in bytes.
pub const SCATTER_BINARY_HEADER_BYTES: u32 = 16;

/// Record size in bytes.
pub const SCATTER_BINARY_RECORD_STRIDE_BYTES: u32 = 32;

/// The four magic bytes `MDSI`.
pub open spec fn scatter_magic() -> Seq<u8> {
    seq![0x4du8, 0x44u8, 0x53u8, 0x49u8]
}

/// One scatter instance as the bit patterns of its eight `f32` fields, in
/// file order.
#[derive(Clone, Copy, Debug, PartialEq, Eq, Structural)]
pub struct ScatterRecordBits {
    pub position_x: u32,
    pub position_y: u32,
    pub position_z: u32,
    pub yaw: u32,
    pub height: u32,
    pub width: u32,
    pub phase: u32,
    pub color_variation: u32,
}

impl ScatterRecordBits {
    /// The eight fields in file order.
    pub open spec fn fields(self) -> Seq<u32> {
        seq![
            self.position_x,
            self.position_y,
            self.position_z,
            self.yaw,
            self.height,
            self.width,
            self.phase,
            self.color_variation,
        ]
    }
}

/// The 32 bytes of one record: each field little-endian, in file order.
pub open spec fn record_bytes(r: ScatterRecordBits) -> Seq<u8> {
    spec_u32_to_le_bytes(r.position_x) + spec_u32_to_le_bytes(r.position_y)
        + spec_u32_to_le_bytes(r.position_z) + spec_u32_to_le_bytes(r.yaw)
        + spec_u32_to_le_bytes(r.height) + spec_u32_to_le_bytes(r.width)
        + spec_u32_to_le_bytes(r.phase) + spec_u32_to_le_bytes(r.color_variation)
}

/// The records' bytes, one after the other.
pub open spec fn records_bytes(rs: Seq<ScatterRecordBits>) -> Seq<u8>
    decreases rs.len(),
{
    if rs.len() == 0 {
        Seq::empty()
    } else {
        records_bytes(rs.drop_last()) + record_bytes(rs.last())
    }
}

/// The complete file for a chunk. The count field holds the record count
/// modulo 2^32, as a `u32` cast of the length does.
pub open spec fn scatter_chunk_bytes(rs: Seq<ScatterRecordBits>) -> Seq<u8> {
    scatter_magic() + spec_u32_to_le_bytes(SCATTER_BINARY_VERSION) + spec_u32_to_le_bytes(
        SCATTER_BINARY_RECORD_STRIDE_BYTES,
    ) + spec_u32_to_le_bytes((rs.len() % 0x1_0000_0000) as u32) + records_bytes(rs)
}

/// Little-endian `u32` at byte offset `o`.
pub open spec fn u32_at(bytes: Seq<u8>, o: int) -> u32 {
    spec_u32_from_le_bytes(bytes.subrange(o, o + 4))
}

/// The record that starts at byte offset `o`.
pub open spec fn record_at(bytes: Seq<u8>, o: int) -> ScatterRecordBits {
    ScatterRecordBits {
        position_x: u32_at(bytes, o),
        position_y: u32_at(bytes, o + 4),
        position_z: u32_at(bytes, o + 8),
        yaw: u32_at(bytes, o + 12),
        height: u32_at(bytes, o + 16),
        width: u32_at(bytes, o + 20),
        phase: u32_at(bytes, o + 24),
        color_variation: u32_at(bytes, o + 28),
    }
}

/// Why a binary scatter buffer was rejected.
#[derive(Clone, Copy, Debug, PartialEq, Eq, Structural)]
pub enum ScatterBinaryError {
    /// The manifest declares more instances than a `u32` count can hold.
    TooManyInstances,
    /// The buffer is shorter than the 16-byte header.
    ShorterThanHeader,
    /// The first four bytes are not `MDSI`.
    InvalidMagic,
    /// The header version is not 1.
    UnsupportedVersion { found: u32 },
    /// The header stride is not 32.
    UnsupportedStride { found: u32 },
    /// The header count differs from the manifest count.
    CountMismatch { header: u32, manifest: usize },
    /// `16 + 32 * count` does not fit a `usize`.
    LengthOverflow,
    /// The buffer length is not `16 + 32 * count`.
    LengthMismatch { expected: usize, actual: usize },
}

/// The outcome of decoding `bytes` against the manifest's declared count:
/// each check in turn, then the records.
pub open spec fn scatter_decode_result(bytes: Seq<u8>, manifest_count: usize) -> Result<
    Seq<ScatterRecordBits>,
    ScatterBinaryError,
> {
    if manifest_count > u32::MAX {
        Err(ScatterBinaryError::TooManyInstances)
    } else if bytes.len() < 16 {
        Err(ScatterBinaryError::ShorterThanHeader)
    } else if bytes.subrange(0, 4) != scatter_magic() {
        Err(ScatterBinaryError::InvalidMagic)
    } else if u32_at(bytes, 4) != SCATTER_BINARY_VERSION {
        Err(ScatterBinaryError::UnsupportedVersion { found: u32_at(bytes, 4) })
    } else if u32_at(bytes, 8) != SCATTER_BINARY_RECORD_STRIDE_BYTES {
        Err(ScatterBinaryError::UnsupportedStride { found: u32_at(bytes, 8) })
    } else if u32_at(bytes, 12) != manifest_count {
        Err(ScatterBinaryError::CountMismatch { header: u32_at(bytes, 12), manifest: manifest_count })
    } else if 16 + 32 * manifest_count > usize::MAX {
        Err(ScatterBinaryError::LengthOverflow)
    } else if bytes.len() != 16 + 32 * manifest_count {
        Err(
            ScatterBinaryError::LengthMismatch {
                expected: (16 + 32 * manifest_count) as usize,
                actual: bytes.len() as usize,
            },
        )
    } else {
        Ok(Seq::new(manifest_count as nat, |i: int| record_at(bytes, 16 + 32 * i)))
    }
}

/// FNV-1a over the little-endian bytes of every record, in order: the
/// logical record checksum that JSON and binary scatter outputs share.
pub open spec fn scatter_records_checksum_value(rs: Seq<ScatterRecordBits>) -> u64 {
    fnv1a_of(records_bytes(rs))
}

/// Appends the little-endian bytes of `v`.
fn push_u32_le(out: &mut Vec<u8>, v: u32)
    ensures
        final(out)@ == old(out)@ + spec_u32_to_le_bytes(v),
{
    let b = u32_to_le_bytes(v);
    let mut i: usize = 0;
    let ghost start = out@;
    while i < 4
        invariant
            b@ == spec_u32_to_le_bytes(v),
            b@.len() == 4,
            i <= 4,
            out@ == start + b@.take(i as int),
        decreases 4 - i,
    {
        out.push(b[i]);
        i = i + 1;
        assert(out@ =~= start + b@.take(i as int));
    }
    assert(b@.take(4) =~= b@);
}

/// Appends the 32 bytes of a record.
fn push_record(out: &mut Vec<u8>, r: &ScatterRecordBits)
    ensures
        final(out)@ == old(out)@ + record_bytes(*r),
{
    let ghost start = out@;
    push_u32_le(out, r.position_x);
    push_u32_le(out, r.position_y);
    push_u32_le(out, r.position_z);
    push_u32_le(out, r.yaw);
    push_u32_le(out, r.height);
    push_u32_le(out, r.width);
    push_u32_le(out, r.phase);
    push_u32_le(out, r.color_variation);
    assert(out@ =~= start + record_bytes(*r));
}

/// Serialises one scatter chunk: header, then every record.
pub fn scatter_binary_chunk_bytes(records: &[ScatterRecordBits]) -> (out: Vec<u8>)
    ensures
        out@ == scatter_chunk_bytes(records@),
{
    let mut out: Vec<u8> = Vec::new();
    out.push(0x4d);
    out.push(0x44);
    out.push(0x53);
    out.push(0x49);
    push_u32_le(&mut out, SCATTER_BINARY_VERSION);
    push_u32_le(&mut out, SCATTER_BINARY_RECORD_STRIDE_BYTES);
    let count = (records.len() as u64 % 0x1_0000_0000) as u32;
    push_u32_le(&mut out, count);
    let ghost header = out@;
    assert(header =~= scatter_magic() + spec_u32_to_le_bytes(SCATTER_BINARY_VERSION)
        + spec_u32_to_le_bytes(SCATTER_BINARY_RECORD_STRIDE_BYTES) + spec_u32_to_le_bytes(
        (records@.len() % 0x1_0000_0000) as u32,
    ));
    let mut i: usize = 0;
    while i < records.len()
        invariant
            i <= records.len(),
            out@ == header + records_bytes(records@.take(i as int)),
        decreases records.len() - i,
    {
        assert(records@.take(i + 1).drop_last() =~= records@.take(i as int));
        push_record(&mut out, &records[i]);
        i = i + 1;
        assert(out@ =~= header + records_bytes(records@.take(i as int)));
    }
    assert(records@.take(i as int) =~= records@);
    out
}

/// Reads the little-endian `u32` at `offset`.
pub fn read_u32_le(bytes: &[u8], offset: usize) -> (r: u32)
    requires
        offset + 4 <= bytes@.len(),
    ensures
        r == u32_at(bytes@, offset as int),
{
    let n = bytes.len();
    assert(n == bytes@.len());
    let part = &bytes[offset..offset + 4];
    assert(part@ =~= bytes@.subrange(offset as int, offset + 4));
    u32_from_le_bytes(part)
}

/// Reads the record at `offset`.
fn read_record(bytes: &[u8], offset: usize) -> (r: ScatterRecordBits)
    requires
        offset + 32 <= bytes@.len(),
    ensures
        r == record_at(bytes@, offset as int),
{
    let n = bytes.len();
    assert(n == bytes@.len());
    ScatterRecordBits {
        position_x: read_u32_le(bytes, offset),
        position_y: read_u32_le(bytes, offset + 4),
        position_z: read_u32_le(bytes, offset + 8),
        yaw: read_u32_le(bytes, offset + 12),
        height: read_u32_le(bytes, offset + 16),
        width: read_u32_le(bytes, offset + 20),
        phase: read_u32_le(bytes, offset + 24),
        color_variation: read_u32_le(bytes, offset + 28),
    }
}

/// Checks a binary scatter buffer against the count its manifest entry
/// declares and decodes its records.
pub fn decode_scatter_binary(bytes: &[u8], manifest_count: usize) -> (r: Result<
    Vec<ScatterRecordBits>,
    ScatterBinaryError,
>)
    ensures
        match (r, scatter_decode_result(bytes@, manifest_count)) {
            (Ok(v), Ok(s)) => v@ == s,
            (Err(e), Err(f)) => e == f,
            _ => false,
        },
{
    if manifest_count as u64 > 0xffff_ffff {
        return Err(ScatterBinaryError::TooManyInstances);
    }
    if bytes.len() < 16 {
        return Err(ScatterBinaryError::ShorterThanHeader);
    }
    if !(bytes[0] == 0x4d && bytes[1] == 0x44 && bytes[2] == 0x53 && bytes[3] == 0x49) {
        proof {
            if bytes@.subrange(0, 4) == scatter_magic() {
                assert(bytes@.subrange(0, 4)[0] == bytes@[0]);
                assert(bytes@.subrange(0, 4)[1] == bytes@[1]);
                assert(bytes@.subrange(0, 4)[2] == bytes@[2]);
                assert(bytes@.subrange(0, 4)[3] == bytes@[3]);
            }
        }
        return Err(ScatterBinaryError::InvalidMagic);
    }
    assert(bytes@.subrange(0, 4) =~= scatter_magic());
    let version = read_u32_le(bytes, 4);
    if version != SCATTER_BINARY_VERSION {
        return Err(ScatterBinaryError::UnsupportedVersion { found: version });
    }
    let stride = read_u32_le(bytes, 8);
    if stride != SCATTER_BINARY_RECORD_STRIDE_BYTES {
        return Err(ScatterBinaryError::UnsupportedStride { found: stride });
    }
    let header_count = read_u32_le(bytes, 12);
    if header_count as usize != manifest_count {
        return Err(ScatterBinaryError::CountMismatch { header: header_count, manifest: manifest_count });
    }
    let payload = match manifest_count.checked_mul(32) {
        Some(p) => p,
        None => {
            return Err(ScatterBinaryError::LengthOverflow);
        },
    };
    let expected = match payload.checked_add(16) {
        Some(e) => e,
        None => {
            return Err(ScatterBinaryError::LengthOverflow);
        },
    };
    if bytes.len() != expected {
        return Err(ScatterBinaryError::LengthMismatch { expected, actual: bytes.len() });
    }
    let mut records: Vec<ScatterRecordBits> = Vec::new();
    let mut i: usize = 0;
    while i < manifest_count
        invariant
            i <= manifest_count,
            bytes@.len() == 16 + 32 * manifest_count,
            bytes@.len() <= usize::MAX,
            records@ =~= Seq::new(i as nat, |j: int| record_at(bytes@, 16 + 32 * j)),
        decreases manifest_count - i,
    {
        let rec = read_record(bytes, 16 + 32 * i);
        records.push(rec);
        i = i + 1;
    }
    Ok(records)
}

/// Logical record checksum of a chunk.
pub fn scatter_records_checksum(records: &[ScatterRecordBits]) -> (h: u64)
    ensures
        h == scatter_records_checksum_value(records@),
{
    let mut h = FNV_OFFSET;
    let mut i: usize = 0;
    while i < records.len()
        invariant
            i <= records.len(),
            h == fnv1a_of(records_bytes(records@.take(i as int))),
        decreases records.len() - i,
    {
        let mut buf: Vec<u8> = Vec::new();
        push_record(&mut buf, &records[i]);
        proof {
            assert(records@.take(i + 1).drop_last() =~= records@.take(i as int));
            assert(buf@ =~= record_bytes(records@[i as int]));
            lemma_fnv1a_fold_append(FNV_OFFSET, records_bytes(records@.take(i as int)), buf@);
        }
        h = fnv1a_extend(h, buf.as_slice());
        i = i + 1;
    }
    assert(records@.take(i as int) =~= records@);
    h
}

/// Each record occupies exactly 32 bytes.
pub proof fn lemma_record_bytes_len(r: ScatterRecordBits)
    ensures
        record_bytes(r).len() == 32,
{
    lemma_auto_spec_u32_to_from_le_bytes();
}

/// The records' bytes are 32 per record, and record `i` sits at `32 * i`.
pub proof fn lemma_records_bytes_layout(rs: Seq<ScatterRecordBits>)
    ensures
        records_bytes(rs).len() == 32 * rs.len(),
        forall|i: int|
            0 <= i < rs.len() ==> #[trigger] records_bytes(rs).subrange(32 * i, 32 * i + 32)
                == record_bytes(rs[i]),
    decreases rs.len(),
{
    if rs.len() > 0 {
        let init = rs.drop_last();
        lemma_records_bytes_layout(init);
        lemma_record_bytes_len(rs.last());
        let all = records_bytes(rs);
        assert(all == records_bytes(init) + record_bytes(rs.last()));
        assert forall|i: int| 0 <= i < rs.len() implies #[trigger] all.subrange(32 * i, 32 * i + 32)
            == record_bytes(rs[i]) by {
            if i < rs.len() - 1 {
                assert(all.subrange(32 * i, 32 * i + 32) =~= records_bytes(init).subrange(
                    32 * i,
                    32 * i + 32,
                ));
                assert(init[i] == rs[i]);
            } else {
                assert(all.subrange(32 * i, 32 * i + 32) =~= record_bytes(rs.last()));
            }
        }
    }
}

/// Reading the fields of a serialised record gives the record back.
pub proof fn lemma_record_roundtrip(bytes: Seq<u8>, o: int, r: ScatterRecordBits)
    requires
        0 <= o,
        o + 32 <= bytes.len(),
        bytes.subrange(o, o + 32) == record_bytes(r),
    ensures
        record_at(bytes, o) == r,
{
    lemma_auto_spec_u32_to_from_le_bytes();
    let rb = record_bytes(r);
    let w = bytes.subrange(o, o + 32);
    assert(bytes.subrange(o, o + 4) =~= w.subrange(0, 4));
    assert(rb.subrange(0, 4) =~= spec_u32_to_le_bytes(r.position_x));
    assert(bytes.subrange(o + 4, o + 8) =~= w.subrange(4, 8));
    assert(rb.subrange(4, 8) =~= spec_u32_to_le_bytes(r.position_y));
    assert(bytes.subrange(o + 8, o + 12) =~= w.subrange(8, 12));
    assert(rb.subrange(8, 12) =~= spec_u32_to_le_bytes(r.position_z));
    assert(bytes.subrange(o + 12, o + 16) =~= w.subrange(12, 16));
    assert(rb.subrange(12, 16) =~= spec_u32_to_le_bytes(r.yaw));
    assert(bytes.subrange(o + 16, o + 20) =~= w.subrange(16, 20));
    assert(rb.subrange(16, 20) =~= spec_u32_to_le_bytes(r.height));
    assert(bytes.subrange(o + 20, o + 24) =~= w.subrange(20, 24));
    assert(rb.subrange(20, 24) =~= spec_u32_to_le_bytes(r.width));
    assert(bytes.subrange(o + 24, o + 28) =~= w.subrange(24, 28));
    assert(rb.subrange(24, 28) =~= spec_u32_to_le_bytes(r.phase));
    assert(bytes.subrange(o + 28, o + 32) =~= w.subrange(28, 32));
    assert(rb.subrange(28, 32) =~= spec_u32_to_le_bytes(r.color_variation));
}

/// Decoding what `scatter_binary_chunk_bytes` wrote, with the record count
/// as the manifest count, gives the records back (whenever the count fits
/// the `u32` header field and the buffer length fits a `usize`).
pub proof fn lemma_scatter_encode_decode(rs: Seq<ScatterRecordBits>)
    requires
        rs.len() <= u32::MAX,
        16 + 32 * rs.len() <= usize::MAX,
    ensures
        scatter_decode_result(scatter_chunk_bytes(rs), rs.len() as usize) == Ok::<
            Seq<ScatterRecordBits>,
            ScatterBinaryError,
        >(rs),
{
    lemma_auto_spec_u32_to_from_le_bytes();
    lemma_records_bytes_layout(rs);
    let b = scatter_chunk_bytes(rs);
    let body = records_bytes(rs);
    let v = spec_u32_to_le_bytes(SCATTER_BINARY_VERSION);
    let st = spec_u32_to_le_bytes(SCATTER_BINARY_RECORD_STRIDE_BYTES);
    let c = spec_u32_to_le_bytes((rs.len() % 0x1_0000_0000) as u32);
    assert(b == scatter_magic() + v + st + c + body);
    assert(b.len() == 16 + 32 * rs.len());
    assert(b.subrange(0, 4) =~= scatter_magic());
    assert(b.subrange(4, 8) =~= v);
    assert(b.subrange(8, 12) =~= st);
    assert(b.subrange(12, 16) =~= c);
    assert(rs.len() % 0x1_0000_0000 == rs.len());
    let decoded = Seq::new(rs.len(), |i: int| record_at(b, 16 + 32 * i));
    assert forall|i: int| 0 <= i < rs.len() implies #[trigger] decoded[i] == rs[i] by {
        assert(b.subrange(16 + 32 * i, 16 + 32 * i + 32) =~= body.subrange(32 * i, 32 * i + 32));
        lemma_record_roundtrip(b, 16 + 32 * i, rs[i]);
    }
    assert(decoded =~= rs);
}

/// Serialising a record read from a buffer reproduces the buffer's bytes.
pub proof fn lemma_record_reencode(bytes: Seq<u8>, o: int)
    requires
        0 <= o,
        o + 32 <= bytes.len(),
    ensures
        record_bytes(record_at(bytes, o)) == bytes.subrange(o, o + 32),
{
    lemma_auto_spec_u32_to_from_le_bytes();
    let r = record_at(bytes, o);
    assert(record_bytes(r) =~= bytes.subrange(o, o + 4) + bytes.subrange(o + 4, o + 8)
        + bytes.subrange(o + 8, o + 12) + bytes.subrange(o + 12, o + 16) + bytes.subrange(
        o + 16,
        o + 20,
    ) + bytes.subrange(o + 20, o + 24) + bytes.subrange(o + 24, o + 28) + bytes.subrange(
        o + 28,
        o + 32,
    ));
    assert(record_bytes(r) =~= bytes.subrange(o, o + 32));
}

/// The first `k` decoded records re-serialise to the first `32 * k` bytes
/// of the record area.
proof fn lemma_decoded_records_bytes(bytes: Seq<u8>, n: int, k: int)
    requires
        0 <= k <= n,
        bytes.len() == 16 + 32 * n,
    ensures
        records_bytes(Seq::new(n as nat, |i: int| record_at(bytes, 16 + 32 * i)).take(k))
            == bytes.subrange(16, 16 + 32 * k),
    decreases k,
{
    let rs = Seq::new(n as nat, |i: int| record_at(bytes, 16 + 32 * i));
    if k == 0 {
        assert(rs.take(0) =~= Seq::<ScatterRecordBits>::empty());
        assert(bytes.subrange(16, 16) =~= Seq::<u8>::empty());
    } else {
        lemma_decoded_records_bytes(bytes, n, k - 1);
        lemma_record_reencode(bytes, 16 + 32 * (k - 1));
        assert(rs.take(k).drop_last() =~= rs.take(k - 1));
        assert(rs.take(k).last() == record_at(bytes, 16 + 32 * (k - 1)));
        assert(bytes.subrange(16, 16 + 32 * k) =~= bytes.subrange(16, 16 + 32 * (k - 1))
            + bytes.subrange(16 + 32 * (k - 1), 16 + 32 * (k - 1) + 32));
    }
}

/// A buffer that decodes is exactly the serialisation of its records:
/// the format has a single encoding of every record list.
pub proof fn lemma_scatter_decode_encode(bytes: Seq<u8>, manifest_count: usize)
    requires
        scatter_decode_result(bytes, manifest_count) is Ok,
    ensures
        scatter_chunk_bytes(scatter_decode_result(bytes, manifest_count)->Ok_0) == bytes,
{
    lemma_auto_spec_u32_to_from_le_bytes();
    let rs = scatter_decode_result(bytes, manifest_count)->Ok_0;
    let n = manifest_count as int;
    assert(rs.len() == n);
    lemma_decoded_records_bytes(bytes, n, n);
    assert(rs.take(n) =~= rs);
    assert(bytes.subrange(4, 8) == spec_u32_to_le_bytes(SCATTER_BINARY_VERSION)) by {
        assert(spec_u32_to_le_bytes(spec_u32_from_le_bytes(bytes.subrange(4, 8)))
            == bytes.subrange(4, 8));
    }
    assert(bytes.subrange(8, 12) == spec_u32_to_le_bytes(SCATTER_BINARY_RECORD_STRIDE_BYTES)) by {
        assert(spec_u32_to_le_bytes(spec_u32_from_le_bytes(bytes.subrange(8, 12)))
            == bytes.subrange(8, 12));
    }
    assert(n % 0x1_0000_0000 == n);
    assert(bytes.subrange(12, 16) == spec_u32_to_le_bytes((rs.len() % 0x1_0000_0000) as u32)) by {
        assert(spec_u32_to_le_bytes(spec_u32_from_le_bytes(bytes.subrange(12, 16)))
            == bytes.subrange(12, 16));
    }
    assert(bytes =~= bytes.subrange(0, 4) + bytes.subrange(4, 8) + bytes.subrange(8, 12)
        + bytes.subrange(12, 16) + bytes.subrange(16, 16 + 32 * n));
}

/// A record's 32 bytes hold its fields at fixed offsets, each
/// little-endian: position x, y, z at 0, 4, 8, yaw at 12, height at 16,
/// width at 20, phase at 24 and color variation at 28.
pub proof fn lemma_record_field_offsets(r: ScatterRecordBits)
    ensures
        record_bytes(r).len() == 32,
        record_bytes(r).subrange(0, 4) == spec_u32_to_le_bytes(r.position_x),
        record_bytes(r).subrange(4, 8) == spec_u32_to_le_bytes(r.position_y),
        record_bytes(r).subrange(8, 12) == spec_u32_to_le_bytes(r.position_z),
        record_bytes(r).subrange(12, 16) == spec_u32_to_le_bytes(r.yaw),
        record_bytes(r).subrange(16, 20) == spec_u32_to_le_bytes(r.height),
        record_bytes(r).subrange(20, 24) == spec_u32_to_le_bytes(r.width),
        record_bytes(r).subrange(24, 28) == spec_u32_to_le_bytes(r.phase),
        record_bytes(r).subrange(28, 32) == spec_u32_to_le_bytes(r.color_variation),
{
    lemma_auto_spec_u32_to_from_le_bytes();
    let b = record_bytes(r);
    assert(b.subrange(0, 4) =~= spec_u32_to_le_bytes(r.position_x));
    assert(b.subrange(4, 8) =~= spec_u32_to_le_bytes(r.position_y));
    assert(b.subrange(8, 12) =~= spec_u32_to_le_bytes(r.position_z));
    assert(b.subrange(12, 16) =~= spec_u32_to_le_bytes(r.yaw));
    assert(b.subrange(16, 20) =~= spec_u32_to_le_bytes(r.height));
    assert(b.subrange(20, 24) =~= spec_u32_to_le_bytes(r.width));
    assert(b.subrange(24, 28) =~= spec_u32_to_le_bytes(r.phase));
    assert(b.subrange(28, 32) =~= spec_u32_to_le_bytes(r.color_variation));
}

/// In a chunk file, record `j` starts at byte `16 + 32 * j`, and its
/// height and width sit 16 and 20 bytes into it, little-endian (as every
/// other field sits at its offset in the record table).
pub proof fn lemma_chunk_record_fields(rs: Seq<ScatterRecordBits>, j: int)
    requires
        0 <= j < rs.len(),
    ensures
        ({
            let b = scatter_chunk_bytes(rs);
            let o = 16 + 32 * j;
            &&& b.len() == 16 + 32 * rs.len()
            &&& b.subrange(o, o + 4) == spec_u32_to_le_bytes(rs[j].position_x)
            &&& b.subrange(o + 4, o + 8) == spec_u32_to_le_bytes(rs[j].position_y)
            &&& b.subrange(o + 8, o + 12) == spec_u32_to_le_bytes(rs[j].position_z)
            &&& b.subrange(o + 12, o + 16) == spec_u32_to_le_bytes(rs[j].yaw)
            &&& b.subrange(o + 16, o + 20) == spec_u32_to_le_bytes(rs[j].height)
            &&& b.subrange(o + 20, o + 24) == spec_u32_to_le_bytes(rs[j].width)
            &&& b.subrange(o + 24, o + 28) == spec_u32_to_le_bytes(rs[j].phase)
            &&& b.subrange(o + 28, o + 32) == spec_u32_to_le_bytes(rs[j].color_variation)
        }),
{
    lemma_auto_spec_u32_to_from_le_bytes();
    lemma_records_bytes_layout(rs);
    lemma_record_field_offsets(rs[j]);
    let b = scatter_chunk_bytes(rs);
    let body = records_bytes(rs);
    let head = scatter_magic() + spec_u32_to_le_bytes(SCATTER_BINARY_VERSION)
        + spec_u32_to_le_bytes(SCATTER_BINARY_RECORD_STRIDE_BYTES) + spec_u32_to_le_bytes(
        (rs.len() % 0x1_0000_0000) as u32,
    );
    assert(head.len() == 16);
    assert(b == head + body);
    let o = 16 + 32 * j;
    let rec = body.subrange(32 * j, 32 * j + 32);
    assert(rec == record_bytes(rs[j]));
    assert forall|a: int, c: int| 0 <= a <= c <= 32 implies b.subrange(o + a, o + c)
        == rec.subrange(a, c) by {
        assert(b.subrange(o + a, o + c) =~= rec.subrange(a, c));
    }
    assert(b.subrange(o, o + 4) == rec.subrange(0, 4));
    assert(b.subrange(o + 4, o + 8) == rec.subrange(4, 8));
    assert(b.subrange(o + 8, o + 12) == rec.subrange(8, 12));
    assert(b.subrange(o + 12, o + 16) == rec.subrange(12, 16));
    assert(b.subrange(o + 16, o + 20) == rec.subrange(16, 20));
    assert(b.subrange(o + 20, o + 24) == rec.subrange(20, 24));
    assert(b.subrange(o + 24, o + 28) == rec.subrange(24, 28));
    assert(b.subrange(o + 28, o + 32) == rec.subrange(28, 32));
}

/// Decoding reads each record's fields from their offsets in the file:
/// record `j`'s height is the little-endian value 16 bytes into the record
/// at `16 + 32 * j`, its width the one 20 bytes in, and so on through the
/// record table.
pub proof fn lemma_decoded_record_fields(bytes: Seq<u8>, manifest_count: usize, j: int)
    requires
        scatter_decode_result(bytes, manifest_count) is Ok,
        0 <= j < manifest_count,
    ensures
        ({
            let r = scatter_decode_result(bytes, manifest_count)->Ok_0[j];
            let o = 16 + 32 * j;
            &&& o + 32 <= bytes.len()
            &&& r.position_x == spec_u32_from_le_bytes(bytes.subrange(o, o + 4))
            &&& r.position_y == spec_u32_from_le_bytes(bytes.subrange(o + 4, o + 8))
            &&& r.position_z == spec_u32_from_le_bytes(bytes.subrange(o + 8, o + 12))
            &&& r.yaw == spec_u32_from_le_bytes(bytes.subrange(o + 12, o + 16))
            &&& r.height == spec_u32_from_le_bytes(bytes.subrange(o + 16, o + 20))
            &&& r.width == spec_u32_from_le_bytes(bytes.subrange(o + 20, o + 24))
            &&& r.phase == spec_u32_from_le_bytes(bytes.subrange(o + 24, o + 28))
            &&& r.color_variation == spec_u32_from_le_bytes(bytes.subrange(o + 28, o + 32))
        }),
{
    assert(16 + 32 * j + 32 <= 16 + 32 * manifest_count);
}

/// Sum of a list of instance counts.
pub open spec fn count_total(counts: Seq<usize>) -> nat
    decreases counts.len(),
{
    if counts.len() == 0 {
        0
    } else {
        (count_total(counts.drop_last()) + counts.last()) as nat
    }
}

/// Why a package's scatter instance totals are unusable.
#[derive(Debug, Clone, Copy, PartialEq, Eq, Structural)]
pub enum ScatterTotalsError {
    /// The binary files' instances together overflow `usize`.
    BinaryCountOverflow,
    /// The scatter JSON and the binary files hold different numbers of
    /// instances.
    JsonBinaryMismatch { json: usize, binary: usize },
}

/// The instance total of the binary scatter files, checked against the
/// scatter JSON's when the package has both.
pub open spec fn scatter_totals_check(
    json_present: bool,
    json_instances: usize,
    binary_counts: Seq<usize>,
) -> Result<usize, ScatterTotalsError> {
    let total = count_total(binary_counts);
    if total > usize::MAX {
        Err(ScatterTotalsError::BinaryCountOverflow)
    } else if json_present && binary_counts.len() > 0 && json_instances != total {
        Err(ScatterTotalsError::JsonBinaryMismatch { json: json_instances, binary: total as usize })
    } else {
        Ok(total as usize)
    }
}

proof fn lemma_count_total_prefix_grows(counts: Seq<usize>, i: int, j: int)
    requires
        0 <= i <= j <= counts.len(),
    ensures
        count_total(counts.take(i)) <= count_total(counts.take(j)),
    decreases j - i,
{
    if i < j {
        lemma_count_total_prefix_grows(counts, i, j - 1);
        assert(counts.take(j).drop_last() =~= counts.take(j - 1));
    }
}

/// Sums the instance counts of a package's binary scatter files and, when
/// the package also has a scatter JSON, requires the JSON to hold as many
/// instances; gives the binary total.
pub fn scatter_instance_totals(json_present: bool, json_instances: usize, binary_counts: &[usize]) -> (r:
    Result<usize, ScatterTotalsError>)
    ensures
        r == scatter_totals_check(json_present, json_instances, binary_counts@),
{
    let mut total: usize = 0;
    let mut i: usize = 0;
    while i < binary_counts.len()
        invariant
            i <= binary_counts@.len(),
            total == count_total(binary_counts@.take(i as int)),
        decreases binary_counts@.len() - i,
    {
        proof {
            assert(binary_counts@.take(i + 1).drop_last() =~= binary_counts@.take(i as int));
        }
        match total.checked_add(binary_counts[i]) {
            Some(t) => {
                total = t;
            },
            None => {
                proof {
                    lemma_count_total_prefix_grows(binary_counts@, i + 1, binary_counts@.len() as int);
                    assert(binary_counts@.take(binary_counts@.len() as int) =~= binary_counts@);
                }
                return Err(ScatterTotalsError::BinaryCountOverflow);
            },
        }
        i = i + 1;
    }
    assert(binary_counts@.take(i as int) =~= binary_counts@);
    if json_present && binary_counts.len() > 0 && json_instances != total {
        return Err(ScatterTotalsError::JsonBinaryMismatch { json: json_instances, binary: total });
    }
    Ok(total)
}

} // verus!
