use vstd::prelude::*;
use vstd::bytes::lemma_auto_spec_u64_to_from_le_bytes;
use vstd::bytes::spec_u64_from_le_bytes;
use vstd::bytes::spec_u64_to_le_bytes;
use vstd::bytes::u64_from_le_bytes;
use vstd::bytes::u64_to_le_bytes;
use vstd::pervasive::VecAdditionalExecFns;
use vstd::slice::slice_subrange;

use crate::account::ID_LEN;
use crate::error::ErrorKind;

verus! {

/// Total size of an encoded record: 8 bytes of value, 32 bytes of authority.
pub const RECORD_LEN: usize = 40;

/// The one persistent entity: a 64-bit value and the identity allowed to
/// change it. It lives encoded inside a data account's byte buffer.
#[derive(Debug)]
pub struct DataRecord {
    pub value: u64,
    /// The authority's 32-byte identity.
    pub authority: Vec<u8>,
}

/// Mathematical view of a record.
#[verifier::ext_equal]
pub struct RecordModel {
    pub value: u64,
    pub authority: Seq<u8>,
}

impl RecordModel {
    /// A well-formed record carries a full 32-byte authority identity.
    pub open spec fn wf(self) -> bool {
        self.authority.len() == ID_LEN
    }
}

impl View for DataRecord {
    type V = RecordModel;

    open spec fn view(&self) -> RecordModel {
        RecordModel { value: self.value, authority: self.authority@ }
    }
}

/// Encoded form of a record: the value as 8 little-endian bytes, then the
/// 32 authority bytes, with no padding.
pub open spec fn spec_encode_record(r: RecordModel) -> Seq<u8> {
    spec_u64_to_le_bytes(r.value) + r.authority
}

/// What decoding a byte buffer yields: the record read from its first 40
/// bytes, or `MalformedRecord` when fewer than 40 bytes are available.
pub open spec fn spec_decode_record(s: Seq<u8>) -> Result<RecordModel, ErrorKind> {
    if s.len() < 40 {
        Err(ErrorKind::MalformedRecord)
    } else {
        Ok(RecordModel {
            value: spec_u64_from_le_bytes(s.subrange(0, 8)),
            authority: s.subrange(8, 40),
        })
    }
}

/// A buffer with `sub` written over the bytes at `off`; everything outside
/// that range keeps its old value.
pub open spec fn spec_write_bytes(s: Seq<u8>, off: int, sub: Seq<u8>) -> Seq<u8>
    recommends
        0 <= off,
        off + sub.len() <= s.len(),
{
    s.subrange(0, off) + sub + s.subrange(off + sub.len(), s.len() as int)
}

/// The view of a decode result, so that contracts can speak of the exec
/// result and the model result in one breath.
pub open spec fn record_result_view(r: Result<DataRecord, ErrorKind>) -> Result<
    RecordModel,
    ErrorKind,
> {
    match r {
        Ok(rec) => Ok(rec@),
        Err(e) => Err(e),
    }
}

/// Copies a byte string.
pub fn clone_bytes(v: &Vec<u8>) -> (out: Vec<u8>)
    ensures
        out@ == v@,
{
    let mut out: Vec<u8> = Vec::new();
    let mut i: usize = 0;
    while i < v.len()
        invariant
            i <= v@.len(),
            out@.len() == i,
            forall|j: int| 0 <= j < i ==> out@[j] == v@[j],
        decreases v@.len() - i,
    {
        out.push(v[i]);
        i += 1;
    }
    proof {
        assert(out@ =~= v@);
    }
    out
}

/// Reads the 8 bytes at `off` as a little-endian 64-bit value.
pub fn read_le_u64(bytes: &Vec<u8>, off: usize) -> (v: u64)
    requires
        off + 8 <= bytes@.len(),
    ensures
        v == spec_u64_from_le_bytes(bytes@.subrange(off as int, off as int + 8)),
{
    proof {
        assert(off + 8 <= bytes.len());
    }
    let s = slice_subrange(bytes.as_slice(), off, off + 8);
    u64_from_le_bytes(s)
}

/// Overwrites the bytes of `dst` at `off` with the bytes of `src`, leaving
/// every other byte of `dst` unchanged.
pub fn write_bytes(dst: &mut Vec<u8>, off: usize, src: &Vec<u8>)
    requires
        off + src@.len() <= old(dst)@.len(),
    ensures
        final(dst)@ == spec_write_bytes(old(dst)@, off as int, src@),
{
    let mut i: usize = 0;
    while i < src.len()
        invariant
            i <= src@.len(),
            off + src@.len() <= old(dst)@.len(),
            dst@.len() == old(dst)@.len(),
            forall|j: int|
                0 <= j < old(dst)@.len() && !(off <= j < off + i) ==> dst@[j] == old(dst)@[j],
            forall|j: int| 0 <= j < i ==> dst@[off + j] == src@[j],
        decreases src@.len() - i,
    {
        proof {
            assert(off + i < dst.len());
        }
        dst.set(off + i, src[i]);
        i += 1;
    }
    proof {
        assert(dst@ =~= spec_write_bytes(old(dst)@, off as int, src@));
    }
}

/// Writes `v` as 8 little-endian bytes at `off`.
pub fn write_le_u64(dst: &mut Vec<u8>, off: usize, v: u64)
    requires
        off + 8 <= old(dst)@.len(),
    ensures
        final(dst)@ == spec_write_bytes(old(dst)@, off as int, spec_u64_to_le_bytes(v)),
{
    let bytes = u64_to_le_bytes(v);
    write_bytes(dst, off, &bytes);
}

/// Encodes a record into a fresh 40-byte buffer.
pub fn encode_record(r: &DataRecord) -> (out: Vec<u8>)
    requires
        r@.wf(),
    ensures
        out@ == spec_encode_record(r@),
        out@.len() == 40,
{
    let mut out = u64_to_le_bytes(r.value);
    let mut i: usize = 0;
    while i < r.authority.len()
        invariant
            i <= r.authority@.len(),
            out@.len() == 8 + i,
            forall|j: int| 0 <= j < 8 ==> out@[j] == spec_u64_to_le_bytes(r.value)[j],
            forall|j: int| 0 <= j < i ==> out@[8 + j] == r.authority@[j],
        decreases r.authority@.len() - i,
    {
        out.push(r.authority[i]);
        i += 1;
    }
    proof {
        lemma_auto_spec_u64_to_from_le_bytes();
        assert(out@ =~= spec_encode_record(r@));
    }
    out
}

/// Decodes the record held in the first 40 bytes of a buffer; fails with
/// `MalformedRecord` when the buffer is shorter than that.
pub fn decode_record(bytes: &Vec<u8>) -> (r: Result<DataRecord, ErrorKind>)
    ensures
        record_result_view(r) == spec_decode_record(bytes@),
        r matches Ok(rec) ==> rec@.wf(),
{
    if bytes.len() < RECORD_LEN {
        return Err(ErrorKind::MalformedRecord);
    }
    let value = read_le_u64(bytes, 0);
    let mut authority: Vec<u8> = Vec::new();
    let mut i: usize = 8;
    while i < RECORD_LEN
        invariant
            8 <= i <= 40,
            bytes@.len() >= 40,
            authority@.len() == i - 8,
            forall|j: int| 0 <= j < i - 8 ==> authority@[j] == bytes@[8 + j],
        decreases 40 - i,
    {
        authority.push(bytes[i]);
        i += 1;
    }
    proof {
        assert(authority@ =~= bytes@.subrange(8, 40));
    }
    Ok(DataRecord { value, authority })
}

/// Decoding an encoded record gives the record back: the layout loses
/// nothing and adds nothing.
pub proof fn lemma_record_round_trip(r: RecordModel)
    requires
        r.wf(),
    ensures
        spec_decode_record(spec_encode_record(r)) == Ok::<RecordModel, ErrorKind>(r),
{
    lemma_auto_spec_u64_to_from_le_bytes();
    let e = spec_encode_record(r);
    assert(e.subrange(0, 8) =~= spec_u64_to_le_bytes(r.value));
    assert(e.subrange(8, 40) =~= r.authority);
    assert(spec_decode_record(e) == Ok::<RecordModel, ErrorKind>(r));
}

/// Writing a whole encoded record over the front of a buffer makes the
/// buffer decode to exactly that record, keeps the buffer's length, and
/// leaves the record's authority bytes in the authority region.
pub proof fn lemma_decode_after_record_write(data: Seq<u8>, r: RecordModel)
    requires
        data.len() >= 40,
        r.wf(),
    ensures
        ({
            let nd = spec_write_bytes(data, 0, spec_encode_record(r));
            &&& nd.len() == data.len()
            &&& spec_decode_record(nd) == Ok::<RecordModel, ErrorKind>(r)
            &&& nd.subrange(8, 40) == r.authority
        }),
{
    lemma_auto_spec_u64_to_from_le_bytes();
    let nd = spec_write_bytes(data, 0, spec_encode_record(r));
    assert(nd.len() == data.len());
    assert(nd.subrange(0, 8) =~= spec_u64_to_le_bytes(r.value));
    assert(nd.subrange(8, 40) =~= r.authority);
    assert(spec_decode_record(nd) == Ok::<RecordModel, ErrorKind>(r));
}

/// Writing only the 8 value bytes replaces the record's value and leaves the
/// authority region byte-identical; every byte outside the value region is
/// unchanged.
pub proof fn lemma_decode_after_value_write(data: Seq<u8>, v: u64)
    requires
        data.len() >= 40,
    ensures
        ({
            let nd = spec_write_bytes(data, 0, spec_u64_to_le_bytes(v));
            &&& nd.len() == data.len()
            &&& spec_decode_record(nd) == Ok::<RecordModel, ErrorKind>(
                RecordModel { value: v, authority: data.subrange(8, 40) },
            )
            &&& nd.subrange(8, 40) == data.subrange(8, 40)
        }),
{
    lemma_auto_spec_u64_to_from_le_bytes();
    let nd = spec_write_bytes(data, 0, spec_u64_to_le_bytes(v));
    assert(nd.len() == data.len());
    assert(nd.subrange(0, 8) =~= spec_u64_to_le_bytes(v));
    assert(nd.subrange(8, 40) =~= data.subrange(8, 40));
}

} // verus!
