//! The frame codec: big-endian integer fields, the magic/version frame
//! header, request-frame encoding, and response-header validation.
//!
//! Every request and every response begins with the 7-byte magic marker
//! `NETDUMP` followed by the 4-byte big-endian protocol version. A header
//! whose bytes differ anywhere from the expected pair is invalid, and a
//! session that sees one must be aborted.

use vstd::prelude::*;

use crate::protocol::{
    spec_command_code, spec_decode_command, spec_status_of_code, spec_version_number,
    command_code, decode_command, decode_status, version_number, Command, Revision, Status,
};

verus! {

/// Length of the magic marker in bytes.
pub const MAGIC_LEN: usize = 7;

/// Length of a frame header (magic plus version) in bytes.
pub const HEADER_LEN: usize = 11;

/// Length of a full request or response frame (header plus one 4-byte code).
pub const FRAME_LEN: usize = 15;

/// The 7-byte magic marker `NETDUMP`.
pub open spec fn spec_magic() -> Seq<u8> {
    seq![0x4eu8, 0x45u8, 0x54u8, 0x44u8, 0x55u8, 0x4du8, 0x50u8]
}

/// The big-endian 4-byte encoding of a 32-bit value.
pub open spec fn spec_u32_be(v: u32) -> Seq<u8> {
    seq![
        (v / 0x0100_0000) as u8,
        ((v / 0x0001_0000) % 0x100) as u8,
        ((v / 0x100) % 0x100) as u8,
        (v % 0x100) as u8,
    ]
}

/// The big-endian 8-byte encoding of a 64-bit value.
pub open spec fn spec_u64_be(v: u64) -> Seq<u8> {
    seq![
        (v / 0x0100_0000_0000_0000) as u8,
        ((v / 0x0001_0000_0000_0000) % 0x100) as u8,
        ((v / 0x0100_0000_0000) % 0x100) as u8,
        ((v / 0x0001_0000_0000) % 0x100) as u8,
        ((v / 0x0100_0000) % 0x100) as u8,
        ((v / 0x0001_0000) % 0x100) as u8,
        ((v / 0x100) % 0x100) as u8,
        (v % 0x100) as u8,
    ]
}

/// The value of 4 bytes read big-endian.
pub open spec fn spec_be_u32(s: Seq<u8>) -> int
    recommends
        s.len() == 4,
{
    s[0] * 0x0100_0000 + s[1] * 0x0001_0000 + s[2] * 0x100 + s[3]
}

/// The value of 8 bytes read big-endian.
pub open spec fn spec_be_u64(s: Seq<u8>) -> int
    recommends
        s.len() == 8,
{
    s[0] * 0x0100_0000_0000_0000 + s[1] * 0x0001_0000_0000_0000 + s[2] * 0x0100_0000_0000
        + s[3] * 0x0001_0000_0000 + s[4] * 0x0100_0000 + s[5] * 0x0001_0000 + s[6] * 0x100 + s[7]
}

/// Reading back the big-endian encoding of a 32-bit value gives the value.
pub proof fn lemma_u32_be_round_trip(v: u32)
    ensures
        spec_be_u32(spec_u32_be(v)) == v,
{
    assert(v / 0x0100_0000 * 0x0100_0000 + (v / 0x0001_0000) % 0x100 * 0x0001_0000
        + (v / 0x100) % 0x100 * 0x100 + v % 0x100 == v) by (bit_vector);
}

/// Reading back the big-endian encoding of a 64-bit value gives the value.
pub proof fn lemma_u64_be_round_trip(v: u64)
    ensures
        spec_be_u64(spec_u64_be(v)) == v,
{
    assert(v / 0x0100_0000_0000_0000 * 0x0100_0000_0000_0000
        + (v / 0x0001_0000_0000_0000) % 0x100 * 0x0001_0000_0000_0000
        + (v / 0x0100_0000_0000) % 0x100 * 0x0100_0000_0000
        + (v / 0x0001_0000_0000) % 0x100 * 0x0001_0000_0000
        + (v / 0x0100_0000) % 0x100 * 0x0100_0000
        + (v / 0x0001_0000) % 0x100 * 0x0001_0000
        + (v / 0x100) % 0x100 * 0x100
        + v % 0x100 == v) by (bit_vector);
}

/// Appends the 4-byte big-endian encoding of `v`.
pub fn push_u32_be(out: &mut Vec<u8>, v: u32)
    ensures
        final(out)@ == old(out)@ + spec_u32_be(v),
{
    out.push((v / 0x0100_0000) as u8);
    out.push(((v / 0x0001_0000) % 0x100) as u8);
    out.push(((v / 0x100) % 0x100) as u8);
    out.push((v % 0x100) as u8);
    proof {
        assert(out@ =~= old(out)@ + spec_u32_be(v));
    }
}

/// Appends the 8-byte big-endian encoding of `v`.
pub fn push_u64_be(out: &mut Vec<u8>, v: u64)
    ensures
        final(out)@ == old(out)@ + spec_u64_be(v),
{
    out.push((v / 0x0100_0000_0000_0000) as u8);
    out.push(((v / 0x0001_0000_0000_0000) % 0x100) as u8);
    out.push(((v / 0x0100_0000_0000) % 0x100) as u8);
    out.push(((v / 0x0001_0000_0000) % 0x100) as u8);
    out.push(((v / 0x0100_0000) % 0x100) as u8);
    out.push(((v / 0x0001_0000) % 0x100) as u8);
    out.push(((v / 0x100) % 0x100) as u8);
    out.push((v % 0x100) as u8);
    proof {
        assert(out@ =~= old(out)@ + spec_u64_be(v));
    }
}

/// Reads 4 bytes big-endian at `start`.
pub fn read_u32_be(data: &Vec<u8>, start: usize) -> (v: u32)
    requires
        start + 4 <= data@.len(),
    ensures
        v == spec_be_u32(data@.subrange(start as int, start as int + 4)),
{
    // a Vec's length bounds the index arithmetic below within usize
    let n = data.len();
    let v: u32 = (data[start] as u32) * 0x0100_0000 + (data[start + 1] as u32) * 0x0001_0000
        + (data[start + 2] as u32) * 0x100 + (data[start + 3] as u32);
    proof {
        let s = data@.subrange(start as int, start as int + 4);
        assert(s[0] == data@[start as int] && s[1] == data@[start as int + 1]
            && s[2] == data@[start as int + 2] && s[3] == data@[start as int + 3]);
    }
    v
}

/// Reads 8 bytes big-endian at `start`.
pub fn read_u64_be(data: &Vec<u8>, start: usize) -> (v: u64)
    requires
        start + 8 <= data@.len(),
    ensures
        v == spec_be_u64(data@.subrange(start as int, start as int + 8)),
{
    // a Vec's length bounds the index arithmetic below within usize
    let n = data.len();
    let v: u64 = (data[start] as u64) * 0x0100_0000_0000_0000
        + (data[start + 1] as u64) * 0x0001_0000_0000_0000
        + (data[start + 2] as u64) * 0x0100_0000_0000
        + (data[start + 3] as u64) * 0x0001_0000_0000
        + (data[start + 4] as u64) * 0x0100_0000
        + (data[start + 5] as u64) * 0x0001_0000
        + (data[start + 6] as u64) * 0x100
        + (data[start + 7] as u64);
    proof {
        let s = data@.subrange(start as int, start as int + 8);
        assert(s[0] == data@[start as int] && s[1] == data@[start as int + 1]
            && s[2] == data@[start as int + 2] && s[3] == data@[start as int + 3]
            && s[4] == data@[start as int + 4] && s[5] == data@[start as int + 5]
            && s[6] == data@[start as int + 6] && s[7] == data@[start as int + 7]);
    }
    v
}

/// The 11 header bytes a revision puts at the start of every frame.
pub open spec fn spec_header(rev: Revision) -> Seq<u8> {
    spec_magic() + spec_u32_be(spec_version_number(rev))
}

/// True when the first 11 bytes of `s` are exactly the expected magic and
/// version of `rev`.
pub open spec fn header_ok(rev: Revision, s: Seq<u8>) -> bool {
    &&& s.len() >= HEADER_LEN
    &&& forall|i: int| 0 <= i < HEADER_LEN ==> s[i] == spec_header(rev)[i]
}

/// The full 15-byte request frame for a command under a revision.
pub open spec fn spec_frame(rev: Revision, c: Command) -> Seq<u8>
    recommends
        spec_command_code(rev, c) is Some,
{
    spec_header(rev) + spec_u32_be(spec_command_code(rev, c)->Some_0)
}

/// The frame header of a revision: magic marker, then version, big-endian.
pub fn encode_header(rev: Revision) -> (out: Vec<u8>)
    ensures
        out@ == spec_header(rev),
        out@.len() == HEADER_LEN,
{
    let mut out: Vec<u8> = Vec::new();
    out.push(0x4e);
    out.push(0x45);
    out.push(0x54);
    out.push(0x44);
    out.push(0x55);
    out.push(0x4d);
    out.push(0x50);
    proof {
        assert(out@ =~= spec_magic());
    }
    push_u32_be(&mut out, version_number(rev));
    out
}

/// The request frame for a command: header, then the command code,
/// big-endian. Only commands the revision has can be encoded.
pub fn encode_frame(rev: Revision, c: Command) -> (out: Vec<u8>)
    requires
        spec_command_code(rev, c) is Some,
    ensures
        out@ == spec_frame(rev, c),
        out@.len() == FRAME_LEN,
{
    let mut out = encode_header(rev);
    let code = command_code(rev, c);
    push_u32_be(&mut out, code.unwrap());
    out
}

/// Byte-exact validation of a frame header against the expected magic and
/// version of `rev`.
pub fn check_header(rev: Revision, data: &Vec<u8>) -> (ok: bool)
    requires
        data@.len() >= HEADER_LEN,
    ensures
        ok == header_ok(rev, data@),
{
    let expected = encode_header(rev);
    let mut i: usize = 0;
    while i < HEADER_LEN
        invariant
            0 <= i <= HEADER_LEN,
            data@.len() >= HEADER_LEN,
            expected@ == spec_header(rev),
            expected@.len() == HEADER_LEN,
            forall|j: int| 0 <= j < i ==> data@[j] == spec_header(rev)[j],
        decreases HEADER_LEN - i,
    {
        if data[i] != expected[i] {
            return false;
        }
        i += 1;
    }
    true
}

/// The status field a 15-byte response carries under `rev`: `None` when the
/// header is not the expected magic/version pair (a fatal framing error),
/// otherwise the decoded status code.
pub open spec fn spec_response_status(rev: Revision, s: Seq<u8>) -> Option<Status>
    recommends
        s.len() == FRAME_LEN,
{
    if header_ok(rev, s) {
        Some(spec_status_of_code(rev, spec_be_u32(s.subrange(11, 15)) as u32))
    } else {
        None
    }
}

/// Validates a 15-byte response frame and decodes its status field.
pub fn parse_response(rev: Revision, data: &Vec<u8>) -> (r: Option<Status>)
    requires
        data@.len() == FRAME_LEN,
    ensures
        r == spec_response_status(rev, data@),
{
    if !check_header(rev, data) {
        return None;
    }
    let code = read_u32_be(data, 11);
    Some(decode_status(rev, code))
}

/// The command a 15-byte request frame carries under `rev`: `None` when the
/// header is invalid or the code is no command of the revision.
pub open spec fn spec_frame_command(rev: Revision, s: Seq<u8>) -> Option<Command>
    recommends
        s.len() == FRAME_LEN,
{
    if header_ok(rev, s) {
        spec_decode_command(rev, spec_be_u32(s.subrange(11, 15)) as u32)
    } else {
        None
    }
}

/// Validates a 15-byte request frame and decodes its command field.
pub fn parse_command_frame(rev: Revision, data: &Vec<u8>) -> (r: Option<Command>)
    requires
        data@.len() == FRAME_LEN,
    ensures
        r == spec_frame_command(rev, data@),
{
    if !check_header(rev, data) {
        return None;
    }
    let code = read_u32_be(data, 11);
    decode_command(rev, code)
}

/// The expected header passes validation: for the expected magic and version
/// pair the handshake check succeeds.
pub proof fn lemma_header_expected(rev: Revision)
    ensures
        header_ok(rev, spec_header(rev)),
{
}

/// Changing any single byte of the expected header makes validation fail:
/// a header equal to the expected one everywhere but at one differing index
/// is rejected.
pub proof fn lemma_header_single_byte_mutation(rev: Revision, s: Seq<u8>, i: int)
    requires
        s.len() == HEADER_LEN,
        0 <= i < HEADER_LEN,
        s[i] != spec_header(rev)[i],
    ensures
        !header_ok(rev, s),
{
}

/// Round trip through the frame codec: the request frame emitted for a
/// command passes header validation, and decoding it with the same codec
/// yields the original command.
pub proof fn lemma_frame_round_trip(rev: Revision, c: Command)
    requires
        spec_command_code(rev, c) is Some,
    ensures
        spec_frame(rev, c).len() == FRAME_LEN,
        spec_frame_command(rev, spec_frame(rev, c)) == Some(c),
{
    let code = spec_command_code(rev, c)->Some_0;
    let f = spec_frame(rev, c);
    assert(header_ok(rev, f));
    assert(f.subrange(11, 15) =~= spec_u32_be(code));
    lemma_u32_be_round_trip(code);
    crate::protocol::lemma_command_code_round_trip(rev, c);
}

} // verus!
