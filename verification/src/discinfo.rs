//! The disc-metadata decoder: the fixed-width 545-byte payload that follows
//! a disc-info status, made of a 1-byte disc type, a 32-byte NUL-padded game
//! name and a 512-byte NUL-padded internal name.
//!
//! An out-of-range type byte and text that is not valid UTF-8 are decode
//! failures, never silent defaults. Name fields lose only their trailing NUL
//! padding; embedded NUL bytes are preserved.

use vstd::prelude::*;
use vstd::utf8::{decode_utf8, valid_utf8};

verus! {

/// Length in bytes of the game-name field.
pub const GAME_NAME_LEN: usize = 32;

/// Length in bytes of the internal-name field.
pub const INTERNAL_NAME_LEN: usize = 512;

/// Length in bytes of the whole disc-info payload.
pub const DISC_INFO_LEN: usize = 545;

/// The three disc types a disc-info payload can name.
#[derive(Copy, Clone, Debug, PartialEq, Eq, Structural)]
pub enum DiscTypes {
    GC,
    WiiSingleSided,
    WiiDoubleSided,
}

/// Why a disc-info payload failed to decode.
#[derive(Copy, Clone, Debug, PartialEq, Eq, Structural)]
pub enum DecodeError {
    /// The type byte is outside the three-valued enumeration.
    OutOfRangeDiscType,
    /// A name field is not valid UTF-8 after trimming its NUL padding.
    InvalidText,
}

/// The decoded disc metadata.
#[derive(Debug)]
pub struct DiscInfo {
    pub disc_type: DiscTypes,
    pub game_name: String,
    pub internal_name: String,
}

/// The disc type a type byte stands for: 0, 1 and 2 in order, nothing else.
pub open spec fn spec_disc_type(b: u8) -> Option<DiscTypes> {
    if b == 0 {
        Some(DiscTypes::GC)
    } else if b == 1 {
        Some(DiscTypes::WiiSingleSided)
    } else if b == 2 {
        Some(DiscTypes::WiiDoubleSided)
    } else {
        None
    }
}

/// Length of `s` once trailing NUL bytes are dropped.
pub open spec fn spec_trimmed_len(s: Seq<u8>) -> int
    decreases s.len(),
{
    if s.len() > 0 && s.last() == 0 {
        spec_trimmed_len(s.subrange(0, s.len() - 1))
    } else {
        s.len() as int
    }
}

/// `s` without its trailing NUL bytes; bytes before the last non-NUL one,
/// embedded NULs included, stay.
pub open spec fn spec_trim_nuls(s: Seq<u8>) -> Seq<u8> {
    s.subrange(0, spec_trimmed_len(s))
}

/// The trimmed length is the unique cut: everything at or after it is NUL,
/// and the byte just before it, if any, is not.
pub proof fn lemma_trimmed_len_unique(s: Seq<u8>, k: int)
    requires
        0 <= k <= s.len(),
        forall|i: int| k <= i < s.len() ==> s[i] == 0,
        k > 0 ==> s[k - 1] != 0,
    ensures
        k == spec_trimmed_len(s),
    decreases s.len(),
{
    if s.len() > 0 && s.last() == 0 {
        let t = s.subrange(0, s.len() - 1);
        assert(k < s.len());
        lemma_trimmed_len_unique(t, k);
    }
}

/// Every position at or past the trimmed length holds a NUL byte, and the
/// trimmed length is within bounds.
pub proof fn lemma_trimmed_len_bounds(s: Seq<u8>)
    ensures
        0 <= spec_trimmed_len(s) <= s.len(),
        forall|i: int| spec_trimmed_len(s) <= i < s.len() ==> s[i] == 0,
    decreases s.len(),
{
    if s.len() > 0 && s.last() == 0 {
        let t = s.subrange(0, s.len() - 1);
        lemma_trimmed_len_bounds(t);
        assert forall|i: int| spec_trimmed_len(s) <= i < s.len() implies s[i] == 0 by {
            if i < s.len() - 1 {
                assert(t[i] == s[i]);
            }
        }
    }
}

/// The game-name bytes of a disc-info payload, NUL padding trimmed.
pub open spec fn spec_game_name_bytes(p: Seq<u8>) -> Seq<u8>
    recommends
        p.len() == DISC_INFO_LEN,
{
    spec_trim_nuls(p.subrange(1, 1 + GAME_NAME_LEN))
}

/// The internal-name bytes of a disc-info payload, NUL padding trimmed.
pub open spec fn spec_internal_name_bytes(p: Seq<u8>) -> Seq<u8>
    recommends
        p.len() == DISC_INFO_LEN,
{
    spec_trim_nuls(p.subrange(1 + GAME_NAME_LEN, DISC_INFO_LEN as int))
}

/// True when a disc-info payload decodes: type byte in range and both name
/// fields valid UTF-8 after trimming.
pub open spec fn spec_disc_info_ok(p: Seq<u8>) -> bool
    recommends
        p.len() == DISC_INFO_LEN,
{
    &&& spec_disc_type(p[0]) is Some
    &&& valid_utf8(spec_game_name_bytes(p))
    &&& valid_utf8(spec_internal_name_bytes(p))
}

/// The copy of `v[start..end]`.
pub fn sub_vec(v: &Vec<u8>, start: usize, end: usize) -> (r: Vec<u8>)
    requires
        start <= end <= v@.len(),
    ensures
        r@ == v@.subrange(start as int, end as int),
{
    let mut r: Vec<u8> = Vec::new();
    let mut i = start;
    while i < end
        invariant
            start <= i <= end,
            end <= v@.len(),
            r@ == v@.subrange(start as int, i as int),
        decreases end - i,
    {
        r.push(v[i]);
        proof {
            assert(r@ =~= v@.subrange(start as int, i as int + 1));
        }
        i += 1;
    }
    r
}

/// `v` without its trailing NUL bytes.
pub fn trim_trailing_nuls(v: &Vec<u8>) -> (r: Vec<u8>)
    ensures
        r@ == spec_trim_nuls(v@),
{
    let mut k = v.len();
    while k > 0 && v[k - 1] == 0
        invariant
            0 <= k <= v@.len(),
            forall|i: int| k <= i < v@.len() ==> v@[i] == 0,
        decreases k,
    {
        k -= 1;
    }
    proof {
        lemma_trimmed_len_unique(v@, k as int);
    }
    sub_vec(v, 0, k)
}

/// Relies on `String::from_utf8`: it returns `Ok` exactly when the bytes are
/// a valid UTF-8 encoding, and then the string's characters are the bytes'
/// decoding.
#[verifier::external_body]
fn utf8_to_string(bytes: Vec<u8>) -> (r: Option<String>)
    ensures
        r is Some <==> valid_utf8(bytes@),
        r is Some ==> r->Some_0@ == decode_utf8(bytes@),
{
    match String::from_utf8(bytes) {
        Ok(s) => Some(s),
        Err(_) => None,
    }
}

/// The disc type a type byte stands for; an out-of-range byte is a decode
/// failure.
pub fn decode_disc_type(b: u8) -> (r: Result<DiscTypes, DecodeError>)
    ensures
        r is Ok <==> spec_disc_type(b) is Some,
        r is Ok ==> Some(r->Ok_0) == spec_disc_type(b),
        r is Err ==> r->Err_0 == DecodeError::OutOfRangeDiscType,
{
    if b == 0 {
        Ok(DiscTypes::GC)
    } else if b == 1 {
        Ok(DiscTypes::WiiSingleSided)
    } else if b == 2 {
        Ok(DiscTypes::WiiDoubleSided)
    } else {
        Err(DecodeError::OutOfRangeDiscType)
    }
}

/// Decodes the 545-byte disc-info payload: type byte, then the two NUL-padded
/// name fields. Succeeds exactly when the type byte is in range and both
/// names are valid UTF-8 after trimming; the type byte is checked first.
pub fn decode_disc_info(payload: &Vec<u8>) -> (r: Result<DiscInfo, DecodeError>)
    requires
        payload@.len() == DISC_INFO_LEN,
    ensures
        r is Ok <==> spec_disc_info_ok(payload@),
        r is Ok ==> Some(r->Ok_0.disc_type) == spec_disc_type(payload@[0]),
        r is Ok ==> r->Ok_0.game_name@ == decode_utf8(spec_game_name_bytes(payload@)),
        r is Ok ==> r->Ok_0.internal_name@ == decode_utf8(spec_internal_name_bytes(payload@)),
        r is Err ==> (r->Err_0 == DecodeError::OutOfRangeDiscType <==> spec_disc_type(
            payload@[0],
        ) is None),
        r is Err && spec_disc_type(payload@[0]) is Some ==> r->Err_0 == DecodeError::InvalidText,
{
    let disc_type = match decode_disc_type(payload[0]) {
        Ok(t) => t,
        Err(e) => {
            return Err(e);
        },
    };
    let game_field = sub_vec(payload, 1, 1 + GAME_NAME_LEN);
    let game_trimmed = trim_trailing_nuls(&game_field);
    let game_name = match utf8_to_string(game_trimmed) {
        Some(s) => s,
        None => {
            return Err(DecodeError::InvalidText);
        },
    };
    let internal_field = sub_vec(payload, 1 + GAME_NAME_LEN, DISC_INFO_LEN);
    let internal_trimmed = trim_trailing_nuls(&internal_field);
    let internal_name = match utf8_to_string(internal_trimmed) {
        Some(s) => s,
        None => {
            return Err(DecodeError::InvalidText);
        },
    };
    Ok(DiscInfo { disc_type, game_name, internal_name })
}

impl DiscTypes {
    /// The human-readable name of the disc type.
    pub fn label(&self) -> (r: String)
        ensures
            self is GC ==> r@ == "GameCube"@,
            self is WiiSingleSided ==> r@ == "Wii Single-Sided"@,
            self is WiiDoubleSided ==> r@ == "Wii Double-Sided"@,
    {
        match self {
            DiscTypes::GC => "GameCube".to_owned(),
            DiscTypes::WiiSingleSided => "Wii Single-Sided".to_owned(),
            DiscTypes::WiiDoubleSided => "Wii Double-Sided".to_owned(),
        }
    }
}

} // verus!
