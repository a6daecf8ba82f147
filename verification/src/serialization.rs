//! Record encoding: every entity is serialized with a leading type
//! discriminator followed by its fields, and readers ignore trailing
//! reserved bytes by consuming an exact prefix and reporting where it ends.
//!
//! The wire primitives are little-endian words, a sign-and-magnitude form
//! for timestamps, length-prefixed UTF-8 for names and links, and one tag
//! byte per enum variant.  Round-trip lemmas prove the encoding lossless.

use crate::bc_token::BcToken;
use crate::bc_token_metadata::BcTokenMetadata;
use crate::bc_token_metadata::ContentType;
use crate::candidate_limit_record::CandidateLimitRecord;
use crate::cc_vote_record::CCVoteChoice;
use crate::cc_vote_record::CCVoteRecord;
use crate::cc_vote_record::Vote;
use crate::enums::BcTokenState;
use crate::enums::ShihonAccountType;
use crate::mix_content_record::MixContentRecord;
use crate::mix_content_record::OptionMixResult;
use crate::kicker_coin_owner_record::KickerCoinOwnerRecord;
use crate::outside_buyer_record::OutsideBuyerRecord;
use crate::rate_other_record::RateOtherRecord;
use crate::tanistry::Tanistry;
use crate::tanistry::TanistryConfig;
use vstd::prelude::*;
use vstd::slice::slice_subrange;
use vstd::slice::slice_to_vec;

verus! {

/// The encoding of an unsigned word: eight little-endian bytes.
pub open spec fn spec_encode_u64(x: u64) -> Seq<u8> {
    vstd::bytes::spec_u64_to_le_bytes(x)
}

/// What reading a word at `pos` yields.
pub open spec fn spec_decode_u64(bytes: Seq<u8>, pos: int) -> Option<(u64, int)> {
    if pos < 0 || pos + 8 > bytes.len() {
        None
    } else {
        Some((vstd::bytes::spec_u64_from_le_bytes(bytes.subrange(pos, pos + 8)), pos + 8))
    }
}

/// A word reads back as itself wherever its encoding stands.
pub proof fn lemma_u64_round_trip(bytes: Seq<u8>, pos: int, x: u64)
    requires
        0 <= pos,
        pos + 8 <= bytes.len(),
        bytes.subrange(pos, pos + 8) == spec_encode_u64(x),
    ensures
        spec_decode_u64(bytes, pos) == Some((x, pos + 8)),
{
    vstd::bytes::lemma_auto_spec_u64_to_from_le_bytes();
}

/// Appends a word.
pub fn write_u64(out: &mut Vec<u8>, x: u64)
    ensures
        final(out)@ == old(out)@ + spec_encode_u64(x),
{
    let mut bytes = vstd::bytes::u64_to_le_bytes(x);
    out.append(&mut bytes);
}

/// Reads a word.
pub fn read_u64(bytes: &[u8], pos: usize) -> (r: Option<(u64, usize)>)
    ensures
        match spec_decode_u64(bytes@, pos as int) {
            Some((x, end)) => r == Some((x, end as usize)),
            None => r is None,
        },
{
    if pos > bytes.len() || bytes.len() - pos < 8 {
        return None;
    }
    let word = vstd::bytes::u64_from_le_bytes(slice_subrange(bytes, pos, pos + 8));
    Some((word, pos + 8))
}

/// The encoding of a byte-sized tag.
pub open spec fn spec_encode_u8(x: u8) -> Seq<u8> {
    seq![x]
}

/// What reading a tag at `pos` yields.
pub open spec fn spec_decode_u8(bytes: Seq<u8>, pos: int) -> Option<(u8, int)> {
    if pos < 0 || pos + 1 > bytes.len() {
        None
    } else {
        Some((bytes[pos], pos + 1))
    }
}

/// Appends a tag byte.
pub fn write_u8(out: &mut Vec<u8>, x: u8)
    ensures
        final(out)@ == old(out)@ + spec_encode_u8(x),
{
    out.push(x);
    assert(out@ =~= old(out)@ + spec_encode_u8(x));
}

/// Reads a tag byte.
pub fn read_u8(bytes: &[u8], pos: usize) -> (r: Option<(u8, usize)>)
    ensures
        match spec_decode_u8(bytes@, pos as int) {
            Some((x, end)) => r == Some((x, end as usize)),
            None => r is None,
        },
{
    if pos >= bytes.len() {
        return None;
    }
    Some((*vstd::slice::slice_index_get(bytes, pos), pos + 1))
}

/// The encoding of a flag: one byte, one or zero.
pub open spec fn spec_encode_bool(b: bool) -> Seq<u8> {
    if b {
        seq![1u8]
    } else {
        seq![0u8]
    }
}

/// What reading a flag at `pos` yields; any byte above one is refused.
pub open spec fn spec_decode_bool(bytes: Seq<u8>, pos: int) -> Option<(bool, int)> {
    match spec_decode_u8(bytes, pos) {
        None => None,
        Some((x, end)) => if x == 0 {
            Some((false, end))
        } else if x == 1 {
            Some((true, end))
        } else {
            None
        },
    }
}

/// Appends a flag.
pub fn write_bool(out: &mut Vec<u8>, b: bool)
    ensures
        final(out)@ == old(out)@ + spec_encode_bool(b),
{
    write_u8(out, if b {
        1
    } else {
        0
    });
}

/// Reads a flag.
pub fn read_bool(bytes: &[u8], pos: usize) -> (r: Option<(bool, usize)>)
    ensures
        match spec_decode_bool(bytes@, pos as int) {
            Some((b, end)) => r == Some((b, end as usize)),
            None => r is None,
        },
{
    match read_u8(bytes, pos) {
        None => None,
        Some((x, end)) => if x == 0 {
            Some((false, end))
        } else if x == 1 {
            Some((true, end))
        } else {
            None
        },
    }
}

/// The encoding of a timestamp: a sign byte, then the magnitude — for a
/// negative value, the word holds the ones' complement so the minimum
/// timestamp still fits.
pub open spec fn spec_encode_i64(x: i64) -> Seq<u8> {
    if x >= 0 {
        seq![0u8] + spec_encode_u64(x as u64)
    } else {
        seq![1u8] + spec_encode_u64((-(x + 1)) as u64)
    }
}

/// What reading a timestamp at `pos` yields; magnitudes past the signed
/// range and sign bytes above one are refused.
pub open spec fn spec_decode_i64(bytes: Seq<u8>, pos: int) -> Option<(i64, int)> {
    match spec_decode_u8(bytes, pos) {
        None => None,
        Some((sign, p1)) => match spec_decode_u64(bytes, p1) {
            None => None,
            Some((m, end)) => if m > 0x7fffffffffffffffu64 {
                None
            } else if sign == 0 {
                Some((m as i64, end))
            } else if sign == 1 {
                Some(((-(m as i64) - 1) as i64, end))
            } else {
                None
            },
        },
    }
}

/// A timestamp reads back as itself wherever its encoding stands.
pub proof fn lemma_i64_round_trip(bytes: Seq<u8>, pos: int, x: i64)
    requires
        0 <= pos,
        pos + 9 <= bytes.len(),
        bytes.subrange(pos, pos + 9) == spec_encode_i64(x),
    ensures
        spec_decode_i64(bytes, pos) == Some((x, pos + 9)),
{
    vstd::bytes::lemma_auto_spec_u64_to_from_le_bytes();
    let enc = spec_encode_i64(x);
    assert(bytes[pos] == enc[0]);
    assert(bytes.subrange(pos + 1, pos + 9) =~= enc.subrange(1, 9));
    if x >= 0 {
        assert(enc.subrange(1, 9) =~= spec_encode_u64(x as u64));
        lemma_u64_round_trip(bytes, pos + 1, x as u64);
    } else {
        assert(enc.subrange(1, 9) =~= spec_encode_u64((-(x + 1)) as u64));
        lemma_u64_round_trip(bytes, pos + 1, (-(x + 1)) as u64);
    }
}

/// Appends a timestamp.
pub fn write_i64(out: &mut Vec<u8>, x: i64)
    ensures
        final(out)@ == old(out)@ + spec_encode_i64(x),
{
    if x >= 0 {
        write_u8(out, 0);
        write_u64(out, x as u64);
    } else {
        write_u8(out, 1);
        write_u64(out, (-(x + 1)) as u64);
    }
    assert(out@ =~= old(out)@ + spec_encode_i64(x));
}

/// Reads a timestamp.
pub fn read_i64(bytes: &[u8], pos: usize) -> (r: Option<(i64, usize)>)
    ensures
        match spec_decode_i64(bytes@, pos as int) {
            Some((x, end)) => r == Some((x, end as usize)),
            None => r is None,
        },
{
    let total: usize = bytes.len();
    proof {
        assert(bytes@.len() == total);
    }
    let (sign, p1) = match read_u8(bytes, pos) {
        Some(v) => v,
        None => {
            return None;
        },
    };
    let (m, end) = match read_u64(bytes, p1) {
        Some(v) => v,
        None => {
            return None;
        },
    };
    if m > 0x7fffffffffffffffu64 {
        return None;
    }
    if sign == 0 {
        Some((m as i64, end))
    } else if sign == 1 {
        Some((-(m as i64) - 1, end))
    } else {
        None
    }
}

/// The encoding of an optional word: a flag, then the word when present.
pub open spec fn spec_encode_opt_u64(o: Option<u64>) -> Seq<u8> {
    match o {
        None => seq![0u8],
        Some(x) => seq![1u8] + spec_encode_u64(x),
    }
}

/// What reading an optional word at `pos` yields.
pub open spec fn spec_decode_opt_u64(bytes: Seq<u8>, pos: int) -> Option<(Option<u64>, int)> {
    match spec_decode_bool(bytes, pos) {
        None => None,
        Some((present, p1)) => if !present {
            Some((None, p1))
        } else {
            match spec_decode_u64(bytes, p1) {
                None => None,
                Some((x, end)) => Some((Some(x), end)),
            }
        },
    }
}

/// Appends an optional word.
pub fn write_opt_u64(out: &mut Vec<u8>, o: Option<u64>)
    ensures
        final(out)@ == old(out)@ + spec_encode_opt_u64(o),
{
    match o {
        None => write_u8(out, 0),
        Some(x) => {
            write_u8(out, 1);
            write_u64(out, x);
        },
    }
    assert(out@ =~= old(out)@ + spec_encode_opt_u64(o));
}

/// Reads an optional word.
pub fn read_opt_u64(bytes: &[u8], pos: usize) -> (r: Option<(Option<u64>, usize)>)
    ensures
        match spec_decode_opt_u64(bytes@, pos as int) {
            Some((o, end)) => r == Some((o, end as usize)),
            None => r is None,
        },
{
    let total: usize = bytes.len();
    proof {
        assert(bytes@.len() == total);
    }
    let (present, p1) = match read_bool(bytes, pos) {
        Some(v) => v,
        None => {
            return None;
        },
    };
    if !present {
        return Some((None, p1));
    }
    match read_u64(bytes, p1) {
        Some((x, end)) => Some((Some(x), end)),
        None => None,
    }
}

/// Relies on `String::from_utf8`: it returns the string of exactly the
/// given bytes when they are valid UTF-8 and refuses them otherwise.
#[verifier::external_body]
fn string_from_utf8(bytes: Vec<u8>) -> (r: Option<String>)
    ensures
        match r {
            Some(s) => vstd::utf8::valid_utf8(bytes@) && vstd::utf8::encode_utf8(s@) == bytes@,
            None => !vstd::utf8::valid_utf8(bytes@),
        },
{
    String::from_utf8(bytes).ok()
}

/// The encoding of a text field: a length word, then the UTF-8 bytes.
pub open spec fn spec_encode_string(s: Seq<char>) -> Seq<u8> {
    spec_encode_u64(vstd::utf8::encode_utf8(s).len() as u64) + vstd::utf8::encode_utf8(s)
}

/// What reading a text field at `pos` yields: the decoded characters, or
/// nothing when the bytes are short or not valid UTF-8.
pub open spec fn spec_decode_string(bytes: Seq<u8>, pos: int) -> Option<(Seq<char>, int)> {
    match spec_decode_u64(bytes, pos) {
        None => None,
        Some((n, p1)) => if p1 + n > bytes.len() {
            None
        } else {
            let payload = bytes.subrange(p1, p1 + n);
            if vstd::utf8::valid_utf8(payload) {
                Some((vstd::utf8::decode_utf8(payload), p1 + n))
            } else {
                None
            }
        },
    }
}

/// A text field reads back as itself wherever its encoding stands.
pub proof fn lemma_string_round_trip(bytes: Seq<u8>, pos: int, s: Seq<char>)
    requires
        vstd::utf8::encode_utf8(s).len() <= u64::MAX,
        0 <= pos,
        pos + spec_encode_string(s).len() <= bytes.len(),
        bytes.subrange(pos, pos + spec_encode_string(s).len() as int) == spec_encode_string(s),
    ensures
        spec_decode_string(bytes, pos) == Some((s, pos + spec_encode_string(s).len() as int)),
{
    vstd::bytes::lemma_auto_spec_u64_to_from_le_bytes();
    let payload = vstd::utf8::encode_utf8(s);
    let n = payload.len() as int;
    let enc = spec_encode_string(s);
    assert(enc.subrange(0, 8) =~= spec_encode_u64(payload.len() as u64));
    assert(bytes.subrange(pos, pos + 8) =~= enc.subrange(0, 8));
    lemma_u64_round_trip(bytes, pos, payload.len() as u64);
    assert(bytes.subrange(pos + 8, pos + 8 + n) =~= enc.subrange(8, 8 + n));
    assert(enc.subrange(8, 8 + n) =~= payload);
    vstd::utf8::encode_utf8_valid_utf8(s);
    vstd::utf8::encode_utf8_decode_utf8(s);
}

/// Appends a text field.
pub fn write_string(out: &mut Vec<u8>, s: &str)
    ensures
        final(out)@ == old(out)@ + spec_encode_string(s@),
{
    let payload: Vec<u8> = slice_to_vec(s.as_bytes());
    let n: usize = payload.len();
    proof {
        assert(vstd::utf8::encode_utf8(s@).len() == n);
    }
    write_u64(out, n as u64);
    let mut tail = payload;
    out.append(&mut tail);
    assert(out@ =~= old(out)@ + spec_encode_string(s@));
}

/// Reads a text field.
pub fn read_string(bytes: &[u8], pos: usize) -> (r: Option<(String, usize)>)
    ensures
        match spec_decode_string(bytes@, pos as int) {
            Some((s, end)) => r matches Some((t, e)) && t@ == s && e == end,
            None => r is None,
        },
{
    let total: usize = bytes.len();
    proof {
        assert(bytes@.len() == total);
    }
    let (n, p1) = match read_u64(bytes, pos) {
        Some(v) => v,
        None => {
            return None;
        },
    };
    if n > (total - p1) as u64 {
        return None;
    }
    let len = n as usize;
    let payload: Vec<u8> = slice_to_vec(slice_subrange(bytes, p1, p1 + len));
    match string_from_utf8(payload) {
        Some(s) => {
            proof {
                vstd::utf8::decode_utf8_encode_utf8(bytes@.subrange(
                    p1 as int,
                    p1 as int + n as int,
                ));
                vstd::utf8::encode_utf8_decode_utf8(s@);
            }
            Some((s, p1 + len))
        },
        None => None,
    }
}


/// The tag byte of each account type: its position in the discriminator
/// list.
pub open spec fn spec_account_type_tag(t: ShihonAccountType) -> u8 {
    match t {
        ShihonAccountType::Uninitialized => 0,
        ShihonAccountType::BcToken => 1,
        ShihonAccountType::BcTokenMetadata => 2,
        ShihonAccountType::KickerCoinOwnerRecord => 3,
        ShihonAccountType::Tanistry => 4,
        ShihonAccountType::CandidateLimitRecord => 5,
        ShihonAccountType::MixContentRecord => 6,
        ShihonAccountType::RateOption => 7,
        ShihonAccountType::RateOtherRecord => 8,
        ShihonAccountType::OutsideBuyerRecord => 9,
        ShihonAccountType::CCVoteRecord => 10,
    }
}

/// The account type a tag byte stands for.
pub open spec fn spec_account_type_of_tag(b: u8) -> Option<ShihonAccountType> {
    if b == 0 {
        Some(ShihonAccountType::Uninitialized)
    } else if b == 1 {
        Some(ShihonAccountType::BcToken)
    } else if b == 2 {
        Some(ShihonAccountType::BcTokenMetadata)
    } else if b == 3 {
        Some(ShihonAccountType::KickerCoinOwnerRecord)
    } else if b == 4 {
        Some(ShihonAccountType::Tanistry)
    } else if b == 5 {
        Some(ShihonAccountType::CandidateLimitRecord)
    } else if b == 6 {
        Some(ShihonAccountType::MixContentRecord)
    } else if b == 7 {
        Some(ShihonAccountType::RateOption)
    } else if b == 8 {
        Some(ShihonAccountType::RateOtherRecord)
    } else if b == 9 {
        Some(ShihonAccountType::OutsideBuyerRecord)
    } else if b == 10 {
        Some(ShihonAccountType::CCVoteRecord)
    } else {
        None
    }
}

/// Every account type survives its tag.
pub proof fn lemma_account_type_tag_round_trip(t: ShihonAccountType)
    ensures
        spec_account_type_of_tag(spec_account_type_tag(t)) == Some(t),
{
}

/// Writes an account type tag.
pub fn write_account_type(out: &mut Vec<u8>, t: ShihonAccountType)
    ensures
        final(out)@ == old(out)@ + spec_encode_u8(spec_account_type_tag(t)),
{
    let tag: u8 = match t {
        ShihonAccountType::Uninitialized => 0,
        ShihonAccountType::BcToken => 1,
        ShihonAccountType::BcTokenMetadata => 2,
        ShihonAccountType::KickerCoinOwnerRecord => 3,
        ShihonAccountType::Tanistry => 4,
        ShihonAccountType::CandidateLimitRecord => 5,
        ShihonAccountType::MixContentRecord => 6,
        ShihonAccountType::RateOption => 7,
        ShihonAccountType::RateOtherRecord => 8,
        ShihonAccountType::OutsideBuyerRecord => 9,
        ShihonAccountType::CCVoteRecord => 10,
    };
    write_u8(out, tag);
}

/// Reads an account type tag.
pub fn read_account_type(bytes: &[u8], pos: usize) -> (r: Option<(ShihonAccountType, usize)>)
    ensures
        match spec_decode_u8(bytes@, pos as int) {
            Some((b, end)) => match spec_account_type_of_tag(b) {
                Some(t) => r == Some((t, end as usize)),
                None => r is None,
            },
            None => r is None,
        },
{
    let (b, end) = match read_u8(bytes, pos) {
        Some(v) => v,
        None => {
            return None;
        },
    };
    let t: ShihonAccountType = if b == 0 {
        ShihonAccountType::Uninitialized
    } else if b == 1 {
        ShihonAccountType::BcToken
    } else if b == 2 {
        ShihonAccountType::BcTokenMetadata
    } else if b == 3 {
        ShihonAccountType::KickerCoinOwnerRecord
    } else if b == 4 {
        ShihonAccountType::Tanistry
    } else if b == 5 {
        ShihonAccountType::CandidateLimitRecord
    } else if b == 6 {
        ShihonAccountType::MixContentRecord
    } else if b == 7 {
        ShihonAccountType::RateOption
    } else if b == 8 {
        ShihonAccountType::RateOtherRecord
    } else if b == 9 {
        ShihonAccountType::OutsideBuyerRecord
    } else if b == 10 {
        ShihonAccountType::CCVoteRecord
    } else {
        return None;
    };
    Some((t, end))
}

/// The account type a tag byte stands for, accepted only when it is the
/// expected kind: a reader refuses data of a foreign record type.
pub open spec fn spec_expect_account_type(b: u8, expected: ShihonAccountType) -> Option<
    ShihonAccountType,
> {
    match spec_account_type_of_tag(b) {
        None => None,
        Some(t) => if t == expected {
            Some(t)
        } else {
            None
        },
    }
}

/// Reads an account type tag, refusing any kind but the expected one.
fn read_expected_account_type(
    bytes: &[u8],
    pos: usize,
    expected: ShihonAccountType,
) -> (r: Option<(ShihonAccountType, usize)>)
    ensures
        match spec_decode_u8(bytes@, pos as int) {
            Some((b, end)) => match spec_expect_account_type(b, expected) {
                Some(t) => r == Some((t, end as usize)),
                None => r is None,
            },
            None => r is None,
        },
{
    let (t, end) = match read_account_type(bytes, pos) {
        Some(v) => v,
        None => {
            return None;
        },
    };
    if t == expected {
        Some((t, end))
    } else {
        None
    }
}

/// The encoding of an escrow record: discriminator, kicker, coordinator,
/// escrowed amount, token name and the kicked-off flag.
pub open spec fn spec_encode_kicker_coin_owner_record(r: KickerCoinOwnerRecord) -> Seq<u8> {
    spec_encode_u8(spec_account_type_tag(r.account_type)) + spec_encode_u64(r.kicker_coin_holder)
        + spec_encode_u64(r.coordinator) + spec_encode_u64(r.amount_of_kicker_coin)
        + spec_encode_string(r.bc_token_name@) + spec_encode_bool(r.is_kick_off)
}

/// What reading an escrow record at `pos` yields, as its fields.
pub open spec fn spec_decode_kicker_coin_owner_record(bytes: Seq<u8>, pos: int) -> Option<
    (ShihonAccountType, u64, u64, u64, Seq<char>, bool, int),
> {
    match spec_decode_u8(bytes, pos) {
        None => None,
        Some((tag, p1)) => match spec_expect_account_type(tag, ShihonAccountType::KickerCoinOwnerRecord) {
            None => None,
            Some(t) => match spec_decode_u64(bytes, p1) {
                None => None,
                Some((kicker, p2)) => match spec_decode_u64(bytes, p2) {
                    None => None,
                    Some((coordinator, p3)) => match spec_decode_u64(bytes, p3) {
                        None => None,
                        Some((amount, p4)) => match spec_decode_string(bytes, p4) {
                            None => None,
                            Some((name, p5)) => match spec_decode_bool(bytes, p5) {
                                None => None,
                                Some((kick, end)) => Some(
                                    (t, kicker, coordinator, amount, name, kick, end),
                                ),
                            },
                        },
                    },
                },
            },
        },
    }
}

/// Serializes an escrow record into the target buffer.
pub fn serialize_kicker_coin_owner_record(r: &KickerCoinOwnerRecord, out: &mut Vec<u8>)
    ensures
        final(out)@ == old(out)@ + spec_encode_kicker_coin_owner_record(*r),
{
    write_account_type(out, r.account_type);
    write_u64(out, r.kicker_coin_holder);
    write_u64(out, r.coordinator);
    write_u64(out, r.amount_of_kicker_coin);
    write_string(out, r.bc_token_name.as_str());
    write_bool(out, r.is_kick_off);
    assert(out@ =~= old(out)@ + spec_encode_kicker_coin_owner_record(*r));
}

/// Deserializes an escrow record, ignoring whatever trails it.
pub fn get_kicker_coin_owner_record_data(bytes: &[u8], pos: usize) -> (r: Option<
    (KickerCoinOwnerRecord, usize),
>)
    ensures
        match spec_decode_kicker_coin_owner_record(bytes@, pos as int) {
            Some((t, kicker, coordinator, amount, name, kick, end)) => r matches Some((rec, e))
                && rec.account_type == t && rec.kicker_coin_holder == kicker && rec.coordinator
                == coordinator && rec.amount_of_kicker_coin == amount && rec.bc_token_name@
                == name && rec.is_kick_off == kick && e == end,
            None => r is None,
        },
{
    let total: usize = bytes.len();
    proof {
        assert(bytes@.len() == total);
    }
    let (account_type, p1) = match read_expected_account_type(bytes, pos, ShihonAccountType::KickerCoinOwnerRecord) {
        Some(v) => v,
        None => {
            return None;
        },
    };
    let (kicker_coin_holder, p2) = match read_u64(bytes, p1) {
        Some(v) => v,
        None => {
            return None;
        },
    };
    let (coordinator, p3) = match read_u64(bytes, p2) {
        Some(v) => v,
        None => {
            return None;
        },
    };
    let (amount_of_kicker_coin, p4) = match read_u64(bytes, p3) {
        Some(v) => v,
        None => {
            return None;
        },
    };
    let (bc_token_name, p5) = match read_string(bytes, p4) {
        Some(v) => v,
        None => {
            return None;
        },
    };
    let (is_kick_off, end) = match read_bool(bytes, p5) {
        Some(v) => v,
        None => {
            return None;
        },
    };
    Some((
        KickerCoinOwnerRecord {
            account_type,
            kicker_coin_holder,
            coordinator,
            amount_of_kicker_coin,
            bc_token_name,
            is_kick_off,
        },
        end,
    ))
}

/// Law: an escrow record survives its serialization — reading wherever the
/// encoding stands, even with reserved bytes trailing it, yields exactly
/// the record written.
pub proof fn lemma_kicker_coin_owner_record_round_trip(
    bytes: Seq<u8>,
    pos: int,
    r: KickerCoinOwnerRecord,
)
    requires
        r.account_type == ShihonAccountType::KickerCoinOwnerRecord,
        vstd::utf8::encode_utf8(r.bc_token_name@).len() <= u64::MAX,
        0 <= pos,
        pos + spec_encode_kicker_coin_owner_record(r).len() <= bytes.len(),
        bytes.subrange(pos, pos + spec_encode_kicker_coin_owner_record(r).len() as int)
            == spec_encode_kicker_coin_owner_record(r),
    ensures
        spec_decode_kicker_coin_owner_record(bytes, pos) == Some(
            (
                r.account_type,
                r.kicker_coin_holder,
                r.coordinator,
                r.amount_of_kicker_coin,
                r.bc_token_name@,
                r.is_kick_off,
                pos + spec_encode_kicker_coin_owner_record(r).len() as int,
            ),
        ),
{
    vstd::bytes::lemma_auto_spec_u64_to_from_le_bytes();
    let enc = spec_encode_kicker_coin_owner_record(r);
    let name_len = spec_encode_string(r.bc_token_name@).len() as int;
    let p1 = pos + 1;
    let p2 = p1 + 8;
    let p3 = p2 + 8;
    let p4 = p3 + 8;
    let p5 = p4 + name_len;
    let end = p5 + 1;
    assert forall|j: int| pos <= j < pos + enc.len() implies #[trigger] bytes[j] == enc[j
        - pos] by {
        assert(enc[j - pos] == bytes.subrange(pos, pos + enc.len() as int)[j - pos]);
    }
    assert(bytes[pos] == enc[0]);
    lemma_account_type_tag_round_trip(r.account_type);
    assert(bytes.subrange(p1, p2) =~= spec_encode_u64(r.kicker_coin_holder));
    lemma_u64_round_trip(bytes, p1, r.kicker_coin_holder);
    assert(bytes.subrange(p2, p3) =~= spec_encode_u64(r.coordinator));
    lemma_u64_round_trip(bytes, p2, r.coordinator);
    assert(bytes.subrange(p3, p4) =~= spec_encode_u64(r.amount_of_kicker_coin));
    lemma_u64_round_trip(bytes, p3, r.amount_of_kicker_coin);
    assert(bytes.subrange(p4, p5) =~= spec_encode_string(r.bc_token_name@));
    lemma_string_round_trip(bytes, p4, r.bc_token_name@);
    assert(bytes[p5] == enc[enc.len() - 1]);
}

/// The encoding of an optional timestamp: a flag, then the timestamp.
pub open spec fn spec_encode_opt_i64(o: Option<i64>) -> Seq<u8> {
    match o {
        None => seq![0u8],
        Some(x) => seq![1u8] + spec_encode_i64(x),
    }
}

/// What reading an optional timestamp at `pos` yields.
pub open spec fn spec_decode_opt_i64(bytes: Seq<u8>, pos: int) -> Option<(Option<i64>, int)> {
    match spec_decode_bool(bytes, pos) {
        None => None,
        Some((present, p1)) => if !present {
            Some((None, p1))
        } else {
            match spec_decode_i64(bytes, p1) {
                None => None,
                Some((x, end)) => Some((Some(x), end)),
            }
        },
    }
}

/// Appends an optional timestamp.
pub fn write_opt_i64(out: &mut Vec<u8>, o: Option<i64>)
    ensures
        final(out)@ == old(out)@ + spec_encode_opt_i64(o),
{
    match o {
        None => write_u8(out, 0),
        Some(x) => {
            write_u8(out, 1);
            write_i64(out, x);
        },
    }
    assert(out@ =~= old(out)@ + spec_encode_opt_i64(o));
}

/// Reads an optional timestamp.
pub fn read_opt_i64(bytes: &[u8], pos: usize) -> (r: Option<(Option<i64>, usize)>)
    ensures
        match spec_decode_opt_i64(bytes@, pos as int) {
            Some((o, end)) => r == Some((o, end as usize)),
            None => r is None,
        },
{
    let total: usize = bytes.len();
    proof {
        assert(bytes@.len() == total);
    }
    let (present, p1) = match read_bool(bytes, pos) {
        Some(v) => v,
        None => {
            return None;
        },
    };
    if !present {
        return Some((None, p1));
    }
    match read_i64(bytes, p1) {
        Some((x, end)) => Some((Some(x), end)),
        None => None,
    }
}

/// An optional timestamp reads back as itself wherever its encoding stands.
pub proof fn lemma_opt_i64_round_trip(bytes: Seq<u8>, pos: int, o: Option<i64>)
    requires
        0 <= pos,
        pos + spec_encode_opt_i64(o).len() <= bytes.len(),
        bytes.subrange(pos, pos + spec_encode_opt_i64(o).len() as int) == spec_encode_opt_i64(o),
    ensures
        spec_decode_opt_i64(bytes, pos) == Some((o, pos + spec_encode_opt_i64(o).len() as int)),
{
    vstd::bytes::lemma_auto_spec_u64_to_from_le_bytes();
    let enc = spec_encode_opt_i64(o);
    assert forall|j: int| pos <= j < pos + enc.len() implies #[trigger] bytes[j] == enc[j
        - pos] by {
        assert(enc[j - pos] == bytes.subrange(pos, pos + enc.len() as int)[j - pos]);
    }
    assert(bytes[pos] == enc[0]);
    match o {
        None => {},
        Some(x) => {
            assert(bytes.subrange(pos + 1, pos + 10) =~= spec_encode_i64(x));
            lemma_i64_round_trip(bytes, pos + 1, x);
        },
    }
}

/// An optional word reads back as itself wherever its encoding stands.
pub proof fn lemma_opt_u64_round_trip(bytes: Seq<u8>, pos: int, o: Option<u64>)
    requires
        0 <= pos,
        pos + spec_encode_opt_u64(o).len() <= bytes.len(),
        bytes.subrange(pos, pos + spec_encode_opt_u64(o).len() as int) == spec_encode_opt_u64(o),
    ensures
        spec_decode_opt_u64(bytes, pos) == Some((o, pos + spec_encode_opt_u64(o).len() as int)),
{
    vstd::bytes::lemma_auto_spec_u64_to_from_le_bytes();
    let enc = spec_encode_opt_u64(o);
    assert forall|j: int| pos <= j < pos + enc.len() implies #[trigger] bytes[j] == enc[j
        - pos] by {
        assert(enc[j - pos] == bytes.subrange(pos, pos + enc.len() as int)[j - pos]);
    }
    assert(bytes[pos] == enc[0]);
    match o {
        None => {},
        Some(x) => {
            assert(bytes.subrange(pos + 1, pos + 9) =~= spec_encode_u64(x));
            lemma_u64_round_trip(bytes, pos + 1, x);
        },
    }
}

/// The encoding of an admission record: discriminator, ring, sequence
/// number, mint, owner and deposit.
pub open spec fn spec_encode_candidate_limit_record(r: CandidateLimitRecord) -> Seq<u8> {
    spec_encode_u8(spec_account_type_tag(r.account_type)) + spec_encode_u64(r.belonging_tanistry)
        + spec_encode_u64(r.number_of_candidate_count as u64) + spec_encode_u64(
        r.candidate_token_mint,
    ) + spec_encode_u64(r.candidate_token_owner) + spec_encode_u64(
        r.candidate_token_deposit_amount,
    )
}

/// What reading an admission record at `pos` yields.
pub open spec fn spec_decode_candidate_limit_record(bytes: Seq<u8>, pos: int) -> Option<
    (CandidateLimitRecord, int),
> {
    match spec_decode_u8(bytes, pos) {
        None => None,
        Some((tag, p1)) => match spec_expect_account_type(tag, ShihonAccountType::CandidateLimitRecord) {
            None => None,
            Some(t) => match spec_decode_u64(bytes, p1) {
                None => None,
                Some((tanistry, p2)) => match spec_decode_u64(bytes, p2) {
                    None => None,
                    Some((count, p3)) => if count > u32::MAX {
                        None
                    } else {
                        match spec_decode_u64(bytes, p3) {
                            None => None,
                            Some((mint, p4)) => match spec_decode_u64(bytes, p4) {
                                None => None,
                                Some((owner, p5)) => match spec_decode_u64(bytes, p5) {
                                    None => None,
                                    Some((amount, end)) => Some(
                                        (
                                            CandidateLimitRecord {
                                                account_type: t,
                                                belonging_tanistry: tanistry,
                                                number_of_candidate_count: count as u32,
                                                candidate_token_mint: mint,
                                                candidate_token_owner: owner,
                                                candidate_token_deposit_amount: amount,
                                            },
                                            end,
                                        ),
                                    ),
                                },
                            },
                        }
                    },
                },
            },
        },
    }
}

/// Serializes an admission record into the target buffer.
pub fn serialize_candidate_limit_record(r: &CandidateLimitRecord, out: &mut Vec<u8>)
    ensures
        final(out)@ == old(out)@ + spec_encode_candidate_limit_record(*r),
{
    write_account_type(out, r.account_type);
    write_u64(out, r.belonging_tanistry);
    write_u64(out, r.number_of_candidate_count as u64);
    write_u64(out, r.candidate_token_mint);
    write_u64(out, r.candidate_token_owner);
    write_u64(out, r.candidate_token_deposit_amount);
    assert(out@ =~= old(out)@ + spec_encode_candidate_limit_record(*r));
}

/// Deserializes an admission record, ignoring whatever trails it.
pub fn get_candidate_limit_record_data(bytes: &[u8], pos: usize) -> (r: Option<
    (CandidateLimitRecord, usize),
>)
    ensures
        match spec_decode_candidate_limit_record(bytes@, pos as int) {
            Some((rec, end)) => r == Some((rec, end as usize)),
            None => r is None,
        },
{
    let total: usize = bytes.len();
    proof {
        assert(bytes@.len() == total);
    }
    let (account_type, p1) = match read_expected_account_type(bytes, pos, ShihonAccountType::CandidateLimitRecord) {
        Some(v) => v,
        None => {
            return None;
        },
    };
    let (belonging_tanistry, p2) = match read_u64(bytes, p1) {
        Some(v) => v,
        None => {
            return None;
        },
    };
    let (count, p3) = match read_u64(bytes, p2) {
        Some(v) => v,
        None => {
            return None;
        },
    };
    if count > u32::MAX as u64 {
        return None;
    }
    let (candidate_token_mint, p4) = match read_u64(bytes, p3) {
        Some(v) => v,
        None => {
            return None;
        },
    };
    let (candidate_token_owner, p5) = match read_u64(bytes, p4) {
        Some(v) => v,
        None => {
            return None;
        },
    };
    let (candidate_token_deposit_amount, end) = match read_u64(bytes, p5) {
        Some(v) => v,
        None => {
            return None;
        },
    };
    Some((
        CandidateLimitRecord {
            account_type,
            belonging_tanistry,
            number_of_candidate_count: count as u32,
            candidate_token_mint,
            candidate_token_owner,
            candidate_token_deposit_amount,
        },
        end,
    ))
}

/// Law: an admission record survives its serialization.
pub proof fn lemma_candidate_limit_record_round_trip(
    bytes: Seq<u8>,
    pos: int,
    r: CandidateLimitRecord,
)
    requires
        r.account_type == ShihonAccountType::CandidateLimitRecord,
        0 <= pos,
        pos + spec_encode_candidate_limit_record(r).len() <= bytes.len(),
        bytes.subrange(pos, pos + spec_encode_candidate_limit_record(r).len() as int)
            == spec_encode_candidate_limit_record(r),
    ensures
        spec_decode_candidate_limit_record(bytes, pos) == Some(
            (r, pos + spec_encode_candidate_limit_record(r).len() as int),
        ),
{
    vstd::bytes::lemma_auto_spec_u64_to_from_le_bytes();
    let enc = spec_encode_candidate_limit_record(r);
    assert forall|j: int| pos <= j < pos + enc.len() implies #[trigger] bytes[j] == enc[j
        - pos] by {
        assert(enc[j - pos] == bytes.subrange(pos, pos + enc.len() as int)[j - pos]);
    }
    assert(bytes[pos] == enc[0]);
    lemma_account_type_tag_round_trip(r.account_type);
    assert(bytes.subrange(pos + 1, pos + 9) =~= spec_encode_u64(r.belonging_tanistry));
    lemma_u64_round_trip(bytes, pos + 1, r.belonging_tanistry);
    assert(bytes.subrange(pos + 9, pos + 17) =~= spec_encode_u64(
        r.number_of_candidate_count as u64,
    ));
    lemma_u64_round_trip(bytes, pos + 9, r.number_of_candidate_count as u64);
    assert(bytes.subrange(pos + 17, pos + 25) =~= spec_encode_u64(r.candidate_token_mint));
    lemma_u64_round_trip(bytes, pos + 17, r.candidate_token_mint);
    assert(bytes.subrange(pos + 25, pos + 33) =~= spec_encode_u64(r.candidate_token_owner));
    lemma_u64_round_trip(bytes, pos + 25, r.candidate_token_owner);
    assert(bytes.subrange(pos + 33, pos + 41) =~= spec_encode_u64(
        r.candidate_token_deposit_amount,
    ));
    lemma_u64_round_trip(bytes, pos + 33, r.candidate_token_deposit_amount);
}

/// The encoding of a rating record: discriminator, mix reference, amount
/// and rating time.
pub open spec fn spec_encode_rate_other_record(r: RateOtherRecord) -> Seq<u8> {
    spec_encode_u8(spec_account_type_tag(r.account_type)) + spec_encode_u64(r.mix_content_record)
        + spec_encode_u64(r.rate_amount) + spec_encode_opt_i64(r.rating_time)
}

/// What reading a rating record at `pos` yields.
pub open spec fn spec_decode_rate_other_record(bytes: Seq<u8>, pos: int) -> Option<
    (RateOtherRecord, int),
> {
    match spec_decode_u8(bytes, pos) {
        None => None,
        Some((tag, p1)) => match spec_expect_account_type(tag, ShihonAccountType::RateOtherRecord) {
            None => None,
            Some(t) => match spec_decode_u64(bytes, p1) {
                None => None,
                Some((mix_ref, p2)) => match spec_decode_u64(bytes, p2) {
                    None => None,
                    Some((amount, p3)) => match spec_decode_opt_i64(bytes, p3) {
                        None => None,
                        Some((time, end)) => Some(
                            (
                                RateOtherRecord {
                                    account_type: t,
                                    mix_content_record: mix_ref,
                                    rate_amount: amount,
                                    rating_time: time,
                                },
                                end,
                            ),
                        ),
                    },
                },
            },
        },
    }
}

/// Serializes a rating record into the target buffer.
pub fn serialize_rate_other_record(r: &RateOtherRecord, out: &mut Vec<u8>)
    ensures
        final(out)@ == old(out)@ + spec_encode_rate_other_record(*r),
{
    write_account_type(out, r.account_type);
    write_u64(out, r.mix_content_record);
    write_u64(out, r.rate_amount);
    write_opt_i64(out, r.rating_time);
    assert(out@ =~= old(out)@ + spec_encode_rate_other_record(*r));
}

/// Deserializes a rating record, ignoring whatever trails it.
pub fn get_rate_other_record_data(bytes: &[u8], pos: usize) -> (r: Option<
    (RateOtherRecord, usize),
>)
    ensures
        match spec_decode_rate_other_record(bytes@, pos as int) {
            Some((rec, end)) => r == Some((rec, end as usize)),
            None => r is None,
        },
{
    let total: usize = bytes.len();
    proof {
        assert(bytes@.len() == total);
    }
    let (account_type, p1) = match read_expected_account_type(bytes, pos, ShihonAccountType::RateOtherRecord) {
        Some(v) => v,
        None => {
            return None;
        },
    };
    let (mix_content_record, p2) = match read_u64(bytes, p1) {
        Some(v) => v,
        None => {
            return None;
        },
    };
    let (rate_amount, p3) = match read_u64(bytes, p2) {
        Some(v) => v,
        None => {
            return None;
        },
    };
    let (rating_time, end) = match read_opt_i64(bytes, p3) {
        Some(v) => v,
        None => {
            return None;
        },
    };
    Some((
        RateOtherRecord { account_type, mix_content_record, rate_amount, rating_time },
        end,
    ))
}

/// Law: a rating record survives its serialization.
pub proof fn lemma_rate_other_record_round_trip(bytes: Seq<u8>, pos: int, r: RateOtherRecord)
    requires
        r.account_type == ShihonAccountType::RateOtherRecord,
        0 <= pos,
        pos + spec_encode_rate_other_record(r).len() <= bytes.len(),
        bytes.subrange(pos, pos + spec_encode_rate_other_record(r).len() as int)
            == spec_encode_rate_other_record(r),
    ensures
        spec_decode_rate_other_record(bytes, pos) == Some(
            (r, pos + spec_encode_rate_other_record(r).len() as int),
        ),
{
    vstd::bytes::lemma_auto_spec_u64_to_from_le_bytes();
    let enc = spec_encode_rate_other_record(r);
    let tail = spec_encode_opt_i64(r.rating_time).len() as int;
    assert forall|j: int| pos <= j < pos + enc.len() implies #[trigger] bytes[j] == enc[j
        - pos] by {
        assert(enc[j - pos] == bytes.subrange(pos, pos + enc.len() as int)[j - pos]);
    }
    assert(bytes[pos] == enc[0]);
    lemma_account_type_tag_round_trip(r.account_type);
    assert(bytes.subrange(pos + 1, pos + 9) =~= spec_encode_u64(r.mix_content_record));
    lemma_u64_round_trip(bytes, pos + 1, r.mix_content_record);
    assert(bytes.subrange(pos + 9, pos + 17) =~= spec_encode_u64(r.rate_amount));
    lemma_u64_round_trip(bytes, pos + 9, r.rate_amount);
    assert(bytes.subrange(pos + 17, pos + 17 + tail) =~= spec_encode_opt_i64(r.rating_time));
    lemma_opt_i64_round_trip(bytes, pos + 17, r.rating_time);
}

/// The encoding of a resale listing: discriminator, ring, seller, mint,
/// buyer, amount, deadline and the open flag.
pub open spec fn spec_encode_outside_buyer_record(r: OutsideBuyerRecord) -> Seq<u8> {
    spec_encode_u8(spec_account_type_tag(r.account_type)) + spec_encode_u64(r.tanistry)
        + spec_encode_u64(r.seller) + spec_encode_u64(r.outside_buyer_token_mint)
        + spec_encode_opt_u64(r.outside_buyer_token_owner) + spec_encode_u64(
        r.outside_buyer_token_deposit_amount,
    ) + spec_encode_i64(r.deadline) + spec_encode_bool(r.is_open)
}

/// What reading a resale listing at `pos` yields.
pub open spec fn spec_decode_outside_buyer_record(bytes: Seq<u8>, pos: int) -> Option<
    (OutsideBuyerRecord, int),
> {
    match spec_decode_u8(bytes, pos) {
        None => None,
        Some((tag, p1)) => match spec_expect_account_type(tag, ShihonAccountType::OutsideBuyerRecord) {
            None => None,
            Some(t) => match spec_decode_u64(bytes, p1) {
                None => None,
                Some((tanistry, p2)) => match spec_decode_u64(bytes, p2) {
                    None => None,
                    Some((seller, p3)) => match spec_decode_u64(bytes, p3) {
                        None => None,
                        Some((mint, p4)) => match spec_decode_opt_u64(bytes, p4) {
                            None => None,
                            Some((owner, p5)) => match spec_decode_u64(bytes, p5) {
                                None => None,
                                Some((amount, p6)) => match spec_decode_i64(bytes, p6) {
                                    None => None,
                                    Some((deadline, p7)) => match spec_decode_bool(bytes, p7) {
                                        None => None,
                                        Some((open, end)) => Some(
                                            (
                                                OutsideBuyerRecord {
                                                    account_type: t,
                                                    tanistry,
                                                    seller,
                                                    outside_buyer_token_mint: mint,
                                                    outside_buyer_token_owner: owner,
                                                    outside_buyer_token_deposit_amount: amount,
                                                    deadline,
                                                    is_open: open,
                                                },
                                                end,
                                            ),
                                        ),
                                    },
                                },
                            },
                        },
                    },
                },
            },
        },
    }
}

/// Serializes a resale listing into the target buffer.
pub fn serialize_outside_buyer_record(r: &OutsideBuyerRecord, out: &mut Vec<u8>)
    ensures
        final(out)@ == old(out)@ + spec_encode_outside_buyer_record(*r),
{
    write_account_type(out, r.account_type);
    write_u64(out, r.tanistry);
    write_u64(out, r.seller);
    write_u64(out, r.outside_buyer_token_mint);
    write_opt_u64(out, r.outside_buyer_token_owner);
    write_u64(out, r.outside_buyer_token_deposit_amount);
    write_i64(out, r.deadline);
    write_bool(out, r.is_open);
    assert(out@ =~= old(out)@ + spec_encode_outside_buyer_record(*r));
}

/// Deserializes a resale listing, ignoring whatever trails it.
pub fn get_outside_buyer_token_owner_record_data(bytes: &[u8], pos: usize) -> (r: Option<
    (OutsideBuyerRecord, usize),
>)
    ensures
        match spec_decode_outside_buyer_record(bytes@, pos as int) {
            Some((rec, end)) => r == Some((rec, end as usize)),
            None => r is None,
        },
{
    let total: usize = bytes.len();
    proof {
        assert(bytes@.len() == total);
    }
    let (account_type, p1) = match read_expected_account_type(bytes, pos, ShihonAccountType::OutsideBuyerRecord) {
        Some(v) => v,
        None => {
            return None;
        },
    };
    let (tanistry, p2) = match read_u64(bytes, p1) {
        Some(v) => v,
        None => {
            return None;
        },
    };
    let (seller, p3) = match read_u64(bytes, p2) {
        Some(v) => v,
        None => {
            return None;
        },
    };
    let (outside_buyer_token_mint, p4) = match read_u64(bytes, p3) {
        Some(v) => v,
        None => {
            return None;
        },
    };
    let (outside_buyer_token_owner, p5) = match read_opt_u64(bytes, p4) {
        Some(v) => v,
        None => {
            return None;
        },
    };
    let (outside_buyer_token_deposit_amount, p6) = match read_u64(bytes, p5) {
        Some(v) => v,
        None => {
            return None;
        },
    };
    let (deadline, p7) = match read_i64(bytes, p6) {
        Some(v) => v,
        None => {
            return None;
        },
    };
    let (is_open, end) = match read_bool(bytes, p7) {
        Some(v) => v,
        None => {
            return None;
        },
    };
    Some((
        OutsideBuyerRecord {
            account_type,
            tanistry,
            seller,
            outside_buyer_token_mint,
            outside_buyer_token_owner,
            outside_buyer_token_deposit_amount,
            deadline,
            is_open,
        },
        end,
    ))
}

/// Law: a resale listing survives its serialization.
#[verifier::rlimit(60)]
pub proof fn lemma_outside_buyer_record_round_trip(
    bytes: Seq<u8>,
    pos: int,
    r: OutsideBuyerRecord,
)
    requires
        r.account_type == ShihonAccountType::OutsideBuyerRecord,
        0 <= pos,
        pos + spec_encode_outside_buyer_record(r).len() <= bytes.len(),
        bytes.subrange(pos, pos + spec_encode_outside_buyer_record(r).len() as int)
            == spec_encode_outside_buyer_record(r),
    ensures
        spec_decode_outside_buyer_record(bytes, pos) == Some(
            (r, pos + spec_encode_outside_buyer_record(r).len() as int),
        ),
{
    vstd::bytes::lemma_auto_spec_u64_to_from_le_bytes();
    let enc = spec_encode_outside_buyer_record(r);
    let owner_len = spec_encode_opt_u64(r.outside_buyer_token_owner).len() as int;
    let p4 = pos + 25;
    let p5 = p4 + owner_len;
    let p6 = p5 + 8;
    let p7 = p6 + 9;
    assert forall|j: int| pos <= j < pos + enc.len() implies #[trigger] bytes[j] == enc[j
        - pos] by {
        assert(enc[j - pos] == bytes.subrange(pos, pos + enc.len() as int)[j - pos]);
    }
    assert(bytes[pos] == enc[0]);
    lemma_account_type_tag_round_trip(r.account_type);
    assert(bytes.subrange(pos + 1, pos + 9) =~= spec_encode_u64(r.tanistry));
    lemma_u64_round_trip(bytes, pos + 1, r.tanistry);
    assert(bytes.subrange(pos + 9, pos + 17) =~= spec_encode_u64(r.seller));
    lemma_u64_round_trip(bytes, pos + 9, r.seller);
    assert(bytes.subrange(pos + 17, pos + 25) =~= spec_encode_u64(r.outside_buyer_token_mint));
    lemma_u64_round_trip(bytes, pos + 17, r.outside_buyer_token_mint);
    assert(bytes.subrange(p4, p5) =~= spec_encode_opt_u64(r.outside_buyer_token_owner));
    lemma_opt_u64_round_trip(bytes, p4, r.outside_buyer_token_owner);
    assert(bytes.subrange(p5, p6) =~= spec_encode_u64(r.outside_buyer_token_deposit_amount));
    lemma_u64_round_trip(bytes, p5, r.outside_buyer_token_deposit_amount);
    assert(bytes.subrange(p6, p7) =~= spec_encode_i64(r.deadline));
    lemma_i64_round_trip(bytes, p6, r.deadline);
    assert(bytes[p7] == enc[enc.len() - 1]);
}

/// The tag byte of a content type.
pub open spec fn spec_content_type_tag(t: ContentType) -> u8 {
    match t {
        ContentType::Ordinary => 0,
        ContentType::Partially => 1,
        ContentType::Other => 2,
    }
}

/// The content type a tag byte stands for.
pub open spec fn spec_content_type_of_tag(b: u8) -> Option<ContentType> {
    if b == 0 {
        Some(ContentType::Ordinary)
    } else if b == 1 {
        Some(ContentType::Partially)
    } else if b == 2 {
        Some(ContentType::Other)
    } else {
        None
    }
}

/// Writes a content type tag.
pub fn write_content_type(out: &mut Vec<u8>, t: ContentType)
    ensures
        final(out)@ == old(out)@ + spec_encode_u8(spec_content_type_tag(t)),
{
    let tag: u8 = match t {
        ContentType::Ordinary => 0,
        ContentType::Partially => 1,
        ContentType::Other => 2,
    };
    write_u8(out, tag);
}

/// Reads a content type tag.
pub fn read_content_type(bytes: &[u8], pos: usize) -> (r: Option<(ContentType, usize)>)
    ensures
        match spec_decode_u8(bytes@, pos as int) {
            Some((b, end)) => match spec_content_type_of_tag(b) {
                Some(t) => r == Some((t, end as usize)),
                None => r is None,
            },
            None => r is None,
        },
{
    let (b, end) = match read_u8(bytes, pos) {
        Some(v) => v,
        None => {
            return None;
        },
    };
    if b == 0 {
        Some((ContentType::Ordinary, end))
    } else if b == 1 {
        Some((ContentType::Partially, end))
    } else if b == 2 {
        Some((ContentType::Other, end))
    } else {
        None
    }
}

/// The tag byte of a lifecycle state: its rank on the forward path.
pub open spec fn spec_bc_token_state_tag(t: BcTokenState) -> u8 {
    match t {
        BcTokenState::DraftBlankCheck => 0,
        BcTokenState::ExecutingWithErrors => 1,
        BcTokenState::HoldingOnPrivate => 2,
        BcTokenState::PublicOnTheGround => 3,
        BcTokenState::EnableToCandidate => 4,
        BcTokenState::TanistrySetIn => 5,
        BcTokenState::EnableToVoteToCC => 6,
        BcTokenState::EnableToRefund => 7,
        BcTokenState::AlreadyRefunded => 8,
        BcTokenState::Cancelled => 9,
    }
}

/// The lifecycle state a tag byte stands for.
pub open spec fn spec_bc_token_state_of_tag(b: u8) -> Option<BcTokenState> {
    if b == 0 {
        Some(BcTokenState::DraftBlankCheck)
    } else if b == 1 {
        Some(BcTokenState::ExecutingWithErrors)
    } else if b == 2 {
        Some(BcTokenState::HoldingOnPrivate)
    } else if b == 3 {
        Some(BcTokenState::PublicOnTheGround)
    } else if b == 4 {
        Some(BcTokenState::EnableToCandidate)
    } else if b == 5 {
        Some(BcTokenState::TanistrySetIn)
    } else if b == 6 {
        Some(BcTokenState::EnableToVoteToCC)
    } else if b == 7 {
        Some(BcTokenState::EnableToRefund)
    } else if b == 8 {
        Some(BcTokenState::AlreadyRefunded)
    } else if b == 9 {
        Some(BcTokenState::Cancelled)
    } else {
        None
    }
}

/// Writes a lifecycle state tag.
pub fn write_bc_token_state(out: &mut Vec<u8>, t: BcTokenState)
    ensures
        final(out)@ == old(out)@ + spec_encode_u8(spec_bc_token_state_tag(t)),
{
    let tag: u8 = match t {
        BcTokenState::DraftBlankCheck => 0,
        BcTokenState::ExecutingWithErrors => 1,
        BcTokenState::HoldingOnPrivate => 2,
        BcTokenState::PublicOnTheGround => 3,
        BcTokenState::EnableToCandidate => 4,
        BcTokenState::TanistrySetIn => 5,
        BcTokenState::EnableToVoteToCC => 6,
        BcTokenState::EnableToRefund => 7,
        BcTokenState::AlreadyRefunded => 8,
        BcTokenState::Cancelled => 9,
    };
    write_u8(out, tag);
}

/// Reads a lifecycle state tag.
pub fn read_bc_token_state(bytes: &[u8], pos: usize) -> (r: Option<(BcTokenState, usize)>)
    ensures
        match spec_decode_u8(bytes@, pos as int) {
            Some((b, end)) => match spec_bc_token_state_of_tag(b) {
                Some(t) => r == Some((t, end as usize)),
                None => r is None,
            },
            None => r is None,
        },
{
    let (b, end) = match read_u8(bytes, pos) {
        Some(v) => v,
        None => {
            return None;
        },
    };
    let t: BcTokenState = if b == 0 {
        BcTokenState::DraftBlankCheck
    } else if b == 1 {
        BcTokenState::ExecutingWithErrors
    } else if b == 2 {
        BcTokenState::HoldingOnPrivate
    } else if b == 3 {
        BcTokenState::PublicOnTheGround
    } else if b == 4 {
        BcTokenState::EnableToCandidate
    } else if b == 5 {
        BcTokenState::TanistrySetIn
    } else if b == 6 {
        BcTokenState::EnableToVoteToCC
    } else if b == 7 {
        BcTokenState::EnableToRefund
    } else if b == 8 {
        BcTokenState::AlreadyRefunded
    } else if b == 9 {
        BcTokenState::Cancelled
    } else {
        return None;
    };
    Some((t, end))
}

/// The tag byte of a mix result.
pub open spec fn spec_mix_result_tag(t: OptionMixResult) -> u8 {
    match t {
        OptionMixResult::Unresolved => 0,
        OptionMixResult::Succeeded => 1,
        OptionMixResult::Defeated => 2,
    }
}

/// The mix result a tag byte stands for.
pub open spec fn spec_mix_result_of_tag(b: u8) -> Option<OptionMixResult> {
    if b == 0 {
        Some(OptionMixResult::Unresolved)
    } else if b == 1 {
        Some(OptionMixResult::Succeeded)
    } else if b == 2 {
        Some(OptionMixResult::Defeated)
    } else {
        None
    }
}

/// Writes a mix result tag.
pub fn write_mix_result(out: &mut Vec<u8>, t: OptionMixResult)
    ensures
        final(out)@ == old(out)@ + spec_encode_u8(spec_mix_result_tag(t)),
{
    let tag: u8 = match t {
        OptionMixResult::Unresolved => 0,
        OptionMixResult::Succeeded => 1,
        OptionMixResult::Defeated => 2,
    };
    write_u8(out, tag);
}

/// Reads a mix result tag.
pub fn read_mix_result(bytes: &[u8], pos: usize) -> (r: Option<(OptionMixResult, usize)>)
    ensures
        match spec_decode_u8(bytes@, pos as int) {
            Some((b, end)) => match spec_mix_result_of_tag(b) {
                Some(t) => r == Some((t, end as usize)),
                None => r is None,
            },
            None => r is None,
        },
{
    let (b, end) = match read_u8(bytes, pos) {
        Some(v) => v,
        None => {
            return None;
        },
    };
    if b == 0 {
        Some((OptionMixResult::Unresolved, end))
    } else if b == 1 {
        Some((OptionMixResult::Succeeded, end))
    } else if b == 2 {
        Some((OptionMixResult::Defeated, end))
    } else {
        None
    }
}

/// The encoding of a mix record: discriminator, link, rater, buddy,
/// result, round and the pairing-time fingerprint.
pub open spec fn spec_encode_mix_content_record(r: MixContentRecord) -> Seq<u8> {
    spec_encode_u8(spec_account_type_tag(r.account_type)) + spec_encode_string(r.encrypted_link@)
        + spec_encode_u64(r.rater_candidate) + spec_encode_u64(r.buddy_candidate)
        + spec_encode_u8(spec_mix_result_tag(r.option_mix_result)) + spec_encode_u64(r.round)
        + spec_encode_u64(r.finger_print_of_mixed_content)
}

/// What reading a mix record at `pos` yields, as its fields.
pub open spec fn spec_decode_mix_content_record(bytes: Seq<u8>, pos: int) -> Option<
    (ShihonAccountType, Seq<char>, u64, u64, OptionMixResult, u64, u64, int),
> {
    match spec_decode_u8(bytes, pos) {
        None => None,
        Some((tag, p1)) => match spec_expect_account_type(tag, ShihonAccountType::MixContentRecord) {
            None => None,
            Some(t) => match spec_decode_string(bytes, p1) {
                None => None,
                Some((link, p2)) => match spec_decode_u64(bytes, p2) {
                    None => None,
                    Some((rater, p3)) => match spec_decode_u64(bytes, p3) {
                        None => None,
                        Some((buddy, p4)) => match spec_decode_u8(bytes, p4) {
                            None => None,
                            Some((rtag, p5)) => match spec_mix_result_of_tag(rtag) {
                                None => None,
                                Some(result) => match spec_decode_u64(bytes, p5) {
                                    None => None,
                                    Some((round, p6)) => match spec_decode_u64(bytes, p6) {
                                        None => None,
                                        Some((fp, end)) => Some(
                                            (t, link, rater, buddy, result, round, fp, end),
                                        ),
                                    },
                                },
                            },
                        },
                    },
                },
            },
        },
    }
}

/// Serializes a mix record into the target buffer.
pub fn serialize_mix_content_record(r: &MixContentRecord, out: &mut Vec<u8>)
    ensures
        final(out)@ == old(out)@ + spec_encode_mix_content_record(*r),
{
    write_account_type(out, r.account_type);
    write_string(out, r.encrypted_link.as_str());
    write_u64(out, r.rater_candidate);
    write_u64(out, r.buddy_candidate);
    write_mix_result(out, r.option_mix_result);
    write_u64(out, r.round);
    write_u64(out, r.finger_print_of_mixed_content);
    assert(out@ =~= old(out)@ + spec_encode_mix_content_record(*r));
}

/// Deserializes a mix record, ignoring whatever trails it.
pub fn get_mix_content_record_data(bytes: &[u8], pos: usize) -> (r: Option<
    (MixContentRecord, usize),
>)
    ensures
        match spec_decode_mix_content_record(bytes@, pos as int) {
            Some((t, link, rater, buddy, result, round, fp, end)) => r matches Some((rec, e))
                && rec.account_type == t && rec.encrypted_link@ == link && rec.rater_candidate
                == rater && rec.buddy_candidate == buddy && rec.option_mix_result == result
                && rec.round == round && rec.finger_print_of_mixed_content == fp && e == end,
            None => r is None,
        },
{
    let total: usize = bytes.len();
    proof {
        assert(bytes@.len() == total);
    }
    let (account_type, p1) = match read_expected_account_type(bytes, pos, ShihonAccountType::MixContentRecord) {
        Some(v) => v,
        None => {
            return None;
        },
    };
    let (encrypted_link, p2) = match read_string(bytes, p1) {
        Some(v) => v,
        None => {
            return None;
        },
    };
    let (rater_candidate, p3) = match read_u64(bytes, p2) {
        Some(v) => v,
        None => {
            return None;
        },
    };
    let (buddy_candidate, p4) = match read_u64(bytes, p3) {
        Some(v) => v,
        None => {
            return None;
        },
    };
    let (option_mix_result, p5) = match read_mix_result(bytes, p4) {
        Some(v) => v,
        None => {
            return None;
        },
    };
    let (round, p6) = match read_u64(bytes, p5) {
        Some(v) => v,
        None => {
            return None;
        },
    };
    let (finger_print_of_mixed_content, end) = match read_u64(bytes, p6) {
        Some(v) => v,
        None => {
            return None;
        },
    };
    Some((
        MixContentRecord {
            account_type,
            encrypted_link,
            rater_candidate,
            buddy_candidate,
            option_mix_result,
            round,
            finger_print_of_mixed_content,
        },
        end,
    ))
}

/// Law: a mix record survives its serialization.
#[verifier::rlimit(60)]
pub proof fn lemma_mix_content_record_round_trip(bytes: Seq<u8>, pos: int, r: MixContentRecord)
    requires
        r.account_type == ShihonAccountType::MixContentRecord,
        vstd::utf8::encode_utf8(r.encrypted_link@).len() <= u64::MAX,
        0 <= pos,
        pos + spec_encode_mix_content_record(r).len() <= bytes.len(),
        bytes.subrange(pos, pos + spec_encode_mix_content_record(r).len() as int)
            == spec_encode_mix_content_record(r),
    ensures
        spec_decode_mix_content_record(bytes, pos) == Some(
            (
                r.account_type,
                r.encrypted_link@,
                r.rater_candidate,
                r.buddy_candidate,
                r.option_mix_result,
                r.round,
                r.finger_print_of_mixed_content,
                pos + spec_encode_mix_content_record(r).len() as int,
            ),
        ),
{
    vstd::bytes::lemma_auto_spec_u64_to_from_le_bytes();
    let enc = spec_encode_mix_content_record(r);
    let link_len = spec_encode_string(r.encrypted_link@).len() as int;
    let p1 = pos + 1;
    let p2 = p1 + link_len;
    let p3 = p2 + 8;
    let p4 = p3 + 8;
    let p5 = p4 + 1;
    let p6 = p5 + 8;
    let end = p6 + 8;
    assert forall|j: int| pos <= j < pos + enc.len() implies #[trigger] bytes[j] == enc[j
        - pos] by {
        assert(enc[j - pos] == bytes.subrange(pos, pos + enc.len() as int)[j - pos]);
    }
    assert(bytes[pos] == enc[0]);
    lemma_account_type_tag_round_trip(r.account_type);
    assert(bytes.subrange(p1, p2) =~= spec_encode_string(r.encrypted_link@));
    lemma_string_round_trip(bytes, p1, r.encrypted_link@);
    assert(bytes.subrange(p2, p3) =~= spec_encode_u64(r.rater_candidate));
    lemma_u64_round_trip(bytes, p2, r.rater_candidate);
    assert(bytes.subrange(p3, p4) =~= spec_encode_u64(r.buddy_candidate));
    lemma_u64_round_trip(bytes, p3, r.buddy_candidate);
    assert(bytes[p4] == spec_mix_result_tag(r.option_mix_result));
    assert(bytes.subrange(p5, p6) =~= spec_encode_u64(r.round));
    lemma_u64_round_trip(bytes, p5, r.round);
    assert(bytes.subrange(p6, end) =~= spec_encode_u64(r.finger_print_of_mixed_content));
    lemma_u64_round_trip(bytes, p6, r.finger_print_of_mixed_content);
}

/// The encoding of token metadata: discriminator, content type,
/// fingerprint, slot, version and visibility.
pub open spec fn spec_encode_bc_token_metadata(m: BcTokenMetadata) -> Seq<u8> {
    spec_encode_u8(spec_account_type_tag(m.account_type)) + spec_encode_u8(
        spec_content_type_tag(m.content_type),
    ) + spec_encode_u64(m.content_fingerprint) + spec_encode_u64(m.updated_at)
        + spec_encode_string(m.version@) + spec_encode_bool(m.is_public)
}

/// What reading token metadata at `pos` yields, as its fields.
pub open spec fn spec_decode_bc_token_metadata(bytes: Seq<u8>, pos: int) -> Option<
    ((ShihonAccountType, ContentType, u64, u64, Seq<char>, bool), int),
> {
    match spec_decode_u8(bytes, pos) {
        None => None,
        Some((tag, p1)) => match spec_expect_account_type(tag, ShihonAccountType::BcTokenMetadata) {
            None => None,
            Some(t) => match spec_decode_u8(bytes, p1) {
                None => None,
                Some((ctag, p2)) => match spec_content_type_of_tag(ctag) {
                    None => None,
                    Some(content_type) => match spec_decode_u64(bytes, p2) {
                        None => None,
                        Some((fp, p3)) => match spec_decode_u64(bytes, p3) {
                            None => None,
                            Some((updated, p4)) => match spec_decode_string(bytes, p4) {
                                None => None,
                                Some((version, p5)) => match spec_decode_bool(bytes, p5) {
                                    None => None,
                                    Some((is_public, end)) => Some(
                                        ((t, content_type, fp, updated, version, is_public), end),
                                    ),
                                },
                            },
                        },
                    },
                },
            },
        },
    }
}

/// Serializes token metadata into the target buffer.
pub fn serialize_bc_token_metadata(m: &BcTokenMetadata, out: &mut Vec<u8>)
    ensures
        final(out)@ == old(out)@ + spec_encode_bc_token_metadata(*m),
{
    write_account_type(out, m.account_type);
    write_content_type(out, m.content_type);
    write_u64(out, m.content_fingerprint);
    write_u64(out, m.updated_at);
    write_string(out, m.version.as_str());
    write_bool(out, m.is_public);
    assert(out@ =~= old(out)@ + spec_encode_bc_token_metadata(*m));
}

/// Deserializes token metadata, ignoring whatever trails it.
pub fn get_bc_token_metadata_data(bytes: &[u8], pos: usize) -> (r: Option<
    (BcTokenMetadata, usize),
>)
    ensures
        match spec_decode_bc_token_metadata(bytes@, pos as int) {
            Some(((t, content_type, fp, updated, version, is_public), end)) => r matches Some(
                (m, e),
            ) && m.account_type == t && m.content_type == content_type && m.content_fingerprint
                == fp && m.updated_at == updated && m.version@ == version && m.is_public
                == is_public && e == end,
            None => r is None,
        },
{
    let total: usize = bytes.len();
    proof {
        assert(bytes@.len() == total);
    }
    let (account_type, p1) = match read_expected_account_type(bytes, pos, ShihonAccountType::BcTokenMetadata) {
        Some(v) => v,
        None => {
            return None;
        },
    };
    let (content_type, p2) = match read_content_type(bytes, p1) {
        Some(v) => v,
        None => {
            return None;
        },
    };
    let (content_fingerprint, p3) = match read_u64(bytes, p2) {
        Some(v) => v,
        None => {
            return None;
        },
    };
    let (updated_at, p4) = match read_u64(bytes, p3) {
        Some(v) => v,
        None => {
            return None;
        },
    };
    let (version, p5) = match read_string(bytes, p4) {
        Some(v) => v,
        None => {
            return None;
        },
    };
    let (is_public, end) = match read_bool(bytes, p5) {
        Some(v) => v,
        None => {
            return None;
        },
    };
    Some((
        BcTokenMetadata {
            account_type,
            content_type,
            content_fingerprint,
            updated_at,
            version,
            is_public,
        },
        end,
    ))
}

/// Law: token metadata survives its serialization.
#[verifier::rlimit(60)]
pub proof fn lemma_bc_token_metadata_round_trip(bytes: Seq<u8>, pos: int, m: BcTokenMetadata)
    requires
        m.account_type == ShihonAccountType::BcTokenMetadata,
        vstd::utf8::encode_utf8(m.version@).len() <= u64::MAX,
        0 <= pos,
        pos + spec_encode_bc_token_metadata(m).len() <= bytes.len(),
        bytes.subrange(pos, pos + spec_encode_bc_token_metadata(m).len() as int)
            == spec_encode_bc_token_metadata(m),
    ensures
        spec_decode_bc_token_metadata(bytes, pos) == Some(
            (
                (
                    m.account_type,
                    m.content_type,
                    m.content_fingerprint,
                    m.updated_at,
                    m.version@,
                    m.is_public,
                ),
                pos + spec_encode_bc_token_metadata(m).len() as int,
            ),
        ),
{
    vstd::bytes::lemma_auto_spec_u64_to_from_le_bytes();
    let enc = spec_encode_bc_token_metadata(m);
    let version_len = spec_encode_string(m.version@).len() as int;
    let p2 = pos + 2;
    let p3 = p2 + 8;
    let p4 = p3 + 8;
    let p5 = p4 + version_len;
    assert forall|j: int| pos <= j < pos + enc.len() implies #[trigger] bytes[j] == enc[j
        - pos] by {
        assert(enc[j - pos] == bytes.subrange(pos, pos + enc.len() as int)[j - pos]);
    }
    assert(bytes[pos] == enc[0]);
    lemma_account_type_tag_round_trip(m.account_type);
    assert(bytes[pos + 1] == spec_content_type_tag(m.content_type));
    assert(bytes.subrange(p2, p3) =~= spec_encode_u64(m.content_fingerprint));
    lemma_u64_round_trip(bytes, p2, m.content_fingerprint);
    assert(bytes.subrange(p3, p4) =~= spec_encode_u64(m.updated_at));
    lemma_u64_round_trip(bytes, p3, m.updated_at);
    assert(bytes.subrange(p4, p5) =~= spec_encode_string(m.version@));
    lemma_string_round_trip(bytes, p4, m.version@);
    assert(bytes[p5] == enc[enc.len() - 1]);
}

/// The encoding of a content token: discriminator, owner, deposit, issue
/// time, authority, name, mint, state and metadata.
pub open spec fn spec_encode_bc_token(t: BcToken) -> Seq<u8> {
    spec_encode_u8(spec_account_type_tag(t.account_type)) + spec_encode_u64(
        t.bc_token_owner_pubkey,
    ) + spec_encode_u64(t.amount_of_coin) + spec_encode_i64(t.issue_at) + spec_encode_opt_u64(
        t.authority,
    ) + spec_encode_string(t.name@) + spec_encode_u64(t.bc_token_mint) + spec_encode_u8(
        spec_bc_token_state_tag(t.bc_token_state),
    ) + spec_encode_bc_token_metadata(t.config)
}

/// What reading a content token at `pos` yields, as its fields and its
/// metadata's fields.
pub open spec fn spec_decode_bc_token(bytes: Seq<u8>, pos: int) -> Option<
    (
        (ShihonAccountType, u64, u64, i64, Option<u64>, Seq<char>, u64, BcTokenState),
        (ShihonAccountType, ContentType, u64, u64, Seq<char>, bool),
        int,
    ),
> {
    match spec_decode_u8(bytes, pos) {
        None => None,
        Some((tag, p1)) => match spec_expect_account_type(tag, ShihonAccountType::BcToken) {
            None => None,
            Some(t) => match spec_decode_u64(bytes, p1) {
                None => None,
                Some((owner, p2)) => match spec_decode_u64(bytes, p2) {
                    None => None,
                    Some((amount, p3)) => match spec_decode_i64(bytes, p3) {
                        None => None,
                        Some((issued, p4)) => match spec_decode_opt_u64(bytes, p4) {
                            None => None,
                            Some((authority, p5)) => match spec_decode_string(bytes, p5) {
                                None => None,
                                Some((name, p6)) => match spec_decode_u64(bytes, p6) {
                                    None => None,
                                    Some((mint, p7)) => match spec_decode_u8(bytes, p7) {
                                        None => None,
                                        Some((stag, p8)) => match spec_bc_token_state_of_tag(
                                            stag,
                                        ) {
                                            None => None,
                                            Some(state) => match spec_decode_bc_token_metadata(
                                                bytes,
                                                p8,
                                            ) {
                                                None => None,
                                                Some((meta, end)) => Some(
                                                    (
                                                        (
                                                            t,
                                                            owner,
                                                            amount,
                                                            issued,
                                                            authority,
                                                            name,
                                                            mint,
                                                            state,
                                                        ),
                                                        meta,
                                                        end,
                                                    ),
                                                ),
                                            },
                                        },
                                    },
                                },
                            },
                        },
                    },
                },
            },
        },
    }
}

/// Serializes a content token into the target buffer.
pub fn serialize_bc_token(t: &BcToken, out: &mut Vec<u8>)
    ensures
        final(out)@ == old(out)@ + spec_encode_bc_token(*t),
{
    write_account_type(out, t.account_type);
    write_u64(out, t.bc_token_owner_pubkey);
    write_u64(out, t.amount_of_coin);
    write_i64(out, t.issue_at);
    write_opt_u64(out, t.authority);
    write_string(out, t.name.as_str());
    write_u64(out, t.bc_token_mint);
    write_bc_token_state(out, t.bc_token_state);
    serialize_bc_token_metadata(&t.config, out);
    assert(out@ =~= old(out)@ + spec_encode_bc_token(*t));
}

/// Deserializes a content token, ignoring whatever trails it.
pub fn get_bc_token_data(bytes: &[u8], pos: usize) -> (r: Option<(BcToken, usize)>)
    ensures
        match spec_decode_bc_token(bytes@, pos as int) {
            Some(
                ((t, owner, amount, issued, authority, name, mint, state), meta, end),
            ) => r matches Some((tok, e)) && tok.account_type == t && tok.bc_token_owner_pubkey
                == owner && tok.amount_of_coin == amount && tok.issue_at == issued
                && tok.authority == authority && tok.name@ == name && tok.bc_token_mint == mint
                && tok.bc_token_state == state && tok.config.account_type == meta.0
                && tok.config.content_type == meta.1 && tok.config.content_fingerprint == meta.2
                && tok.config.updated_at == meta.3 && tok.config.version@ == meta.4
                && tok.config.is_public == meta.5 && e == end,
            None => r is None,
        },
{
    let total: usize = bytes.len();
    proof {
        assert(bytes@.len() == total);
    }
    let (account_type, p1) = match read_expected_account_type(bytes, pos, ShihonAccountType::BcToken) {
        Some(v) => v,
        None => {
            return None;
        },
    };
    let (bc_token_owner_pubkey, p2) = match read_u64(bytes, p1) {
        Some(v) => v,
        None => {
            return None;
        },
    };
    let (amount_of_coin, p3) = match read_u64(bytes, p2) {
        Some(v) => v,
        None => {
            return None;
        },
    };
    let (issue_at, p4) = match read_i64(bytes, p3) {
        Some(v) => v,
        None => {
            return None;
        },
    };
    let (authority, p5) = match read_opt_u64(bytes, p4) {
        Some(v) => v,
        None => {
            return None;
        },
    };
    let (name, p6) = match read_string(bytes, p5) {
        Some(v) => v,
        None => {
            return None;
        },
    };
    let (bc_token_mint, p7) = match read_u64(bytes, p6) {
        Some(v) => v,
        None => {
            return None;
        },
    };
    let (bc_token_state, p8) = match read_bc_token_state(bytes, p7) {
        Some(v) => v,
        None => {
            return None;
        },
    };
    let (config, end) = match get_bc_token_metadata_data(bytes, p8) {
        Some(v) => v,
        None => {
            return None;
        },
    };
    Some((
        BcToken {
            account_type,
            bc_token_owner_pubkey,
            amount_of_coin,
            issue_at,
            authority,
            name,
            bc_token_mint,
            bc_token_state,
            config,
        },
        end,
    ))
}

/// Law: a content token survives its serialization.
#[verifier::rlimit(100)]
pub proof fn lemma_bc_token_round_trip(bytes: Seq<u8>, pos: int, t: BcToken)
    requires
        t.account_type == ShihonAccountType::BcToken,
        t.config.account_type == ShihonAccountType::BcTokenMetadata,
        vstd::utf8::encode_utf8(t.name@).len() <= u64::MAX,
        vstd::utf8::encode_utf8(t.config.version@).len() <= u64::MAX,
        0 <= pos,
        pos + spec_encode_bc_token(t).len() <= bytes.len(),
        bytes.subrange(pos, pos + spec_encode_bc_token(t).len() as int) == spec_encode_bc_token(
            t,
        ),
    ensures
        spec_decode_bc_token(bytes, pos) == Some(
            (
                (
                    t.account_type,
                    t.bc_token_owner_pubkey,
                    t.amount_of_coin,
                    t.issue_at,
                    t.authority,
                    t.name@,
                    t.bc_token_mint,
                    t.bc_token_state,
                ),
                (
                    t.config.account_type,
                    t.config.content_type,
                    t.config.content_fingerprint,
                    t.config.updated_at,
                    t.config.version@,
                    t.config.is_public,
                ),
                pos + spec_encode_bc_token(t).len() as int,
            ),
        ),
{
    vstd::bytes::lemma_auto_spec_u64_to_from_le_bytes();
    let enc = spec_encode_bc_token(t);
    let authority_len = spec_encode_opt_u64(t.authority).len() as int;
    let name_len = spec_encode_string(t.name@).len() as int;
    let meta_len = spec_encode_bc_token_metadata(t.config).len() as int;
    let p1 = pos + 1;
    let p2 = p1 + 8;
    let p3 = p2 + 8;
    let p4 = p3 + 9;
    let p5 = p4 + authority_len;
    let p6 = p5 + name_len;
    let p7 = p6 + 8;
    let p8 = p7 + 1;
    let end = p8 + meta_len;
    assert forall|j: int| pos <= j < pos + enc.len() implies #[trigger] bytes[j] == enc[j
        - pos] by {
        assert(enc[j - pos] == bytes.subrange(pos, pos + enc.len() as int)[j - pos]);
    }
    assert(bytes[pos] == enc[0]);
    lemma_account_type_tag_round_trip(t.account_type);
    assert(bytes.subrange(p1, p2) =~= spec_encode_u64(t.bc_token_owner_pubkey));
    lemma_u64_round_trip(bytes, p1, t.bc_token_owner_pubkey);
    assert(bytes.subrange(p2, p3) =~= spec_encode_u64(t.amount_of_coin));
    lemma_u64_round_trip(bytes, p2, t.amount_of_coin);
    assert(bytes.subrange(p3, p4) =~= spec_encode_i64(t.issue_at));
    lemma_i64_round_trip(bytes, p3, t.issue_at);
    assert(bytes.subrange(p4, p5) =~= spec_encode_opt_u64(t.authority));
    lemma_opt_u64_round_trip(bytes, p4, t.authority);
    assert(bytes.subrange(p5, p6) =~= spec_encode_string(t.name@));
    lemma_string_round_trip(bytes, p5, t.name@);
    assert(bytes.subrange(p6, p7) =~= spec_encode_u64(t.bc_token_mint));
    lemma_u64_round_trip(bytes, p6, t.bc_token_mint);
    assert(bytes[p7] == spec_bc_token_state_tag(t.bc_token_state));
    assert(bytes.subrange(p8, end) =~= spec_encode_bc_token_metadata(t.config));
    lemma_bc_token_metadata_round_trip(bytes, p8, t.config);
}

/// The encoding of one pull choice: challenger ring and optional target.
pub open spec fn spec_encode_cc_vote_choice(c: CCVoteChoice) -> Seq<u8> {
    spec_encode_u64(c.challenger_ring) + spec_encode_opt_u64(c.target_ring)
}

/// What reading one pull choice at `pos` yields.
pub open spec fn spec_decode_cc_vote_choice(bytes: Seq<u8>, pos: int) -> Option<
    (CCVoteChoice, int),
> {
    match spec_decode_u64(bytes, pos) {
        None => None,
        Some((ring, p1)) => match spec_decode_opt_u64(bytes, p1) {
            None => None,
            Some((target, end)) => Some(
                (CCVoteChoice { challenger_ring: ring, target_ring: target }, end),
            ),
        },
    }
}

/// One pull choice survives its serialization.
pub proof fn lemma_cc_vote_choice_round_trip(bytes: Seq<u8>, pos: int, c: CCVoteChoice)
    requires
        0 <= pos,
        pos + spec_encode_cc_vote_choice(c).len() <= bytes.len(),
        bytes.subrange(pos, pos + spec_encode_cc_vote_choice(c).len() as int)
            == spec_encode_cc_vote_choice(c),
    ensures
        spec_decode_cc_vote_choice(bytes, pos) == Some(
            (c, pos + spec_encode_cc_vote_choice(c).len() as int),
        ),
{
    vstd::bytes::lemma_auto_spec_u64_to_from_le_bytes();
    let enc = spec_encode_cc_vote_choice(c);
    let target_len = spec_encode_opt_u64(c.target_ring).len() as int;
    assert forall|j: int| pos <= j < pos + enc.len() implies #[trigger] bytes[j] == enc[j
        - pos] by {
        assert(enc[j - pos] == bytes.subrange(pos, pos + enc.len() as int)[j - pos]);
    }
    assert(bytes.subrange(pos, pos + 8) =~= spec_encode_u64(c.challenger_ring));
    lemma_u64_round_trip(bytes, pos, c.challenger_ring);
    assert(bytes.subrange(pos + 8, pos + 8 + target_len) =~= spec_encode_opt_u64(
        c.target_ring,
    ));
    lemma_opt_u64_round_trip(bytes, pos + 8, c.target_ring);
}

/// A successfully read pull choice ends inside the buffer.
pub proof fn lemma_decode_cc_vote_choice_bounds(bytes: Seq<u8>, pos: int)
    ensures
        spec_decode_cc_vote_choice(bytes, pos) matches Some((c, end)) ==> pos <= end
            <= bytes.len(),
{
}

/// Writes one pull choice.
pub fn write_cc_vote_choice(out: &mut Vec<u8>, c: &CCVoteChoice)
    ensures
        final(out)@ == old(out)@ + spec_encode_cc_vote_choice(*c),
{
    write_u64(out, c.challenger_ring);
    write_opt_u64(out, c.target_ring);
    assert(out@ =~= old(out)@ + spec_encode_cc_vote_choice(*c));
}

/// Reads one pull choice.
pub fn read_cc_vote_choice(bytes: &[u8], pos: usize) -> (r: Option<(CCVoteChoice, usize)>)
    ensures
        match spec_decode_cc_vote_choice(bytes@, pos as int) {
            Some((c, end)) => r == Some((c, end as usize)),
            None => r is None,
        },
{
    let total: usize = bytes.len();
    proof {
        assert(bytes@.len() == total);
    }
    let (challenger_ring, p1) = match read_u64(bytes, pos) {
        Some(v) => v,
        None => {
            return None;
        },
    };
    let (target_ring, end) = match read_opt_u64(bytes, p1) {
        Some(v) => v,
        None => {
            return None;
        },
    };
    Some((CCVoteChoice { challenger_ring, target_ring }, end))
}

/// The encoding of a choice list: the choices back to back, front first.
pub open spec fn spec_encode_cc_vote_choices(cs: Seq<CCVoteChoice>) -> Seq<u8>
    decreases cs.len(),
{
    if cs.len() == 0 {
        Seq::empty()
    } else {
        spec_encode_cc_vote_choice(cs.first()) + spec_encode_cc_vote_choices(cs.drop_first())
    }
}

/// Appending one choice appends exactly its encoding.
pub proof fn lemma_encode_cc_vote_choices_push(cs: Seq<CCVoteChoice>, c: CCVoteChoice)
    ensures
        spec_encode_cc_vote_choices(cs.push(c)) == spec_encode_cc_vote_choices(cs)
            + spec_encode_cc_vote_choice(c),
    decreases cs.len(),
{
    if cs.len() == 0 {
        assert(cs.push(c).drop_first() =~= Seq::empty());
        assert(cs.push(c).first() == c);
        assert(cs =~= Seq::<CCVoteChoice>::empty());
        assert(spec_encode_cc_vote_choices(cs.push(c)) == spec_encode_cc_vote_choice(c)
            + spec_encode_cc_vote_choices(Seq::empty()));
        assert(spec_encode_cc_vote_choice(c) + spec_encode_cc_vote_choices(Seq::empty())
            =~= spec_encode_cc_vote_choice(c));
        assert(spec_encode_cc_vote_choices(cs) + spec_encode_cc_vote_choice(c)
            =~= spec_encode_cc_vote_choice(c));
    } else {
        assert(cs.push(c).drop_first() =~= cs.drop_first().push(c));
        assert(cs.push(c).first() == cs.first());
        lemma_encode_cc_vote_choices_push(cs.drop_first(), c);
        assert(spec_encode_cc_vote_choice(cs.first()) + (spec_encode_cc_vote_choices(
            cs.drop_first(),
        ) + spec_encode_cc_vote_choice(c)) =~= (spec_encode_cc_vote_choice(cs.first())
            + spec_encode_cc_vote_choices(cs.drop_first())) + spec_encode_cc_vote_choice(c));
    }
}

/// What reading `n` choices at `pos` yields.
pub open spec fn spec_decode_cc_vote_choices(bytes: Seq<u8>, pos: int, n: int) -> Option<
    (Seq<CCVoteChoice>, int),
>
    decreases n,
{
    if n <= 0 {
        Some((Seq::empty(), pos))
    } else {
        match spec_decode_cc_vote_choice(bytes, pos) {
            None => None,
            Some((c, p)) => match spec_decode_cc_vote_choices(bytes, p, n - 1) {
                None => None,
                Some((rest, end)) => Some((seq![c] + rest, end)),
            },
        }
    }
}

/// A choice list survives its serialization.
pub proof fn lemma_cc_vote_choices_round_trip(bytes: Seq<u8>, pos: int, cs: Seq<CCVoteChoice>)
    requires
        0 <= pos,
        pos + spec_encode_cc_vote_choices(cs).len() <= bytes.len(),
        bytes.subrange(pos, pos + spec_encode_cc_vote_choices(cs).len() as int)
            == spec_encode_cc_vote_choices(cs),
    ensures
        spec_decode_cc_vote_choices(bytes, pos, cs.len() as int) == Some(
            (cs, pos + spec_encode_cc_vote_choices(cs).len() as int),
        ),
    decreases cs.len(),
{
    let enc = spec_encode_cc_vote_choices(cs);
    if cs.len() == 0 {
        assert(cs =~= Seq::<CCVoteChoice>::empty());
    } else {
        let c = cs.first();
        let clen = spec_encode_cc_vote_choice(c).len() as int;
        assert forall|j: int| pos <= j < pos + enc.len() implies #[trigger] bytes[j] == enc[j
            - pos] by {
            assert(enc[j - pos] == bytes.subrange(pos, pos + enc.len() as int)[j - pos]);
        }
        assert(bytes.subrange(pos, pos + clen) =~= spec_encode_cc_vote_choice(c));
        lemma_cc_vote_choice_round_trip(bytes, pos, c);
        assert(bytes.subrange(pos + clen, pos + clen + spec_encode_cc_vote_choices(
            cs.drop_first(),
        ).len() as int) =~= spec_encode_cc_vote_choices(cs.drop_first()));
        lemma_cc_vote_choices_round_trip(bytes, pos + clen, cs.drop_first());
        assert(seq![c] + cs.drop_first() =~= cs);
    }
}

/// Writes a choice list.
pub fn write_cc_vote_choices(out: &mut Vec<u8>, cs: &Vec<CCVoteChoice>)
    ensures
        final(out)@ == old(out)@ + spec_encode_cc_vote_choices(cs@),
{
    let n = cs.len();
    let mut i: usize = 0;
    while i < n
        invariant
            0 <= i <= n,
            n == cs@.len(),
            out@ == old(out)@ + spec_encode_cc_vote_choices(cs@.subrange(0, i as int)),
        decreases n - i,
    {
        let ghost prefix = cs@.subrange(0, i as int);
        write_cc_vote_choice(out, &cs[i]);
        proof {
            lemma_encode_cc_vote_choices_push(prefix, cs@[i as int]);
            assert(cs@.subrange(0, i + 1 as int) =~= prefix.push(cs@[i as int]));
        }
        i = i + 1;
    }
    proof {
        assert(cs@.subrange(0, n as int) =~= cs@);
    }
}

/// Reads `n` choices.
pub fn read_cc_vote_choices(bytes: &[u8], pos: usize, n: u64) -> (r: Option<
    (Vec<CCVoteChoice>, usize),
>)
    ensures
        match spec_decode_cc_vote_choices(bytes@, pos as int, n as int) {
            Some((cs, end)) => r matches Some((v, e)) && v@ == cs && e == end,
            None => r is None,
        },
{
    let total: usize = bytes.len();
    proof {
        assert(bytes@.len() == total);
    }
    let mut v: Vec<CCVoteChoice> = Vec::new();
    let mut cur: usize = pos;
    let mut i: u64 = 0;
    while i < n
        invariant
            0 <= i <= n,
            v@.len() == i,
            total == bytes@.len(),
            spec_decode_cc_vote_choices(bytes@, pos as int, n as int) == (match
                spec_decode_cc_vote_choices(bytes@, cur as int, n - i) {
                None => None::<(Seq<CCVoteChoice>, int)>,
                Some((rest, end)) => Some((v@ + rest, end)),
            }),
        decreases n - i,
    {
        let ghost v0 = v@;
        let ghost cur0 = cur as int;
        let ghost rem0 = n - i;
        let (c, p) = match read_cc_vote_choice(bytes, cur) {
            Some(x) => x,
            None => {
                proof {
                    assert(spec_decode_cc_vote_choices(bytes@, cur0, rem0) is None);
                }
                return None;
            },
        };
        v.push(c);
        cur = p;
        i = i + 1;
        proof {
            assert(v@ =~= v0.push(c));
            lemma_decode_cc_vote_choice_bounds(bytes@, cur0);
            match spec_decode_cc_vote_choice(bytes@, cur0) {
                Some((c2, e2)) => {
                    assert(c2 == c);
                    assert(p == e2 as usize);
                    assert(0 <= e2 <= total as int);
                    assert(p as int == e2);
                },
                None => {
                    assert(false);
                },
            }
            assert(spec_decode_cc_vote_choice(bytes@, cur0) == Some((c, p as int)));
            match spec_decode_cc_vote_choices(bytes@, p as int, rem0 - 1) {
                Some((rest2, end2)) => {
                    assert(spec_decode_cc_vote_choices(bytes@, cur0, rem0) == Some(
                        (seq![c] + rest2, end2),
                    ));
                    assert(v0 + (seq![c] + rest2) =~= v@ + rest2);
                },
                None => {
                    assert(spec_decode_cc_vote_choices(bytes@, cur0, rem0) is None);
                },
            }
        }
    }
    proof {
        assert(v@ + Seq::<CCVoteChoice>::empty() =~= v@);
    }
    Some((v, cur))
}

/// The encoding of a vote: a tag for push, or a tag, count and choice list
/// for pull.
pub open spec fn spec_encode_vote(v: Vote) -> Seq<u8> {
    match v {
        Vote::Push => seq![0u8],
        Vote::Pull(choices) => seq![1u8] + spec_encode_u64(choices@.len() as u64)
            + spec_encode_cc_vote_choices(choices@),
    }
}

/// What reading a vote at `pos` yields: whether it pulls, and the choices.
pub open spec fn spec_decode_vote(bytes: Seq<u8>, pos: int) -> Option<
    ((bool, Seq<CCVoteChoice>), int),
> {
    match spec_decode_u8(bytes, pos) {
        None => None,
        Some((tag, p1)) => if tag == 0 {
            Some(((false, Seq::empty()), p1))
        } else if tag == 1 {
            match spec_decode_u64(bytes, p1) {
                None => None,
                Some((n, p2)) => match spec_decode_cc_vote_choices(bytes, p2, n as int) {
                    None => None,
                    Some((cs, end)) => Some(((true, cs), end)),
                },
            }
        } else {
            None
        },
    }
}

/// A vote survives its serialization.
pub proof fn lemma_vote_round_trip(bytes: Seq<u8>, pos: int, v: Vote)
    requires
        v matches Vote::Pull(choices) ==> choices@.len() <= u64::MAX,
        0 <= pos,
        pos + spec_encode_vote(v).len() <= bytes.len(),
        bytes.subrange(pos, pos + spec_encode_vote(v).len() as int) == spec_encode_vote(v),
    ensures
        spec_decode_vote(bytes, pos) == Some(
            (
                (
                    v is Pull,
                    match v {
                        Vote::Push => Seq::empty(),
                        Vote::Pull(choices) => choices@,
                    },
                ),
                pos + spec_encode_vote(v).len() as int,
            ),
        ),
{
    vstd::bytes::lemma_auto_spec_u64_to_from_le_bytes();
    let enc = spec_encode_vote(v);
    assert forall|j: int| pos <= j < pos + enc.len() implies #[trigger] bytes[j] == enc[j
        - pos] by {
        assert(enc[j - pos] == bytes.subrange(pos, pos + enc.len() as int)[j - pos]);
    }
    assert(bytes[pos] == enc[0]);
    match v {
        Vote::Push => {},
        Vote::Pull(choices) => {
            let n = choices@.len() as int;
            let list_len = spec_encode_cc_vote_choices(choices@).len() as int;
            assert(bytes.subrange(pos + 1, pos + 9) =~= spec_encode_u64(choices@.len() as u64));
            lemma_u64_round_trip(bytes, pos + 1, choices@.len() as u64);
            assert(bytes.subrange(pos + 9, pos + 9 + list_len) =~= spec_encode_cc_vote_choices(
                choices@,
            ));
            lemma_cc_vote_choices_round_trip(bytes, pos + 9, choices@);
        },
    }
}

/// Writes a vote.
pub fn write_vote(out: &mut Vec<u8>, v: &Vote)
    ensures
        final(out)@ == old(out)@ + spec_encode_vote(*v),
{
    match v {
        Vote::Push => {
            write_u8(out, 0);
        },
        Vote::Pull(choices) => {
            write_u8(out, 1);
            write_u64(out, choices.len() as u64);
            write_cc_vote_choices(out, choices);
        },
    }
    assert(out@ =~= old(out)@ + spec_encode_vote(*v));
}

/// Reads a vote.
pub fn read_vote(bytes: &[u8], pos: usize) -> (r: Option<(Vote, usize)>)
    ensures
        match spec_decode_vote(bytes@, pos as int) {
            Some(((is_pull, cs), end)) => r matches Some((v, e)) && e == end && (match v {
                Vote::Push => !is_pull && cs.len() == 0,
                Vote::Pull(choices) => is_pull && choices@ == cs,
            }),
            None => r is None,
        },
{
    let total: usize = bytes.len();
    proof {
        assert(bytes@.len() == total);
    }
    let (tag, p1) = match read_u8(bytes, pos) {
        Some(v) => v,
        None => {
            return None;
        },
    };
    if tag == 0 {
        Some((Vote::Push, p1))
    } else if tag == 1 {
        let (n, p2) = match read_u64(bytes, p1) {
            Some(v) => v,
            None => {
                return None;
            },
        };
        match read_cc_vote_choices(bytes, p2, n) {
            Some((choices, end)) => Some((Vote::Pull(choices), end)),
            None => None,
        }
    } else {
        None
    }
}

/// The encoding of a terminal vote record: discriminator, voter, counting
/// time, relinquished flag, weight and the vote itself.
pub open spec fn spec_encode_cc_vote_record(r: CCVoteRecord) -> Seq<u8> {
    spec_encode_u8(spec_account_type_tag(r.account_type)) + spec_encode_u64(
        r.governing_token_owner,
    ) + spec_encode_u64(r.counting_time) + spec_encode_bool(r.is_relinquished)
        + spec_encode_u64(r.voter_weight) + spec_encode_vote(r.vote)
}

/// What reading a terminal vote record at `pos` yields, as its fields.
pub open spec fn spec_decode_cc_vote_record(bytes: Seq<u8>, pos: int) -> Option<
    (ShihonAccountType, u64, u64, bool, u64, (bool, Seq<CCVoteChoice>), int),
> {
    match spec_decode_u8(bytes, pos) {
        None => None,
        Some((tag, p1)) => match spec_expect_account_type(tag, ShihonAccountType::CCVoteRecord) {
            None => None,
            Some(t) => match spec_decode_u64(bytes, p1) {
                None => None,
                Some((owner, p2)) => match spec_decode_u64(bytes, p2) {
                    None => None,
                    Some((time, p3)) => match spec_decode_bool(bytes, p3) {
                        None => None,
                        Some((relinquished, p4)) => match spec_decode_u64(bytes, p4) {
                            None => None,
                            Some((weight, p5)) => match spec_decode_vote(bytes, p5) {
                                None => None,
                                Some((vote, end)) => Some(
                                    (t, owner, time, relinquished, weight, vote, end),
                                ),
                            },
                        },
                    },
                },
            },
        },
    }
}

impl CCVoteRecord {
    /// Serializes this record into the target buffer.
    pub fn serialize(&self, writer: &mut Vec<u8>)
        ensures
            final(writer)@ == old(writer)@ + spec_encode_cc_vote_record(*self),
    {
        write_account_type(writer, self.account_type);
        write_u64(writer, self.governing_token_owner);
        write_u64(writer, self.counting_time);
        write_bool(writer, self.is_relinquished);
        write_u64(writer, self.voter_weight);
        write_vote(writer, &self.vote);
        assert(writer@ =~= old(writer)@ + spec_encode_cc_vote_record(*self));
    }
}

/// Deserializes a terminal vote record, ignoring whatever trails it.
pub fn get_cc_vote_record_data(bytes: &[u8], pos: usize) -> (r: Option<(CCVoteRecord, usize)>)
    ensures
        match spec_decode_cc_vote_record(bytes@, pos as int) {
            Some((t, owner, time, relinquished, weight, vote, end)) => r matches Some((rec, e))
                && rec.account_type == t && rec.governing_token_owner == owner
                && rec.counting_time == time && rec.is_relinquished == relinquished
                && rec.voter_weight == weight && e == end && (match rec.vote {
                Vote::Push => !vote.0 && vote.1.len() == 0,
                Vote::Pull(choices) => vote.0 && choices@ == vote.1,
            }),
            None => r is None,
        },
{
    let total: usize = bytes.len();
    proof {
        assert(bytes@.len() == total);
    }
    let (account_type, p1) = match read_expected_account_type(bytes, pos, ShihonAccountType::CCVoteRecord) {
        Some(v) => v,
        None => {
            return None;
        },
    };
    let (governing_token_owner, p2) = match read_u64(bytes, p1) {
        Some(v) => v,
        None => {
            return None;
        },
    };
    let (counting_time, p3) = match read_u64(bytes, p2) {
        Some(v) => v,
        None => {
            return None;
        },
    };
    let (is_relinquished, p4) = match read_bool(bytes, p3) {
        Some(v) => v,
        None => {
            return None;
        },
    };
    let (voter_weight, p5) = match read_u64(bytes, p4) {
        Some(v) => v,
        None => {
            return None;
        },
    };
    let (vote, end) = match read_vote(bytes, p5) {
        Some(v) => v,
        None => {
            return None;
        },
    };
    Some((
        CCVoteRecord {
            account_type,
            governing_token_owner,
            counting_time,
            is_relinquished,
            voter_weight,
            vote,
        },
        end,
    ))
}

/// Law: a terminal vote record survives its serialization.
#[verifier::rlimit(60)]
pub proof fn lemma_cc_vote_record_round_trip(bytes: Seq<u8>, pos: int, r: CCVoteRecord)
    requires
        r.account_type == ShihonAccountType::CCVoteRecord,
        r.vote matches Vote::Pull(choices) ==> choices@.len() <= u64::MAX,
        0 <= pos,
        pos + spec_encode_cc_vote_record(r).len() <= bytes.len(),
        bytes.subrange(pos, pos + spec_encode_cc_vote_record(r).len() as int)
            == spec_encode_cc_vote_record(r),
    ensures
        spec_decode_cc_vote_record(bytes, pos) == Some(
            (
                r.account_type,
                r.governing_token_owner,
                r.counting_time,
                r.is_relinquished,
                r.voter_weight,
                (
                    r.vote is Pull,
                    match r.vote {
                        Vote::Push => Seq::empty(),
                        Vote::Pull(choices) => choices@,
                    },
                ),
                pos + spec_encode_cc_vote_record(r).len() as int,
            ),
        ),
{
    vstd::bytes::lemma_auto_spec_u64_to_from_le_bytes();
    let enc = spec_encode_cc_vote_record(r);
    let vote_len = spec_encode_vote(r.vote).len() as int;
    let p1 = pos + 1;
    let p2 = p1 + 8;
    let p3 = p2 + 8;
    let p4 = p3 + 1;
    let p5 = p4 + 8;
    let end = p5 + vote_len;
    assert forall|j: int| pos <= j < pos + enc.len() implies #[trigger] bytes[j] == enc[j
        - pos] by {
        assert(enc[j - pos] == bytes.subrange(pos, pos + enc.len() as int)[j - pos]);
    }
    assert(bytes[pos] == enc[0]);
    lemma_account_type_tag_round_trip(r.account_type);
    assert(bytes.subrange(p1, p2) =~= spec_encode_u64(r.governing_token_owner));
    lemma_u64_round_trip(bytes, p1, r.governing_token_owner);
    assert(bytes.subrange(p2, p3) =~= spec_encode_u64(r.counting_time));
    lemma_u64_round_trip(bytes, p2, r.counting_time);
    assert(bytes[p3] == enc[p3 - pos]);
    assert(bytes.subrange(p4, p5) =~= spec_encode_u64(r.voter_weight));
    lemma_u64_round_trip(bytes, p4, r.voter_weight);
    assert(bytes.subrange(p5, end) =~= spec_encode_vote(r.vote));
    lemma_vote_round_trip(bytes, p5, r.vote);
}

/// The encoding of a ring: discriminator, token name, principals, the
/// coordinator's input, configuration, chain links, round counter,
/// fingerprint, holding balance, crown, seal flag, and the sizes of its
/// five record indexes.  The records themselves are separate arena entries
/// with their own encodings; a reader rehydrates them by scanning the
/// index, not by following in-memory pointers.
pub open spec fn spec_encode_tanistry(t: Tanistry) -> Seq<u8> {
    spec_encode_u8(spec_account_type_tag(t.account_type)) + spec_encode_string(t.bc_token_name@)
        + spec_encode_u64(t.kicker_coin_holder) + spec_encode_u64(t.coordinator)
        + spec_encode_string(t.coordinator_input@) + spec_encode_u64(
        t.config.candidate_limit_bar,
    ) + spec_encode_u64(t.config.rating_ceiling) + spec_encode_u64(t.config.rating_threshold)
        + spec_encode_u64(t.config.exceeded_rate_cap) + spec_encode_u64(
        t.config.min_round_for_crowning,
    ) + spec_encode_u64(t.config.min_round_for_cc_vote) + spec_encode_i64(t.config.sale_window)
        + spec_encode_tanistry_tail(t)
}

/// The tail of a ring's encoding: links, counters, crown, seal and the
/// five index sizes.
pub open spec fn spec_encode_tanistry_tail(t: Tanistry) -> Seq<u8> {
    spec_encode_opt_u64(t.next_tanistry_id) + spec_encode_opt_u64(t.previous_tanistry_id)
        + spec_encode_u64(t.number_of_round) + spec_encode_u64(t.building_fingerprint)
        + spec_encode_u64(t.holding_balance) + spec_encode_opt_u64(t.crown) + spec_encode_bool(
        t.is_sealed,
    ) + spec_encode_u64(t.candidate_limit_record_list@.len() as u64) + spec_encode_u64(
        t.mix_content_records@.len() as u64,
    ) + spec_encode_u64(t.rate_other_records@.len() as u64) + spec_encode_u64(
        t.outside_buyer_records@.len() as u64,
    ) + spec_encode_u64(t.cc_vote_records@.len() as u64)
}

/// The tail of a ring survives its serialization.
#[verifier::rlimit(100)]
#[verifier::spinoff_prover]
pub proof fn lemma_tanistry_tail_round_trip(
    bytes: Seq<u8>,
    pos: int,
    t: Tanistry,
    head_type: ShihonAccountType,
    head_name: Seq<char>,
    head_kicker: u64,
    head_coordinator: u64,
    head_input: Seq<char>,
    head_config: TanistryConfig,
)
    requires
        0 <= pos,
        pos + spec_encode_tanistry_tail(t).len() <= bytes.len(),
        bytes.subrange(pos, pos + spec_encode_tanistry_tail(t).len() as int)
            == spec_encode_tanistry_tail(t),
    ensures
        spec_decode_tanistry_tail(
            bytes,
            pos,
            head_type,
            head_name,
            head_kicker,
            head_coordinator,
            head_input,
            head_config,
        ) == Some(
            (
                (head_type, head_name, head_kicker, head_coordinator, head_input),
                head_config,
                (
                    t.next_tanistry_id,
                    t.previous_tanistry_id,
                    t.number_of_round,
                    t.building_fingerprint,
                    t.holding_balance,
                    t.crown,
                    t.is_sealed,
                ),
                (
                    t.candidate_limit_record_list@.len() as u64,
                    t.mix_content_records@.len() as u64,
                    t.rate_other_records@.len() as u64,
                    t.outside_buyer_records@.len() as u64,
                    t.cc_vote_records@.len() as u64,
                ),
                pos + spec_encode_tanistry_tail(t).len() as int,
            ),
        ),
{
    vstd::bytes::lemma_auto_spec_u64_to_from_le_bytes();
    let enc = spec_encode_tanistry_tail(t);
    let next_len = spec_encode_opt_u64(t.next_tanistry_id).len() as int;
    let prev_len = spec_encode_opt_u64(t.previous_tanistry_id).len() as int;
    let crown_len = spec_encode_opt_u64(t.crown).len() as int;
    let p13 = pos + next_len;
    let p14 = p13 + prev_len;
    let p15 = p14 + 8;
    let p16 = p15 + 8;
    let p17 = p16 + 8;
    let p18 = p17 + crown_len;
    let p19 = p18 + 1;
    let p20 = p19 + 8;
    let p21 = p20 + 8;
    let p22 = p21 + 8;
    let p23 = p22 + 8;
    let end = p23 + 8;
    assert forall|j: int| pos <= j < pos + enc.len() implies #[trigger] bytes[j] == enc[j
        - pos] by {
        assert(enc[j - pos] == bytes.subrange(pos, pos + enc.len() as int)[j - pos]);
    }
    assert(bytes.subrange(pos, p13) =~= spec_encode_opt_u64(t.next_tanistry_id));
    lemma_opt_u64_round_trip(bytes, pos, t.next_tanistry_id);
    assert(bytes.subrange(p13, p14) =~= spec_encode_opt_u64(t.previous_tanistry_id));
    lemma_opt_u64_round_trip(bytes, p13, t.previous_tanistry_id);
    assert(bytes.subrange(p14, p15) =~= spec_encode_u64(t.number_of_round));
    lemma_u64_round_trip(bytes, p14, t.number_of_round);
    assert(bytes.subrange(p15, p16) =~= spec_encode_u64(t.building_fingerprint));
    lemma_u64_round_trip(bytes, p15, t.building_fingerprint);
    assert(bytes.subrange(p16, p17) =~= spec_encode_u64(t.holding_balance));
    lemma_u64_round_trip(bytes, p16, t.holding_balance);
    assert(bytes.subrange(p17, p18) =~= spec_encode_opt_u64(t.crown));
    lemma_opt_u64_round_trip(bytes, p17, t.crown);
    assert(bytes[p18] == enc[p18 - pos]);
    assert(bytes.subrange(p19, p20) =~= spec_encode_u64(
        t.candidate_limit_record_list@.len() as u64,
    ));
    lemma_u64_round_trip(bytes, p19, t.candidate_limit_record_list@.len() as u64);
    assert(bytes.subrange(p20, p21) =~= spec_encode_u64(t.mix_content_records@.len() as u64));
    lemma_u64_round_trip(bytes, p20, t.mix_content_records@.len() as u64);
    assert(bytes.subrange(p21, p22) =~= spec_encode_u64(t.rate_other_records@.len() as u64));
    lemma_u64_round_trip(bytes, p21, t.rate_other_records@.len() as u64);
    assert(bytes.subrange(p22, p23) =~= spec_encode_u64(t.outside_buyer_records@.len() as u64));
    lemma_u64_round_trip(bytes, p22, t.outside_buyer_records@.len() as u64);
    assert(bytes.subrange(p23, end) =~= spec_encode_u64(t.cc_vote_records@.len() as u64));
    lemma_u64_round_trip(bytes, p23, t.cc_vote_records@.len() as u64);
}

/// What reading a ring at `pos` yields: its header fields, configuration,
/// counters and the five index sizes.
pub open spec fn spec_decode_tanistry(bytes: Seq<u8>, pos: int) -> Option<
    (
        (ShihonAccountType, Seq<char>, u64, u64, Seq<char>),
        TanistryConfig,
        (Option<u64>, Option<u64>, u64, u64, u64, Option<u64>, bool),
        (u64, u64, u64, u64, u64),
        int,
    ),
> {
    match spec_decode_u8(bytes, pos) {
        None => None,
        Some((tag, p1)) => match spec_expect_account_type(tag, ShihonAccountType::Tanistry) {
            None => None,
            Some(t) => match spec_decode_string(bytes, p1) {
                None => None,
                Some((name, p2)) => match spec_decode_u64(bytes, p2) {
                    None => None,
                    Some((kicker, p3)) => match spec_decode_u64(bytes, p3) {
                        None => None,
                        Some((coordinator, p4)) => match spec_decode_string(bytes, p4) {
                            None => None,
                            Some((input, p5)) => match spec_decode_u64(bytes, p5) {
                                None => None,
                                Some((bar, p6)) => match spec_decode_u64(bytes, p6) {
                                    None => None,
                                    Some((ceiling, p7)) => match spec_decode_u64(bytes, p7) {
                                        None => None,
                                        Some((threshold, p8)) => match spec_decode_u64(
                                            bytes,
                                            p8,
                                        ) {
                                            None => None,
                                            Some((cap, p9)) => match spec_decode_u64(bytes, p9) {
                                                None => None,
                                                Some((crowning_min, p10)) => match
                                                    spec_decode_u64(bytes, p10) {
                                                    None => None,
                                                    Some((vote_min, p11)) => match
                                                        spec_decode_i64(bytes, p11) {
                                                        None => None,
                                                        Some((window, p12)) =>
                                                            spec_decode_tanistry_tail(
                                                            bytes,
                                                            p12,
                                                            t,
                                                            name,
                                                            kicker,
                                                            coordinator,
                                                            input,
                                                            TanistryConfig {
                                                                candidate_limit_bar: bar,
                                                                rating_ceiling: ceiling,
                                                                rating_threshold: threshold,
                                                                exceeded_rate_cap: cap,
                                                                min_round_for_crowning:
                                                                    crowning_min,
                                                                min_round_for_cc_vote: vote_min,
                                                                sale_window: window,
                                                            },
                                                        ),
                                                    },
                                                },
                                            },
                                        },
                                    },
                                },
                            },
                        },
                    },
                },
            },
        },
    }
}

/// The tail of a ring read: links, counters, crown, seal and index sizes.
pub open spec fn spec_decode_tanistry_tail(
    bytes: Seq<u8>,
    pos: int,
    t: ShihonAccountType,
    name: Seq<char>,
    kicker: u64,
    coordinator: u64,
    input: Seq<char>,
    config: TanistryConfig,
) -> Option<
    (
        (ShihonAccountType, Seq<char>, u64, u64, Seq<char>),
        TanistryConfig,
        (Option<u64>, Option<u64>, u64, u64, u64, Option<u64>, bool),
        (u64, u64, u64, u64, u64),
        int,
    ),
> {
    match spec_decode_opt_u64(bytes, pos) {
        None => None,
        Some((next, p13)) => match spec_decode_opt_u64(bytes, p13) {
            None => None,
            Some((previous, p14)) => match spec_decode_u64(bytes, p14) {
                None => None,
                Some((round, p15)) => match spec_decode_u64(bytes, p15) {
                    None => None,
                    Some((fp, p16)) => match spec_decode_u64(bytes, p16) {
                        None => None,
                        Some((holding, p17)) => match spec_decode_opt_u64(bytes, p17) {
                            None => None,
                            Some((crown, p18)) => match spec_decode_bool(bytes, p18) {
                                None => None,
                                Some((sealed, p19)) => match spec_decode_u64(bytes, p19) {
                                    None => None,
                                    Some((c1, p20)) => match spec_decode_u64(bytes, p20) {
                                        None => None,
                                        Some((c2, p21)) => match spec_decode_u64(bytes, p21) {
                                            None => None,
                                            Some((c3, p22)) => match spec_decode_u64(
                                                bytes,
                                                p22,
                                            ) {
                                                None => None,
                                                Some((c4, p23)) => match spec_decode_u64(
                                                    bytes,
                                                    p23,
                                                ) {
                                                    None => None,
                                                    Some((c5, end)) => Some(
                                                        (
                                                            (t, name, kicker, coordinator, input),
                                                            config,
                                                            (
                                                                next,
                                                                previous,
                                                                round,
                                                                fp,
                                                                holding,
                                                                crown,
                                                                sealed,
                                                            ),
                                                            (c1, c2, c3, c4, c5),
                                                            end,
                                                        ),
                                                    ),
                                                },
                                            },
                                        },
                                    },
                                },
                            },
                        },
                    },
                },
            },
        },
    }
}

impl Tanistry {
    /// Packs this ring into the target buffer: the header, then the sizes
    /// of its five record indexes.  The records themselves are packed as
    /// separate arena entries by their own serializers.
    #[verifier::rlimit(100)]
    #[verifier::spinoff_prover]
    pub fn pack_into_slice(&self, dst: &mut Vec<u8>)
        ensures
            final(dst)@ == old(dst)@ + spec_encode_tanistry(*self),
    {
        write_account_type(dst, self.account_type);
        write_string(dst, self.bc_token_name.as_str());
        write_u64(dst, self.kicker_coin_holder);
        write_u64(dst, self.coordinator);
        write_string(dst, self.coordinator_input.as_str());
        write_u64(dst, self.config.candidate_limit_bar);
        write_u64(dst, self.config.rating_ceiling);
        write_u64(dst, self.config.rating_threshold);
        write_u64(dst, self.config.exceeded_rate_cap);
        write_u64(dst, self.config.min_round_for_crowning);
        write_u64(dst, self.config.min_round_for_cc_vote);
        write_i64(dst, self.config.sale_window);
        write_opt_u64(dst, self.next_tanistry_id);
        write_opt_u64(dst, self.previous_tanistry_id);
        write_u64(dst, self.number_of_round);
        write_u64(dst, self.building_fingerprint);
        write_u64(dst, self.holding_balance);
        write_opt_u64(dst, self.crown);
        write_bool(dst, self.is_sealed);
        write_u64(dst, self.candidate_limit_record_list.len() as u64);
        write_u64(dst, self.mix_content_records.len() as u64);
        write_u64(dst, self.rate_other_records.len() as u64);
        write_u64(dst, self.outside_buyer_records.len() as u64);
        write_u64(dst, self.cc_vote_records.len() as u64);
        assert(dst@ =~= old(dst)@ + spec_encode_tanistry(*self));
    }

    /// Unpacks a ring header, ignoring whatever trails it.  The returned
    /// ring carries empty record indexes; the second component reports how
    /// many records of each kind the arena holds for it, so a reader can
    /// rehydrate them from their own entries.
    #[verifier::rlimit(100)]
    #[verifier::spinoff_prover]
    pub fn unpack_from_slice(src: &[u8], pos: usize) -> (r: Option<
        (Tanistry, (u64, u64, u64, u64, u64), usize),
    >)
        ensures
            match spec_decode_tanistry(src@, pos as int) {
                Some((head, config, tail, counts, end)) => r matches Some((ring, cs, e))
                    && ring.account_type == head.0 && ring.bc_token_name@ == head.1
                    && ring.kicker_coin_holder == head.2 && ring.coordinator == head.3
                    && ring.coordinator_input@ == head.4 && ring.config == config
                    && ring.next_tanistry_id == tail.0 && ring.previous_tanistry_id == tail.1
                    && ring.number_of_round == tail.2 && ring.building_fingerprint == tail.3
                    && ring.holding_balance == tail.4 && ring.crown == tail.5 && ring.is_sealed
                    == tail.6 && cs == counts && e == end
                    && ring.candidate_limit_record_list@.len() == 0
                    && ring.mix_content_records@.len() == 0 && ring.rate_other_records@.len()
                    == 0 && ring.outside_buyer_records@.len() == 0
                    && ring.cc_vote_records@.len() == 0,
                None => r is None,
            },
    {
        let total: usize = src.len();
        proof {
            assert(src@.len() == total);
        }
        let (account_type, p1) = match read_expected_account_type(src, pos, ShihonAccountType::Tanistry) {
            Some(v) => v,
            None => {
                return None;
            },
        };
        let (bc_token_name, p2) = match read_string(src, p1) {
            Some(v) => v,
            None => {
                return None;
            },
        };
        let (kicker_coin_holder, p3) = match read_u64(src, p2) {
            Some(v) => v,
            None => {
                return None;
            },
        };
        let (coordinator, p4) = match read_u64(src, p3) {
            Some(v) => v,
            None => {
                return None;
            },
        };
        let (coordinator_input, p5) = match read_string(src, p4) {
            Some(v) => v,
            None => {
                return None;
            },
        };
        let (candidate_limit_bar, p6) = match read_u64(src, p5) {
            Some(v) => v,
            None => {
                return None;
            },
        };
        let (rating_ceiling, p7) = match read_u64(src, p6) {
            Some(v) => v,
            None => {
                return None;
            },
        };
        let (rating_threshold, p8) = match read_u64(src, p7) {
            Some(v) => v,
            None => {
                return None;
            },
        };
        let (exceeded_rate_cap, p9) = match read_u64(src, p8) {
            Some(v) => v,
            None => {
                return None;
            },
        };
        let (min_round_for_crowning, p10) = match read_u64(src, p9) {
            Some(v) => v,
            None => {
                return None;
            },
        };
        let (min_round_for_cc_vote, p11) = match read_u64(src, p10) {
            Some(v) => v,
            None => {
                return None;
            },
        };
        let (sale_window, p12) = match read_i64(src, p11) {
            Some(v) => v,
            None => {
                return None;
            },
        };
        let (next_tanistry_id, p13) = match read_opt_u64(src, p12) {
            Some(v) => v,
            None => {
                return None;
            },
        };
        let (previous_tanistry_id, p14) = match read_opt_u64(src, p13) {
            Some(v) => v,
            None => {
                return None;
            },
        };
        let (number_of_round, p15) = match read_u64(src, p14) {
            Some(v) => v,
            None => {
                return None;
            },
        };
        let (building_fingerprint, p16) = match read_u64(src, p15) {
            Some(v) => v,
            None => {
                return None;
            },
        };
        let (holding_balance, p17) = match read_u64(src, p16) {
            Some(v) => v,
            None => {
                return None;
            },
        };
        let (crown, p18) = match read_opt_u64(src, p17) {
            Some(v) => v,
            None => {
                return None;
            },
        };
        let (is_sealed, p19) = match read_bool(src, p18) {
            Some(v) => v,
            None => {
                return None;
            },
        };
        let (c1, p20) = match read_u64(src, p19) {
            Some(v) => v,
            None => {
                return None;
            },
        };
        let (c2, p21) = match read_u64(src, p20) {
            Some(v) => v,
            None => {
                return None;
            },
        };
        let (c3, p22) = match read_u64(src, p21) {
            Some(v) => v,
            None => {
                return None;
            },
        };
        let (c4, p23) = match read_u64(src, p22) {
            Some(v) => v,
            None => {
                return None;
            },
        };
        let (c5, end) = match read_u64(src, p23) {
            Some(v) => v,
            None => {
                return None;
            },
        };
        let ring = Tanistry {
            account_type,
            bc_token_name,
            kicker_coin_holder,
            coordinator,
            coordinator_input,
            config: TanistryConfig {
                candidate_limit_bar,
                rating_ceiling,
                rating_threshold,
                exceeded_rate_cap,
                min_round_for_crowning,
                min_round_for_cc_vote,
                sale_window,
            },
            next_tanistry_id,
            previous_tanistry_id,
            number_of_round,
            building_fingerprint,
            holding_balance,
            crown,
            is_sealed,
            candidate_limit_record_list: Vec::new(),
            mix_content_records: Vec::new(),
            rate_other_records: Vec::new(),
            outside_buyer_records: Vec::new(),
            cc_vote_records: Vec::new(),
        };
        Some((ring, (c1, c2, c3, c4, c5), end))
    }
}

/// Deserializes a ring header, ignoring whatever trails it.
pub fn get_tanistry_data(bytes: &[u8], pos: usize) -> (r: Option<
    (Tanistry, (u64, u64, u64, u64, u64), usize),
>)
    ensures
        match spec_decode_tanistry(bytes@, pos as int) {
            Some((head, config, tail, counts, end)) => r matches Some((ring, cs, e))
                && ring.account_type == head.0 && ring.bc_token_name@ == head.1
                && ring.kicker_coin_holder == head.2 && ring.coordinator == head.3
                && ring.coordinator_input@ == head.4 && ring.config == config
                && ring.next_tanistry_id == tail.0 && ring.previous_tanistry_id == tail.1
                && ring.number_of_round == tail.2 && ring.building_fingerprint == tail.3
                && ring.holding_balance == tail.4 && ring.crown == tail.5 && ring.is_sealed
                == tail.6 && cs == counts && e == end,
            None => r is None,
        },
{
    Tanistry::unpack_from_slice(bytes, pos)
}

/// Law: a ring header survives its serialization — reading wherever the
/// encoding stands yields every header field and the five index sizes of
/// the ring packed.
#[verifier::rlimit(100)]
#[verifier::spinoff_prover]
pub proof fn lemma_tanistry_round_trip(bytes: Seq<u8>, pos: int, t: Tanistry)
    requires
        t.account_type == ShihonAccountType::Tanistry,
        vstd::utf8::encode_utf8(t.bc_token_name@).len() <= u64::MAX,
        vstd::utf8::encode_utf8(t.coordinator_input@).len() <= u64::MAX,
        0 <= pos,
        pos + spec_encode_tanistry(t).len() <= bytes.len(),
        bytes.subrange(pos, pos + spec_encode_tanistry(t).len() as int) == spec_encode_tanistry(
            t,
        ),
    ensures
        spec_decode_tanistry(bytes, pos) == Some(
            (
                (
                    t.account_type,
                    t.bc_token_name@,
                    t.kicker_coin_holder,
                    t.coordinator,
                    t.coordinator_input@,
                ),
                t.config,
                (
                    t.next_tanistry_id,
                    t.previous_tanistry_id,
                    t.number_of_round,
                    t.building_fingerprint,
                    t.holding_balance,
                    t.crown,
                    t.is_sealed,
                ),
                (
                    t.candidate_limit_record_list@.len() as u64,
                    t.mix_content_records@.len() as u64,
                    t.rate_other_records@.len() as u64,
                    t.outside_buyer_records@.len() as u64,
                    t.cc_vote_records@.len() as u64,
                ),
                pos + spec_encode_tanistry(t).len() as int,
            ),
        ),
{
    vstd::bytes::lemma_auto_spec_u64_to_from_le_bytes();
    let enc = spec_encode_tanistry(t);
    let name_len = spec_encode_string(t.bc_token_name@).len() as int;
    let input_len = spec_encode_string(t.coordinator_input@).len() as int;
    let p1 = pos + 1;
    let p2 = p1 + name_len;
    let p3 = p2 + 8;
    let p4 = p3 + 8;
    let p5 = p4 + input_len;
    let p6 = p5 + 8;
    let p7 = p6 + 8;
    let p8 = p7 + 8;
    let p9 = p8 + 8;
    let p10 = p9 + 8;
    let p11 = p10 + 8;
    let p12 = p11 + 9;
    let end = p12 + spec_encode_tanistry_tail(t).len() as int;
    assert forall|j: int| pos <= j < pos + enc.len() implies #[trigger] bytes[j] == enc[j
        - pos] by {
        assert(enc[j - pos] == bytes.subrange(pos, pos + enc.len() as int)[j - pos]);
    }
    assert(bytes[pos] == enc[0]);
    lemma_account_type_tag_round_trip(t.account_type);
    assert(bytes.subrange(p1, p2) =~= spec_encode_string(t.bc_token_name@));
    lemma_string_round_trip(bytes, p1, t.bc_token_name@);
    assert(bytes.subrange(p2, p3) =~= spec_encode_u64(t.kicker_coin_holder));
    lemma_u64_round_trip(bytes, p2, t.kicker_coin_holder);
    assert(bytes.subrange(p3, p4) =~= spec_encode_u64(t.coordinator));
    lemma_u64_round_trip(bytes, p3, t.coordinator);
    assert(bytes.subrange(p4, p5) =~= spec_encode_string(t.coordinator_input@));
    lemma_string_round_trip(bytes, p4, t.coordinator_input@);
    assert(bytes.subrange(p5, p6) =~= spec_encode_u64(t.config.candidate_limit_bar));
    lemma_u64_round_trip(bytes, p5, t.config.candidate_limit_bar);
    assert(bytes.subrange(p6, p7) =~= spec_encode_u64(t.config.rating_ceiling));
    lemma_u64_round_trip(bytes, p6, t.config.rating_ceiling);
    assert(bytes.subrange(p7, p8) =~= spec_encode_u64(t.config.rating_threshold));
    lemma_u64_round_trip(bytes, p7, t.config.rating_threshold);
    assert(bytes.subrange(p8, p9) =~= spec_encode_u64(t.config.exceeded_rate_cap));
    lemma_u64_round_trip(bytes, p8, t.config.exceeded_rate_cap);
    assert(bytes.subrange(p9, p10) =~= spec_encode_u64(t.config.min_round_for_crowning));
    lemma_u64_round_trip(bytes, p9, t.config.min_round_for_crowning);
    assert(bytes.subrange(p10, p11) =~= spec_encode_u64(t.config.min_round_for_cc_vote));
    lemma_u64_round_trip(bytes, p10, t.config.min_round_for_cc_vote);
    assert(bytes.subrange(p11, p12) =~= spec_encode_i64(t.config.sale_window));
    lemma_i64_round_trip(bytes, p11, t.config.sale_window);
    assert(bytes.subrange(p12, end) =~= spec_encode_tanistry_tail(t));
    lemma_tanistry_tail_round_trip(
        bytes,
        p12,
        t,
        t.account_type,
        t.bc_token_name@,
        t.kicker_coin_holder,
        t.coordinator,
        t.coordinator_input@,
        t.config,
    );
}

} // verus!
