//! The stored form of a vault record.
//!
//! A record is stored in a slot of fixed size. The slot begins with a tag that
//! marks it as a vault, followed by the fields in the order of their
//! declaration: identities as their 32 bytes, integers in little-endian order,
//! the flag as one byte, a string as its length in four bytes and then its
//! bytes, an optional identity as one byte that says whether it is there and,
//! if so, its 32 bytes. What is left of the slot is filled with zeros.

use crate::constants::{MAX_ENCRYPTED_KEY_LEN, MAX_PAYLOAD_REFERENCE_LEN, MAX_VAULT_NAME_LEN};
use crate::state::{byte_len, stored_len, Pubkey, Vault, VaultView};
use vstd::bytes::{
    lemma_auto_spec_u32_to_from_le_bytes, lemma_auto_spec_u64_to_from_le_bytes,
    spec_u32_from_le_bytes, spec_u32_to_le_bytes, spec_u64_from_le_bytes, spec_u64_to_le_bytes,
    u32_from_le_bytes, u32_to_le_bytes, u64_from_le_bytes, u64_to_le_bytes,
};
use vstd::prelude::*;
use vstd::slice::{slice_subrange, slice_to_vec};
use vstd::utf8::{
    decode_utf8, encode_utf8, encode_utf8_decode_utf8, encode_utf8_valid_utf8, valid_utf8,
};

verus! {

/// The size of the slot that a record is stored in, whatever its fields hold.
pub const SPACE: usize = 8 + 32 + 32 + (4 + MAX_PAYLOAD_REFERENCE_LEN) + (4
    + MAX_ENCRYPTED_KEY_LEN) + 8 + 8 + 1 + 8 + 1 + 33 + 8 + (4 + MAX_VAULT_NAME_LEN) + 8 + 33 + 8;

/// The tag that a stored vault record begins with.
pub open spec fn record_tag() -> Seq<u8> {
    seq![211u8, 8u8, 232u8, 43u8, 2u8, 152u8, 117u8, 119u8]
}

/// An unsigned amount in the stored form.
pub open spec fn u64_bytes(x: u64) -> Seq<u8> {
    spec_u64_to_le_bytes(x)
}

/// A timestamp or a duration in the stored form: two's complement.
pub open spec fn i64_bytes(x: i64) -> Seq<u8> {
    spec_u64_to_le_bytes(x as u64)
}

/// A flag in the stored form.
pub open spec fn flag_bytes(b: bool) -> Seq<u8> {
    seq![if b { 1u8 } else { 0u8 }]
}

/// A string in the stored form: its length in bytes, then the bytes.
pub open spec fn text_bytes(s: Seq<char>) -> Seq<u8> {
    spec_u32_to_le_bytes(stored_len(s) as u32) + encode_utf8(s)
}

/// An optional identity in the stored form.
pub open spec fn optional_key_bytes(k: Option<Pubkey>) -> Seq<u8> {
    match k {
        Some(key) => seq![1u8] + key.bytes@,
        None => seq![0u8],
    }
}

impl VaultView {
    /// The tag and the fields in the stored form.
    pub open spec fn encoding(self) -> Seq<u8> {
        record_tag() + self.owner.bytes@ + self.recipient.bytes@ + text_bytes(
            self.payload_reference,
        ) + text_bytes(self.encrypted_key) + i64_bytes(self.time_interval) + i64_bytes(
            self.last_check_in,
        ) + flag_bytes(self.is_released) + u64_bytes(self.derivation_seed)
            + seq![self.derivation_proof] + optional_key_bytes(self.delegate) + u64_bytes(
            self.bounty,
        ) + text_bytes(self.name) + u64_bytes(self.locked_native_amount) + optional_key_bytes(
            self.asset_mint,
        ) + u64_bytes(self.locked_asset_amount)
    }

    /// The whole slot: the encoding, and zeros up to the size of the slot.
    pub open spec fn record(self) -> Seq<u8> {
        self.encoding() + Seq::new((SPACE - self.encoding().len()) as nat, |i: int| 0u8)
    }
}

/// Whether `piece` stands in `bytes` at offset `at`.
pub open spec fn holds_at(bytes: Seq<u8>, at: int, piece: Seq<u8>) -> bool {
    &&& 0 <= at
    &&& at + piece.len() <= bytes.len()
    &&& bytes.subrange(at, at + piece.len()) == piece
}

/// Whether `bytes` is a stored form of `vault`: the vault's bounded fields are
/// within their maxima and `bytes` begins with its encoding. What follows the
/// encoding is padding and plays no part.
pub open spec fn stores(bytes: Seq<u8>, vault: VaultView) -> bool {
    vault.within_bounds() && holds_at(bytes, 0, vault.encoding())
}

/// The length of each piece of the stored form.
pub proof fn lemma_piece_lengths()
    ensures
        record_tag().len() == 8,
        forall|x: u64| #[trigger] u64_bytes(x).len() == 8,
        forall|x: i64| #[trigger] i64_bytes(x).len() == 8,
        forall|b: bool| #[trigger] flag_bytes(b).len() == 1,
        forall|s: Seq<char>| #[trigger] text_bytes(s).len() == 4 + stored_len(s),
        forall|k: Option<Pubkey>| #[trigger]
            optional_key_bytes(k).len() == (if k is Some { 33int } else { 1int }),
{
    lemma_auto_spec_u32_to_from_le_bytes();
    lemma_auto_spec_u64_to_from_le_bytes();
}

/// A record whose bounded fields are within their maxima fits the slot, and
/// its stored form fills the slot exactly.
pub proof fn lemma_record_fills_the_slot(vault: VaultView)
    requires
        vault.within_bounds(),
    ensures
        vault.encoding().len() <= SPACE,
        vault.record().len() == SPACE,
        stores(vault.record(), vault),
{
    lemma_piece_lengths();
    assert(vault.record().subrange(0, vault.encoding().len() as int) == vault.encoding());
}

/// The identity with the given bytes.
spec fn key_of(s: Seq<u8>) -> Pubkey {
    choose|k: Pubkey| k.bytes@ == s
}

/// An identity is determined by its bytes.
proof fn lemma_key_of(k: Pubkey)
    ensures
        key_of(k.bytes@) == k,
        k.bytes@.len() == 32,
{
    let c = key_of(k.bytes@);
    assert(c.bytes@ == k.bytes@);
    assert(forall|i: int| 0 <= i < 32 ==> c.bytes[i] == c.bytes@[i]);
    assert(forall|i: int| 0 <= i < 32 ==> k.bytes[i] == k.bytes@[i]);
    assert(c.bytes =~= k.bytes);
}

// What reading finds at an offset of the stored form, with the offset behind
// it, or `None` where nothing of the kind stands there.

spec fn tag_at(bytes: Seq<u8>, at: int) -> Option<int> {
    if 0 <= at && at + 8 <= bytes.len() && bytes.subrange(at, at + 8) == record_tag() {
        Some(at + 8)
    } else {
        None
    }
}

spec fn key_at(bytes: Seq<u8>, at: int) -> Option<(Pubkey, int)> {
    if 0 <= at && at + 32 <= bytes.len() {
        Some((key_of(bytes.subrange(at, at + 32)), at + 32))
    } else {
        None
    }
}

spec fn u64_at(bytes: Seq<u8>, at: int) -> Option<(u64, int)> {
    if 0 <= at && at + 8 <= bytes.len() {
        Some((spec_u64_from_le_bytes(bytes.subrange(at, at + 8)), at + 8))
    } else {
        None
    }
}

spec fn i64_at(bytes: Seq<u8>, at: int) -> Option<(i64, int)> {
    if 0 <= at && at + 8 <= bytes.len() {
        Some((spec_u64_from_le_bytes(bytes.subrange(at, at + 8)) as i64, at + 8))
    } else {
        None
    }
}

spec fn byte_at(bytes: Seq<u8>, at: int) -> Option<(u8, int)> {
    if 0 <= at < bytes.len() {
        Some((bytes[at], at + 1))
    } else {
        None
    }
}

spec fn flag_at(bytes: Seq<u8>, at: int) -> Option<(bool, int)> {
    if 0 <= at < bytes.len() && bytes[at] <= 1 {
        Some((bytes[at] == 1, at + 1))
    } else {
        None
    }
}

spec fn optional_key_at(bytes: Seq<u8>, at: int) -> Option<(Option<Pubkey>, int)> {
    if 0 <= at < bytes.len() && bytes[at] == 0 {
        Some((None, at + 1))
    } else if 0 <= at < bytes.len() && bytes[at] == 1 {
        match key_at(bytes, at + 1) {
            Some((key, next)) => Some((Some(key), next)),
            None => None,
        }
    } else {
        None
    }
}

spec fn text_at(bytes: Seq<u8>, at: int, max: int) -> Option<(Seq<char>, int)> {
    if 0 <= at && at + 4 <= bytes.len() {
        let n = spec_u32_from_le_bytes(bytes.subrange(at, at + 4)) as int;
        let body = bytes.subrange(at + 4, at + 4 + n);
        if n <= max && at + 4 + n <= bytes.len() && valid_utf8(body) {
            Some((decode_utf8(body), at + 4 + n))
        } else {
            None
        }
    } else {
        None
    }
}

/// What the bytes hold, read from the front: each piece in its turn, at the
/// offset that the pieces before it leave.
spec fn decode(bytes: Seq<u8>) -> Option<VaultView> {
    match tag_at(bytes, 0) {
        None => None,
        Some(at0) => match key_at(bytes, at0) {
            None => None,
            Some((owner, at1)) => match key_at(bytes, at1) {
                None => None,
                Some((recipient, at2)) => match text_at(
                    bytes,
                    at2,
                    MAX_PAYLOAD_REFERENCE_LEN as int,
                ) {
                    None => None,
                    Some((payload_reference, at3)) => match text_at(
                        bytes,
                        at3,
                        MAX_ENCRYPTED_KEY_LEN as int,
                    ) {
                        None => None,
                        Some((encrypted_key, at4)) => match decode_rest(bytes, at4) {
                            None => None,
                            Some(rest) => Some(
                                VaultView {
                                    owner,
                                    recipient,
                                    payload_reference,
                                    encrypted_key,
                                    ..rest
                                },
                            ),
                        },
                    },
                },
            },
        },
    }
}

/// The fields behind the encrypted key, read from offset `at`. The fields
/// before them are left open.
spec fn decode_rest(bytes: Seq<u8>, at: int) -> Option<VaultView> {
    match i64_at(bytes, at) {
        None => None,
        Some((time_interval, at5)) => match i64_at(bytes, at5) {
            None => None,
            Some((last_check_in, at6)) => match flag_at(bytes, at6) {
                None => None,
                Some((is_released, at7)) => match u64_at(bytes, at7) {
                    None => None,
                    Some((derivation_seed, at8)) => match byte_at(bytes, at8) {
                        None => None,
                        Some((derivation_proof, at9)) => match optional_key_at(bytes, at9) {
                            None => None,
                            Some((delegate, at10)) => match u64_at(bytes, at10) {
                                None => None,
                                Some((bounty, at11)) => match decode_end(bytes, at11) {
                                    None => None,
                                    Some(end) => Some(
                                        VaultView {
                                            time_interval,
                                            last_check_in,
                                            is_released,
                                            derivation_seed,
                                            derivation_proof,
                                            delegate,
                                            bounty,
                                            ..end
                                        },
                                    ),
                                },
                            },
                        },
                    },
                },
            },
        },
    }
}

/// The fields from the name on, read from offset `at`. The fields before them
/// are left open.
spec fn decode_end(bytes: Seq<u8>, at: int) -> Option<VaultView> {
    match text_at(bytes, at, MAX_VAULT_NAME_LEN as int) {
        None => None,
        Some((name, at12)) => match u64_at(bytes, at12) {
            None => None,
            Some((locked_native_amount, at13)) => match optional_key_at(bytes, at13) {
                None => None,
                Some((asset_mint, at14)) => match u64_at(bytes, at14) {
                    None => None,
                    Some((locked_asset_amount, _)) => Some(
                        VaultView {
                            name,
                            locked_native_amount,
                            asset_mint,
                            locked_asset_amount,
                            ..arbitrary::<VaultView>()
                        },
                    ),
                },
            },
        },
    }
}

/// A piece that stands at an offset is two pieces, one behind the other.
proof fn lemma_holds_split(bytes: Seq<u8>, at: int, a: Seq<u8>, b: Seq<u8>)
    requires
        holds_at(bytes, at, a + b),
    ensures
        holds_at(bytes, at, a),
        holds_at(bytes, at + a.len(), b),
{
    let whole = bytes.subrange(at, at + (a + b).len());
    assert(bytes.subrange(at, at + a.len()) =~= whole.subrange(0, a.len() as int));
    assert((a + b).subrange(0, a.len() as int) =~= a);
    assert(bytes.subrange(at + a.len(), at + a.len() + b.len()) =~= whole.subrange(
        a.len() as int,
        (a + b).len() as int,
    ));
    assert((a + b).subrange(a.len() as int, (a + b).len() as int) =~= b);
}

/// Two pieces that stand one behind the other stand there as one.
proof fn lemma_holds_join(bytes: Seq<u8>, at: int, a: Seq<u8>, b: Seq<u8>)
    requires
        holds_at(bytes, at, a),
        holds_at(bytes, at + a.len(), b),
    ensures
        holds_at(bytes, at, a + b),
{
    assert(bytes.subrange(at, at + (a + b).len()) =~= bytes.subrange(at, at + a.len())
        + bytes.subrange(at + a.len(), at + a.len() + b.len()));
}

// A piece that stands at an offset is what reading finds there.

proof fn lemma_tag_at(bytes: Seq<u8>, at: int)
    requires
        holds_at(bytes, at, record_tag()),
    ensures
        tag_at(bytes, at) == Some(at + 8),
{
}

proof fn lemma_key_at(bytes: Seq<u8>, at: int, key: Pubkey)
    requires
        holds_at(bytes, at, key.bytes@),
    ensures
        key_at(bytes, at) == Some((key, at + 32)),
{
    lemma_key_of(key);
}

proof fn lemma_u64_at(bytes: Seq<u8>, at: int, x: u64)
    requires
        holds_at(bytes, at, u64_bytes(x)),
    ensures
        u64_at(bytes, at) == Some((x, at + 8)),
{
    lemma_auto_spec_u64_to_from_le_bytes();
}

proof fn lemma_i64_at(bytes: Seq<u8>, at: int, x: i64)
    requires
        holds_at(bytes, at, i64_bytes(x)),
    ensures
        i64_at(bytes, at) == Some((x, at + 8)),
{
    lemma_auto_spec_u64_to_from_le_bytes();
    assert((x as u64) as i64 == x) by (bit_vector);
}

proof fn lemma_byte_at(bytes: Seq<u8>, at: int, b: u8)
    requires
        holds_at(bytes, at, seq![b]),
    ensures
        byte_at(bytes, at) == Some((b, at + 1)),
{
    assert(bytes.subrange(at, at + 1)[0] == b);
}

proof fn lemma_flag_at(bytes: Seq<u8>, at: int, b: bool)
    requires
        holds_at(bytes, at, flag_bytes(b)),
    ensures
        flag_at(bytes, at) == Some((b, at + 1)),
{
    assert(bytes.subrange(at, at + 1)[0] == flag_bytes(b)[0]);
}

proof fn lemma_optional_key_at(bytes: Seq<u8>, at: int, key: Option<Pubkey>)
    requires
        holds_at(bytes, at, optional_key_bytes(key)),
    ensures
        optional_key_at(bytes, at) == Some((key, at + optional_key_bytes(key).len())),
{
    match key {
        Some(k) => {
            lemma_key_of(k);
            lemma_holds_split(bytes, at, seq![1u8], k.bytes@);
            assert(bytes.subrange(at, at + 1)[0] == 1u8);
            lemma_key_at(bytes, at + 1, k);
        },
        None => {
            assert(bytes.subrange(at, at + 1)[0] == 0u8);
        },
    }
}

proof fn lemma_text_at(bytes: Seq<u8>, at: int, max: int, text: Seq<char>)
    requires
        stored_len(text) <= max <= u32::MAX,
        holds_at(bytes, at, text_bytes(text)),
    ensures
        text_at(bytes, at, max) == Some((text, at + text_bytes(text).len())),
{
    lemma_auto_spec_u32_to_from_le_bytes();
    lemma_holds_split(bytes, at, spec_u32_to_le_bytes(stored_len(text) as u32), encode_utf8(text));
    encode_utf8_valid_utf8(text);
    encode_utf8_decode_utf8(text);
}

/// Bytes that store a vault decode to that vault.
proof fn lemma_decode_complete(bytes: Seq<u8>, w: VaultView)
    requires
        stores(bytes, w),
    ensures
        decode(bytes) == Some(w),
{
    lemma_piece_lengths();
    let e0 = record_tag();
    let e1 = e0 + w.owner.bytes@;
    let e2 = e1 + w.recipient.bytes@;
    let e3 = e2 + text_bytes(w.payload_reference);
    let e4 = e3 + text_bytes(w.encrypted_key);
    let e5 = e4 + i64_bytes(w.time_interval);
    let e6 = e5 + i64_bytes(w.last_check_in);
    let e7 = e6 + flag_bytes(w.is_released);
    let e8 = e7 + u64_bytes(w.derivation_seed);
    let e9 = e8 + seq![w.derivation_proof];
    let e10 = e9 + optional_key_bytes(w.delegate);
    let e11 = e10 + u64_bytes(w.bounty);
    let e12 = e11 + text_bytes(w.name);
    let e13 = e12 + u64_bytes(w.locked_native_amount);
    let e14 = e13 + optional_key_bytes(w.asset_mint);
    let e15 = e14 + u64_bytes(w.locked_asset_amount);
    assert(e15 == w.encoding());
    lemma_holds_split(bytes, 0, e14, u64_bytes(w.locked_asset_amount));
    lemma_holds_split(bytes, 0, e13, optional_key_bytes(w.asset_mint));
    lemma_holds_split(bytes, 0, e12, u64_bytes(w.locked_native_amount));
    lemma_holds_split(bytes, 0, e11, text_bytes(w.name));
    lemma_holds_split(bytes, 0, e10, u64_bytes(w.bounty));
    lemma_holds_split(bytes, 0, e9, optional_key_bytes(w.delegate));
    lemma_holds_split(bytes, 0, e8, seq![w.derivation_proof]);
    lemma_holds_split(bytes, 0, e7, u64_bytes(w.derivation_seed));
    lemma_holds_split(bytes, 0, e6, flag_bytes(w.is_released));
    lemma_holds_split(bytes, 0, e5, i64_bytes(w.last_check_in));
    lemma_holds_split(bytes, 0, e4, i64_bytes(w.time_interval));
    lemma_holds_split(bytes, 0, e3, text_bytes(w.encrypted_key));
    lemma_holds_split(bytes, 0, e2, text_bytes(w.payload_reference));
    lemma_holds_split(bytes, 0, e1, w.recipient.bytes@);
    lemma_holds_split(bytes, 0, e0, w.owner.bytes@);
    lemma_key_of(w.owner);
    lemma_key_of(w.recipient);

    lemma_text_at(bytes, e11.len() as int, MAX_VAULT_NAME_LEN as int, w.name);
    lemma_u64_at(bytes, e12.len() as int, w.locked_native_amount);
    lemma_optional_key_at(bytes, e13.len() as int, w.asset_mint);
    lemma_u64_at(bytes, e14.len() as int, w.locked_asset_amount);
    let end = decode_end(bytes, e11.len() as int);
    assert(end is Some && end->0.name == w.name && end->0.locked_native_amount
        == w.locked_native_amount && end->0.asset_mint == w.asset_mint
        && end->0.locked_asset_amount == w.locked_asset_amount);

    lemma_i64_at(bytes, e4.len() as int, w.time_interval);
    lemma_i64_at(bytes, e5.len() as int, w.last_check_in);
    lemma_flag_at(bytes, e6.len() as int, w.is_released);
    lemma_u64_at(bytes, e7.len() as int, w.derivation_seed);
    lemma_byte_at(bytes, e8.len() as int, w.derivation_proof);
    lemma_optional_key_at(bytes, e9.len() as int, w.delegate);
    lemma_u64_at(bytes, e10.len() as int, w.bounty);
    let rest = decode_rest(bytes, e4.len() as int);
    assert(rest is Some && rest->0 == VaultView {
        time_interval: w.time_interval,
        last_check_in: w.last_check_in,
        is_released: w.is_released,
        derivation_seed: w.derivation_seed,
        derivation_proof: w.derivation_proof,
        delegate: w.delegate,
        bounty: w.bounty,
        ..end->0
    });

    lemma_tag_at(bytes, 0);
    lemma_key_at(bytes, e0.len() as int, w.owner);
    lemma_key_at(bytes, e1.len() as int, w.recipient);
    lemma_text_at(bytes, e2.len() as int, MAX_PAYLOAD_REFERENCE_LEN as int, w.payload_reference);
    lemma_text_at(bytes, e3.len() as int, MAX_ENCRYPTED_KEY_LEN as int, w.encrypted_key);
}

/// Bytes store at most one vault.
pub proof fn lemma_stored_vault_is_unique(bytes: Seq<u8>, a: VaultView, b: VaultView)
    requires
        stores(bytes, a),
        stores(bytes, b),
    ensures
        a == b,
{
    lemma_decode_complete(bytes, a);
    lemma_decode_complete(bytes, b);
}

/// The error of `String::from_utf8`. Nothing is read from it.
#[verifier::external_type_specification]
#[verifier::external_body]
pub struct ExFromUtf8Error(std::string::FromUtf8Error);

/// Calls `String::from_utf8` of std. Taken on trust, as std documents it: the
/// call succeeds exactly for bytes that are valid UTF-8, and the string it
/// returns consists of the bytes given.
#[verifier::external_body]
fn string_from_utf8(bytes: Vec<u8>) -> (r: Result<String, std::string::FromUtf8Error>)
    ensures
        r is Ok <==> valid_utf8(bytes@),
        r matches Ok(s) ==> encode_utf8(s@) == bytes@,
{
    String::from_utf8(bytes)
}

// The readers: each finds at `at` what its spec function says, and knows that
// the piece it found stands there.

fn read_tag(bytes: &[u8], at: usize) -> (r: Option<usize>)
    requires
        at <= bytes@.len(),
    ensures
        match tag_at(bytes@, at as int) {
            Some(next) => r == Some(next as usize) && next <= bytes@.len() && holds_at(
                bytes@,
                at as int,
                record_tag(),
            ),
            None => r is None,
        },
{
    if bytes.len() - at < 8 {
        return None;
    }
    let ok = bytes[at] == 211u8 && bytes[at + 1] == 8u8 && bytes[at + 2] == 232u8 && bytes[at + 3]
        == 43u8 && bytes[at + 4] == 2u8 && bytes[at + 5] == 152u8 && bytes[at + 6] == 117u8
        && bytes[at + 7] == 119u8;
    proof {
        let piece = bytes@.subrange(at as int, at + 8);
        assert(forall|i: int| 0 <= i < 8 ==> piece[i] == bytes@[at + i]);
        if ok {
            assert(piece =~= record_tag());
        } else {
            assert(piece[0] == bytes@[at + 0]);
        }
    }
    if ok {
        Some(at + 8)
    } else {
        None
    }
}

fn read_key(bytes: &[u8], at: usize) -> (r: Option<(Pubkey, usize)>)
    requires
        at <= bytes@.len(),
    ensures
        match key_at(bytes@, at as int) {
            Some((key, next)) => r == Some((key, next as usize)) && next <= bytes@.len()
                && holds_at(bytes@, at as int, key.bytes@),
            None => r is None,
        },
{
    if bytes.len() - at < 32 {
        return None;
    }
    let mut key = Pubkey { bytes: [0u8; 32] };
    let mut i: usize = 0;
    while i < 32
        invariant
            i <= 32,
            at + 32 <= bytes.len(),
            forall|j: int| 0 <= j < i ==> key.bytes@[j] == bytes@[at + j],
        decreases 32 - i,
    {
        key.bytes[i] = bytes[at + i];
        i += 1;
    }
    proof {
        assert(key.bytes@ =~= bytes@.subrange(at as int, at + 32));
        lemma_key_of(key);
    }
    Some((key, at + 32))
}

fn read_u64(bytes: &[u8], at: usize) -> (r: Option<(u64, usize)>)
    requires
        at <= bytes@.len(),
    ensures
        match u64_at(bytes@, at as int) {
            Some((x, next)) => r == Some((x, next as usize)) && next <= bytes@.len() && holds_at(
                bytes@,
                at as int,
                u64_bytes(x),
            ),
            None => r is None,
        },
{
    if bytes.len() - at < 8 {
        return None;
    }
    let x = u64_from_le_bytes(slice_subrange(bytes, at, at + 8));
    proof {
        lemma_auto_spec_u64_to_from_le_bytes();
    }
    Some((x, at + 8))
}

fn read_i64(bytes: &[u8], at: usize) -> (r: Option<(i64, usize)>)
    requires
        at <= bytes@.len(),
    ensures
        match i64_at(bytes@, at as int) {
            Some((x, next)) => r == Some((x, next as usize)) && next <= bytes@.len() && holds_at(
                bytes@,
                at as int,
                i64_bytes(x),
            ),
            None => r is None,
        },
{
    if bytes.len() - at < 8 {
        return None;
    }
    let u = u64_from_le_bytes(slice_subrange(bytes, at, at + 8));
    let x = u as i64;
    proof {
        lemma_auto_spec_u64_to_from_le_bytes();
        assert((u as i64) as u64 == u) by (bit_vector);
    }
    Some((x, at + 8))
}

fn read_byte(bytes: &[u8], at: usize) -> (r: Option<(u8, usize)>)
    requires
        at <= bytes@.len(),
    ensures
        match byte_at(bytes@, at as int) {
            Some((b, next)) => r == Some((b, next as usize)) && next <= bytes@.len() && holds_at(
                bytes@,
                at as int,
                seq![b],
            ),
            None => r is None,
        },
{
    if bytes.len() - at < 1 {
        return None;
    }
    let b = bytes[at];
    assert(bytes@.subrange(at as int, at + 1) =~= seq![b]);
    Some((b, at + 1))
}

fn read_flag(bytes: &[u8], at: usize) -> (r: Option<(bool, usize)>)
    requires
        at <= bytes@.len(),
    ensures
        match flag_at(bytes@, at as int) {
            Some((b, next)) => r == Some((b, next as usize)) && next <= bytes@.len() && holds_at(
                bytes@,
                at as int,
                flag_bytes(b),
            ),
            None => r is None,
        },
{
    if bytes.len() - at < 1 {
        return None;
    }
    let b = bytes[at];
    if b > 1 {
        return None;
    }
    assert(bytes@.subrange(at as int, at + 1) =~= flag_bytes(b == 1));
    Some((b == 1, at + 1))
}

fn read_optional_key(bytes: &[u8], at: usize) -> (r: Option<(Option<Pubkey>, usize)>)
    requires
        at <= bytes@.len(),
    ensures
        match optional_key_at(bytes@, at as int) {
            Some((key, next)) => r == Some((key, next as usize)) && next <= bytes@.len() && next
                == at + optional_key_bytes(key).len() && holds_at(
                bytes@,
                at as int,
                optional_key_bytes(key),
            ),
            None => r is None,
        },
{
    if bytes.len() - at < 1 {
        return None;
    }
    let b = bytes[at];
    if b == 0 {
        assert(bytes@.subrange(at as int, at + 1) =~= optional_key_bytes(None));
        Some((None, at + 1))
    } else if b == 1 {
        match read_key(bytes, at + 1) {
            Some((key, next)) => {
                proof {
                    lemma_key_of(key);
                    assert(bytes@.subrange(at as int, at + 33) =~= seq![1u8] + bytes@.subrange(
                        at + 1,
                        at + 33,
                    ));
                }
                Some((Some(key), next))
            },
            None => None,
        }
    } else {
        None
    }
}

fn read_text(bytes: &[u8], at: usize, max: usize) -> (r: Option<(String, usize)>)
    requires
        at <= bytes@.len(),
        max <= u32::MAX,
    ensures
        match text_at(bytes@, at as int, max as int) {
            Some((text, next)) => {
                &&& r matches Some((s, n))
                &&& s@ == text
                &&& n == next
                &&& next <= bytes@.len()
                &&& next == at + text_bytes(text).len()
                &&& stored_len(text) <= max
                &&& holds_at(bytes@, at as int, text_bytes(text))
            },
            None => r is None,
        },
{
    if bytes.len() - at < 4 {
        return None;
    }
    let n = u32_from_le_bytes(slice_subrange(bytes, at, at + 4)) as usize;
    if n > max || bytes.len() - at - 4 < n {
        return None;
    }
    let body = slice_to_vec(slice_subrange(bytes, at + 4, at + 4 + n));
    match string_from_utf8(body) {
        Ok(s) => {
            proof {
                let raw = bytes@.subrange(at + 4, at + 4 + n);
                encode_utf8_decode_utf8(s@);
                lemma_auto_spec_u32_to_from_le_bytes();
                assert(bytes@.subrange(at as int, at + 4 + n) =~= bytes@.subrange(
                    at as int,
                    at + 4,
                ) + raw);
            }
            Some((s, at + 4 + n))
        },
        Err(_) => None,
    }
}

// The writers: each appends one piece.

fn put_key(out: &mut Vec<u8>, key: &Pubkey)
    ensures
        final(out)@ == old(out)@ + key.bytes@,
{
    let mut piece = slice_to_vec(key.bytes.as_slice());
    out.append(&mut piece);
}

fn put_u64(out: &mut Vec<u8>, x: u64)
    ensures
        final(out)@ == old(out)@ + u64_bytes(x),
{
    let mut piece = u64_to_le_bytes(x);
    out.append(&mut piece);
}

fn put_i64(out: &mut Vec<u8>, x: i64)
    ensures
        final(out)@ == old(out)@ + i64_bytes(x),
{
    let mut piece = u64_to_le_bytes(x as u64);
    out.append(&mut piece);
}

fn put_flag(out: &mut Vec<u8>, b: bool)
    ensures
        final(out)@ == old(out)@ + flag_bytes(b),
{
    out.push(if b { 1u8 } else { 0u8 });
}

fn put_text(out: &mut Vec<u8>, s: &String)
    requires
        stored_len(s@) <= u32::MAX,
    ensures
        final(out)@ == old(out)@ + text_bytes(s@),
{
    let mut bytes = slice_to_vec(s.as_str().as_bytes());
    let mut prefix = u32_to_le_bytes(bytes.len() as u32);
    out.append(&mut prefix);
    out.append(&mut bytes);
}

fn put_optional_key(out: &mut Vec<u8>, k: &Option<Pubkey>)
    ensures
        final(out)@ == old(out)@ + optional_key_bytes(*k),
{
    match k {
        Some(key) => {
            out.push(1u8);
            put_key(out, key);
        },
        None => {
            out.push(0u8);
        },
    }
}

impl Vault {
    /// The size of the slot that a record is stored in.
    pub const SPACE: usize = SPACE;

    /// Whether every bounded field is within its maximum.
    pub fn within_bounds(&self) -> (r: bool)
        ensures
            r == self@.within_bounds(),
    {
        byte_len(&self.payload_reference) <= MAX_PAYLOAD_REFERENCE_LEN && byte_len(
            &self.encrypted_key,
        ) <= MAX_ENCRYPTED_KEY_LEN && byte_len(&self.name) <= MAX_VAULT_NAME_LEN
    }

    /// The stored form of the record, or `None` where a bounded field exceeds
    /// its maximum. The stored form always has the size of the slot.
    pub fn pack(&self) -> (r: Option<Vec<u8>>)
        ensures
            r is Some <==> self@.within_bounds(),
            r matches Some(bytes) ==> bytes@ == self@.record() && bytes@.len() == SPACE,
    {
        if !self.within_bounds() {
            return None;
        }
        proof {
            lemma_record_fills_the_slot(self@);
        }
        let mut out: Vec<u8> = Vec::with_capacity(SPACE);
        out.push(211u8);
        out.push(8u8);
        out.push(232u8);
        out.push(43u8);
        out.push(2u8);
        out.push(152u8);
        out.push(117u8);
        out.push(119u8);
        assert(out@ == record_tag());
        put_key(&mut out, &self.owner);
        put_key(&mut out, &self.recipient);
        put_text(&mut out, &self.payload_reference);
        put_text(&mut out, &self.encrypted_key);
        put_i64(&mut out, self.time_interval);
        put_i64(&mut out, self.last_check_in);
        put_flag(&mut out, self.is_released);
        put_u64(&mut out, self.derivation_seed);
        out.push(self.derivation_proof);
        put_optional_key(&mut out, &self.delegate);
        put_u64(&mut out, self.bounty);
        put_text(&mut out, &self.name);
        put_u64(&mut out, self.locked_native_amount);
        put_optional_key(&mut out, &self.asset_mint);
        put_u64(&mut out, self.locked_asset_amount);
        assert(out@ == self@.encoding());
        let ghost encoded = out@;
        while out.len() < SPACE
            invariant
                encoded.len() <= out@.len() <= SPACE,
                out@ == encoded + Seq::new((out@.len() - encoded.len()) as nat, |i: int| 0u8),
            decreases SPACE - out@.len(),
        {
            out.push(0u8);
        }
        Some(out)
    }

    /// The vault that `bytes` store: the one vault whose bounded fields are
    /// within their maxima and whose encoding `bytes` begin with, or `None`
    /// where there is no such vault. Bytes behind the encoding are not looked
    /// at.
    pub fn unpack(bytes: &[u8]) -> (r: Option<Vault>)
        ensures
            r matches Some(vault) ==> stores(bytes@, vault@),
            forall|w: VaultView| stores(bytes@, w) ==> (r matches Some(vault) && vault@ == w),
            forall|w: VaultView|
                w.within_bounds() && bytes@ == w.record() ==> (r matches Some(vault) && vault@
                    == w),
    {
        let r = read_vault(bytes);
        proof {
            assert forall|w: VaultView| stores(bytes@, w) implies (r matches Some(vault)
                && vault@ == w) by {
                lemma_decode_complete(bytes@, w);
            }
            assert forall|w: VaultView| w.within_bounds() && bytes@ == w.record() implies stores(
                bytes@,
                w,
            ) by {
                lemma_record_fills_the_slot(w);
            }
        }
        r
    }
}

/// Reads a vault from the front of `bytes`, piece by piece.
fn read_vault(bytes: &[u8]) -> (r: Option<Vault>)
    ensures
        match decode(bytes@) {
            Some(v) => r matches Some(vault) && vault@ == v && stores(bytes@, v),
            None => r is None,
        },
{
    assert(bytes@.len() <= usize::MAX) by {
        assert(bytes@.len() == bytes.len());
    }
    let at0 = match read_tag(bytes, 0) {
        Some(next) => next,
        None => {
            return None;
        },
    };
    let (owner, at1) = match read_key(bytes, at0) {
        Some(found) => found,
        None => {
            return None;
        },
    };
    let (recipient, at2) = match read_key(bytes, at1) {
        Some(found) => found,
        None => {
            return None;
        },
    };
    let (payload_reference, at3) = match read_text(bytes, at2, MAX_PAYLOAD_REFERENCE_LEN) {
        Some(found) => found,
        None => {
            return None;
        },
    };
    let (encrypted_key, at4) = match read_text(bytes, at3, MAX_ENCRYPTED_KEY_LEN) {
        Some(found) => found,
        None => {
            return None;
        },
    };
    let ghost e0 = record_tag();
    let ghost e1 = e0 + owner.bytes@;
    let ghost e2 = e1 + recipient.bytes@;
    let ghost e3 = e2 + text_bytes(payload_reference@);
    let ghost e4 = e3 + text_bytes(encrypted_key@);
    proof {
        lemma_piece_lengths();
        lemma_key_of(owner);
        lemma_key_of(recipient);
        lemma_holds_join(bytes@, 0, e0, owner.bytes@);
        lemma_holds_join(bytes@, 0, e1, recipient.bytes@);
        lemma_holds_join(bytes@, 0, e2, text_bytes(payload_reference@));
        lemma_holds_join(bytes@, 0, e3, text_bytes(encrypted_key@));
    }
    read_rest(bytes, at4, Ghost(e4), owner, recipient, payload_reference, encrypted_key)
}

/// Reads the fields behind the encrypted key from offset `at`, and puts the
/// vault together. The bytes before `at` are `head`.
fn read_rest(
    bytes: &[u8],
    at: usize,
    Ghost(head): Ghost<Seq<u8>>,
    owner: Pubkey,
    recipient: Pubkey,
    payload_reference: String,
    encrypted_key: String,
) -> (r: Option<Vault>)
    requires
        at == head.len(),
        holds_at(bytes@, 0, head),
    ensures
        match decode_rest(bytes@, at as int) {
            Some(v) => {
                &&& r matches Some(vault)
                &&& vault@ == VaultView {
                    owner,
                    recipient,
                    payload_reference: payload_reference@,
                    encrypted_key: encrypted_key@,
                    ..v
                }
                &&& stored_len(v.name) <= MAX_VAULT_NAME_LEN
                &&& holds_at(
                    bytes@,
                    0,
                    head + i64_bytes(v.time_interval) + i64_bytes(v.last_check_in) + flag_bytes(
                        v.is_released,
                    ) + u64_bytes(v.derivation_seed) + seq![v.derivation_proof]
                        + optional_key_bytes(v.delegate) + u64_bytes(v.bounty) + text_bytes(v.name)
                        + u64_bytes(v.locked_native_amount) + optional_key_bytes(v.asset_mint)
                        + u64_bytes(v.locked_asset_amount),
                )
            },
            None => r is None,
        },
{
    assert(bytes@.len() <= usize::MAX) by {
        assert(bytes@.len() == bytes.len());
    }
    let (time_interval, at5) = match read_i64(bytes, at) {
        Some(found) => found,
        None => {
            return None;
        },
    };
    let (last_check_in, at6) = match read_i64(bytes, at5) {
        Some(found) => found,
        None => {
            return None;
        },
    };
    let (is_released, at7) = match read_flag(bytes, at6) {
        Some(found) => found,
        None => {
            return None;
        },
    };
    let (derivation_seed, at8) = match read_u64(bytes, at7) {
        Some(found) => found,
        None => {
            return None;
        },
    };
    let (derivation_proof, at9) = match read_byte(bytes, at8) {
        Some(found) => found,
        None => {
            return None;
        },
    };
    let (delegate, at10) = match read_optional_key(bytes, at9) {
        Some(found) => found,
        None => {
            return None;
        },
    };
    let (bounty, at11) = match read_u64(bytes, at10) {
        Some(found) => found,
        None => {
            return None;
        },
    };
    let ghost e5 = head + i64_bytes(time_interval);
    let ghost e6 = e5 + i64_bytes(last_check_in);
    let ghost e7 = e6 + flag_bytes(is_released);
    let ghost e8 = e7 + u64_bytes(derivation_seed);
    let ghost e9 = e8 + seq![derivation_proof];
    let ghost e10 = e9 + optional_key_bytes(delegate);
    let ghost e11 = e10 + u64_bytes(bounty);
    proof {
        lemma_piece_lengths();
        lemma_holds_join(bytes@, 0, head, i64_bytes(time_interval));
        lemma_holds_join(bytes@, 0, e5, i64_bytes(last_check_in));
        lemma_holds_join(bytes@, 0, e6, flag_bytes(is_released));
        lemma_holds_join(bytes@, 0, e7, u64_bytes(derivation_seed));
        lemma_holds_join(bytes@, 0, e8, seq![derivation_proof]);
        lemma_holds_join(bytes@, 0, e9, optional_key_bytes(delegate));
        lemma_holds_join(bytes@, 0, e10, u64_bytes(bounty));
    }
    read_end(
        bytes,
        at11,
        Ghost(e11),
        owner,
        recipient,
        payload_reference,
        encrypted_key,
        time_interval,
        last_check_in,
        is_released,
        derivation_seed,
        derivation_proof,
        delegate,
        bounty,
    )
}

/// Reads the fields from the name on from offset `at`, and puts the vault
/// together. The bytes before `at` are `head`.
fn read_end(
    bytes: &[u8],
    at: usize,
    Ghost(head): Ghost<Seq<u8>>,
    owner: Pubkey,
    recipient: Pubkey,
    payload_reference: String,
    encrypted_key: String,
    time_interval: i64,
    last_check_in: i64,
    is_released: bool,
    derivation_seed: u64,
    derivation_proof: u8,
    delegate: Option<Pubkey>,
    bounty: u64,
) -> (r: Option<Vault>)
    requires
        at == head.len(),
        holds_at(bytes@, 0, head),
    ensures
        match decode_end(bytes@, at as int) {
            Some(v) => {
                &&& r matches Some(vault)
                &&& vault@ == VaultView {
                    owner,
                    recipient,
                    payload_reference: payload_reference@,
                    encrypted_key: encrypted_key@,
                    time_interval,
                    last_check_in,
                    is_released,
                    derivation_seed,
                    derivation_proof,
                    delegate,
                    bounty,
                    ..v
                }
                &&& stored_len(v.name) <= MAX_VAULT_NAME_LEN
                &&& holds_at(
                    bytes@,
                    0,
                    head + text_bytes(v.name) + u64_bytes(v.locked_native_amount)
                        + optional_key_bytes(v.asset_mint) + u64_bytes(v.locked_asset_amount),
                )
            },
            None => r is None,
        },
{
    assert(bytes@.len() <= usize::MAX) by {
        assert(bytes@.len() == bytes.len());
    }
    let (name, at12) = match read_text(bytes, at, MAX_VAULT_NAME_LEN) {
        Some(found) => found,
        None => {
            return None;
        },
    };
    let (locked_native_amount, at13) = match read_u64(bytes, at12) {
        Some(found) => found,
        None => {
            return None;
        },
    };
    let (asset_mint, at14) = match read_optional_key(bytes, at13) {
        Some(found) => found,
        None => {
            return None;
        },
    };
    let (locked_asset_amount, at15) = match read_u64(bytes, at14) {
        Some(found) => found,
        None => {
            return None;
        },
    };
    let ghost e12 = head + text_bytes(name@);
    let ghost e13 = e12 + u64_bytes(locked_native_amount);
    let ghost e14 = e13 + optional_key_bytes(asset_mint);
    proof {
        lemma_piece_lengths();
        lemma_holds_join(bytes@, 0, head, text_bytes(name@));
        lemma_holds_join(bytes@, 0, e12, u64_bytes(locked_native_amount));
        lemma_holds_join(bytes@, 0, e13, optional_key_bytes(asset_mint));
        lemma_holds_join(bytes@, 0, e14, u64_bytes(locked_asset_amount));
    }
    Some(
        Vault {
            owner,
            recipient,
            payload_reference,
            encrypted_key,
            time_interval,
            last_check_in,
            is_released,
            derivation_seed,
            derivation_proof,
            delegate,
            bounty,
            name,
            locked_native_amount,
            asset_mint,
            locked_asset_amount,
        },
    )
}

} // verus!
