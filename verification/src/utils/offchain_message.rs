//! The off-chain message that an Ed25519 signer signs for an agreement.
//!
//! The message is the signing domain of Solana off-chain messages, a header
//! version byte, a message format byte, the length of the body in two
//! little-endian bytes, and the body. The body is the agreement in Borsh form:
//! the number of pairs, then for each pair its key and its value, each a byte
//! string behind its length; every count is four little-endian bytes.
use vstd::prelude::*;
use vstd::utf8::encode_utf8;

use crate::utils::bytes::{
    extend, push_u16_le, push_u32_le, u16_le, u16_le_at, u32_le, u32_le_is_injective,
};
use crate::utils::ed25519::ErrorCode;

verus! {

/// One entry of an agreement.
#[derive(Debug, Clone, PartialEq, Eq)]
pub struct KeyValuePair {
    pub key: String,
    pub value: String,
}

/// What is signed of a pair: the UTF-8 bytes of its key and of its value.
pub ghost struct Pair {
    pub key: Seq<u8>,
    pub value: Seq<u8>,
}

impl View for KeyValuePair {
    type V = Pair;

    open spec fn view(&self) -> Pair {
        Pair { key: encode_utf8(self.key@), value: encode_utf8(self.value@) }
    }
}

impl DeepView for KeyValuePair {
    type V = Pair;

    open spec fn deep_view(&self) -> Pair {
        self@
    }
}

/// `\xffsolana offchain`, the signing domain of off-chain messages.
pub const SIGNING_DOMAIN: [u8; 16] = [
    0xff, 0x73, 0x6f, 0x6c, 0x61, 0x6e, 0x61, 0x20, 0x6f, 0x66, 0x66, 0x63, 0x68, 0x61, 0x69, 0x6e,
];

/// The header version that every message carries.
pub const HEADER_VERSION: u8 = 0;

/// The message format that every message carries.
pub const MESSAGE_FORMAT: u8 = 0;

/// A byte string behind its length.
pub open spec fn length_prefixed(bytes: Seq<u8>) -> Seq<u8> {
    u32_le(bytes.len() as u32) + bytes
}

/// One pair in Borsh form: the key, then the value.
pub open spec fn serialized_pair(pair: Pair) -> Seq<u8> {
    length_prefixed(pair.key) + length_prefixed(pair.value)
}

/// The pairs of an agreement in Borsh form, one behind the other.
pub open spec fn joined_pairs(kv_pairs: Seq<Pair>) -> Seq<u8> {
    kv_pairs.flat_map(|pair: Pair| serialized_pair(pair))
}

/// An agreement in Borsh form: the number of pairs, then the pairs in order.
pub open spec fn serialized_pairs(kv_pairs: Seq<Pair>) -> Seq<u8> {
    u32_le(kv_pairs.len() as u32) + joined_pairs(kv_pairs)
}

/// Whether the number of pairs, and the length of every key and value, can
/// be written in four bytes.
pub open spec fn lengths_fit(kv_pairs: Seq<Pair>) -> bool {
    &&& kv_pairs.len() <= u32::MAX
    &&& forall|i: int|
        0 <= i < kv_pairs.len() ==> {
            &&& (#[trigger] kv_pairs[i]).key.len() <= u32::MAX
            &&& kv_pairs[i].value.len() <= u32::MAX
        }
}

/// The message to sign for an agreement. The length field holds the length
/// of the body modulo 65536.
pub open spec fn offchain_message(kv_pairs: Seq<Pair>) -> Seq<u8> {
    let body = serialized_pairs(kv_pairs);
    SIGNING_DOMAIN@ + seq![HEADER_VERSION, MESSAGE_FORMAT] + u16_le((body.len() % 65536) as u16)
        + body
}

/// Appends `bytes` behind its length, unless the length needs more than four
/// bytes.
fn push_length_prefixed(dst: &mut Vec<u8>, bytes: &[u8]) -> (fits: bool)
    ensures
        fits == (bytes@.len() <= u32::MAX),
        fits ==> final(dst)@ == old(dst)@ + length_prefixed(bytes@),
        !fits ==> final(dst)@ == old(dst)@,
{
    if bytes.len() > u32::MAX as usize {
        return false;
    }
    push_u32_le(dst, bytes.len() as u32);
    extend(dst, bytes);
    true
}

/// Joining one pair more appends its Borsh form.
proof fn joined_pairs_push(kv_pairs: Seq<Pair>, pair: Pair)
    ensures
        joined_pairs(kv_pairs.push(pair)) == joined_pairs(kv_pairs) + serialized_pair(pair),
{
    let each = |pair: Pair| serialized_pair(pair);
    assert(kv_pairs.push(pair).map_values(each) == kv_pairs.map_values(each).push(each(pair)));
    kv_pairs.map_values(each).lemma_flatten_push(each(pair));
}

/// Writes the agreement in Borsh form, or fails where a length needs more
/// than four bytes.
fn serialize_pairs(kv_pairs: &Vec<KeyValuePair>) -> (r: Option<Vec<u8>>)
    ensures
        lengths_fit(kv_pairs.deep_view()) <==> r is Some,
        r matches Some(body) ==> body@ == serialized_pairs(kv_pairs.deep_view()),
{
    let ghost pairs = kv_pairs.deep_view();
    if kv_pairs.len() > u32::MAX as usize {
        return None;
    }
    let mut body: Vec<u8> = Vec::new();
    push_u32_le(&mut body, kv_pairs.len() as u32);
    assert(joined_pairs(pairs.take(0)) == Seq::<u8>::empty());
    let mut i: usize = 0;
    while i < kv_pairs.len()
        invariant
            i <= kv_pairs@.len() <= u32::MAX,
            pairs == kv_pairs.deep_view(),
            lengths_fit(pairs.take(i as int)),
            body@ == u32_le(pairs.len() as u32) + joined_pairs(pairs.take(i as int)),
        decreases kv_pairs@.len() - i,
    {
        let pair = &kv_pairs[i];
        assert(pair@ == pairs[i as int]);
        let key_fits = push_length_prefixed(&mut body, pair.key.as_str().as_bytes());
        if !key_fits {
            return None;
        }
        let value_fits = push_length_prefixed(&mut body, pair.value.as_str().as_bytes());
        if !value_fits {
            return None;
        }
        proof {
            assert(pairs.take(i + 1) == pairs.take(i as int).push(pairs[i as int]));
            joined_pairs_push(pairs.take(i as int), pairs[i as int]);
        }
        i += 1;
    }
    assert(pairs.take(i as int) == pairs);
    Some(body)
}

/// Builds the message that the signer of an agreement signs.
///
/// Fails with [`ErrorCode::LengthOverflow`] exactly when the number of
/// pairs, or the length in bytes of a key or of a value, exceeds `u32::MAX`.
pub fn format_message(kv_pairs: &Vec<KeyValuePair>) -> (r: Result<Vec<u8>, ErrorCode>)
    ensures
        lengths_fit(kv_pairs.deep_view()) ==> (r matches Ok(message) && message@
            == offchain_message(kv_pairs.deep_view())),
        !lengths_fit(kv_pairs.deep_view()) ==> r == Err::<Vec<u8>, ErrorCode>(
            ErrorCode::LengthOverflow,
        ),
{
    let mut data: Vec<u8> = Vec::new();
    extend(&mut data, &SIGNING_DOMAIN);
    data.push(HEADER_VERSION);
    data.push(MESSAGE_FORMAT);
    match serialize_pairs(kv_pairs) {
        None => Err(ErrorCode::LengthOverflow),
        Some(serialized_message) => {
            push_u16_le(&mut data, (serialized_message.len() % 65536) as u16);
            extend(&mut data, serialized_message.as_slice());
            Ok(data)
        },
    }
}

/// The outcome is a function of the agreement: whatever is returned for the
/// same keys and values in the same order is the same, byte for byte.
pub proof fn message_is_determined(
    kv_pairs: Seq<Pair>,
    first: Result<Vec<u8>, ErrorCode>,
    second: Result<Vec<u8>, ErrorCode>,
)
    requires
        lengths_fit(kv_pairs) ==> (first matches Ok(message) && message@ == offchain_message(
            kv_pairs,
        )),
        !lengths_fit(kv_pairs) ==> first == Err::<Vec<u8>, ErrorCode>(ErrorCode::LengthOverflow),
        lengths_fit(kv_pairs) ==> (second matches Ok(message) && message@ == offchain_message(
            kv_pairs,
        )),
        !lengths_fit(kv_pairs) ==> second == Err::<Vec<u8>, ErrorCode>(ErrorCode::LengthOverflow),
    ensures
        first is Ok <==> second is Ok,
        first is Ok ==> first->Ok_0@ == second->Ok_0@,
        first is Err ==> first == second,
{
}

/// The most pairs that a stored agreement has room for.
pub const MAX_PAIRS: usize = 25;

/// The most bytes that a stored key, or a stored value, has room for.
pub const MAX_TEXT_SIZE: usize = 50;

/// The most bytes that the Borsh form of an agreement within these limits
/// takes.
pub const MAX_SERIALIZED_SIZE: usize = 2704;

/// Whether an agreement has at most 25 pairs, each with a key and a value of
/// at most 50 bytes.
pub open spec fn within_limits(kv_pairs: Seq<Pair>) -> bool {
    &&& kv_pairs.len() <= MAX_PAIRS
    &&& forall|i: int|
        0 <= i < kv_pairs.len() ==> {
            &&& (#[trigger] kv_pairs[i]).key.len() <= MAX_TEXT_SIZE
            &&& kv_pairs[i].value.len() <= MAX_TEXT_SIZE
        }
}

/// An agreement within the limits has a message: its Borsh form takes at
/// most 2704 bytes, so that the length field of the message holds the length
/// of the body itself.
pub proof fn bounded_agreements_have_a_message(kv_pairs: Seq<Pair>)
    requires
        within_limits(kv_pairs),
    ensures
        lengths_fit(kv_pairs),
        serialized_pairs(kv_pairs).len() <= MAX_SERIALIZED_SIZE,
        offchain_message(kv_pairs).len() == 20 + serialized_pairs(kv_pairs).len(),
        u16_le_at(offchain_message(kv_pairs), 18) == serialized_pairs(kv_pairs).len(),
{
    let parts = kv_pairs.map_values(|pair: Pair| serialized_pair(pair));
    assert forall|i: int| 0 <= i < parts.len() implies (#[trigger] parts[i]).len() <= 108 by {
        assert(parts[i] == serialized_pair(kv_pairs[i]));
    }
    parts.lemma_flatten_length_le_mul(108);
    parts.lemma_flatten_and_flatten_alt_are_equivalent();
    assert(parts.len() * 108 <= 2700) by (nonlinear_arith)
        requires
            parts.len() <= 25,
    ;
    let body = serialized_pairs(kv_pairs);
    let head = SIGNING_DOMAIN@ + seq![HEADER_VERSION, MESSAGE_FORMAT];
    let length = u16_le((body.len() % 65536) as u16);
    assert(offchain_message(kv_pairs) == head + length + body);
    assert(offchain_message(kv_pairs)[18] == length[0]);
    assert(offchain_message(kv_pairs)[19] == length[1]);
}

/// A byte string behind its length can be told from what follows it.
proof fn length_prefixed_splits(x: Seq<u8>, x_rest: Seq<u8>, y: Seq<u8>, y_rest: Seq<u8>)
    requires
        x.len() <= u32::MAX,
        y.len() <= u32::MAX,
        length_prefixed(x) + x_rest == length_prefixed(y) + y_rest,
    ensures
        x == y,
        x_rest == y_rest,
{
    let left = length_prefixed(x) + x_rest;
    let right = length_prefixed(y) + y_rest;
    assert(left.subrange(0, 4) == u32_le(x.len() as u32));
    assert(right.subrange(0, 4) == u32_le(y.len() as u32));
    u32_le_is_injective(x.len() as u32, y.len() as u32);
    assert(left.subrange(4, 4 + x.len() as int) == x);
    assert(right.subrange(4, 4 + y.len() as int) == y);
    assert(left.subrange(4 + x.len() as int, left.len() as int) == x_rest);
    assert(right.subrange(4 + y.len() as int, right.len() as int) == y_rest);
}

/// The joined pairs of an agreement are its first pair, then the others.
proof fn joined_pairs_unfold(kv_pairs: Seq<Pair>)
    requires
        kv_pairs.len() > 0,
    ensures
        joined_pairs(kv_pairs) == serialized_pair(kv_pairs.first()) + joined_pairs(
            kv_pairs.drop_first(),
        ),
{
    let each = |pair: Pair| serialized_pair(pair);
    assert(kv_pairs.map_values(each).drop_first() == kv_pairs.drop_first().map_values(each));
}

/// As many pairs, joined to the same bytes, are the same pairs.
proof fn joined_pairs_are_told_apart(a: Seq<Pair>, b: Seq<Pair>)
    requires
        a.len() == b.len(),
        lengths_fit(a),
        lengths_fit(b),
        joined_pairs(a) == joined_pairs(b),
    ensures
        a == b,
    decreases a.len(),
{
    if a.len() > 0 {
        joined_pairs_unfold(a);
        joined_pairs_unfold(b);
        let (x, y) = (a.first(), b.first());
        let (a_rest, b_rest) = (a.drop_first(), b.drop_first());
        assert(x == a[0] && y == b[0]);
        assert(serialized_pair(x) + joined_pairs(a_rest) == length_prefixed(x.key) + (
        length_prefixed(x.value) + joined_pairs(a_rest)));
        assert(serialized_pair(y) + joined_pairs(b_rest) == length_prefixed(y.key) + (
        length_prefixed(y.value) + joined_pairs(b_rest)));
        length_prefixed_splits(
            x.key,
            length_prefixed(x.value) + joined_pairs(a_rest),
            y.key,
            length_prefixed(y.value) + joined_pairs(b_rest),
        );
        length_prefixed_splits(x.value, joined_pairs(a_rest), y.value, joined_pairs(b_rest));
        assert forall|i: int| 0 <= i < a_rest.len() implies (#[trigger] a_rest[i]).key.len()
            <= u32::MAX && a_rest[i].value.len() <= u32::MAX by {
            assert(a_rest[i] == a[i + 1]);
        }
        assert forall|i: int| 0 <= i < b_rest.len() implies (#[trigger] b_rest[i]).key.len()
            <= u32::MAX && b_rest[i].value.len() <= u32::MAX by {
            assert(b_rest[i] == b[i + 1]);
        }
        joined_pairs_are_told_apart(a_rest, b_rest);
        assert(a == seq![x] + a_rest);
        assert(b == seq![y] + b_rest);
    } else {
        assert(a == b);
    }
}

/// The message tells the agreement: two agreements with the same message
/// have the same keys and values, in the same order.
pub proof fn message_determines_the_pairs(a: Seq<Pair>, b: Seq<Pair>)
    requires
        lengths_fit(a),
        lengths_fit(b),
        offchain_message(a) == offchain_message(b),
    ensures
        a == b,
{
    let (a_body, b_body) = (serialized_pairs(a), serialized_pairs(b));
    let a_message = offchain_message(a);
    let b_message = offchain_message(b);
    assert(a_message.subrange(20, a_message.len() as int) == a_body);
    assert(b_message.subrange(20, b_message.len() as int) == b_body);
    assert(a_body.subrange(0, 4) == u32_le(a.len() as u32));
    assert(b_body.subrange(0, 4) == u32_le(b.len() as u32));
    u32_le_is_injective(a.len() as u32, b.len() as u32);
    assert(a_body.subrange(4, a_body.len() as int) == joined_pairs(a));
    assert(b_body.subrange(4, b_body.len() as int) == joined_pairs(b));
    joined_pairs_are_told_apart(a, b);
}

} // verus!
