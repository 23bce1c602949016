//! Fixed-width little-endian encoding of the argument types that cross the
//! call boundary, delegated to the SCALE codec.

use parity_scale_codec::Error as ScaleError;
use vstd::prelude::*;

verus! {

/// The bytes of `x` in little-endian order, `n` of them.
pub open spec fn le_bytes(x: nat, n: nat) -> Seq<u8>
    decreases n,
{
    if n == 0 {
        Seq::empty()
    } else {
        seq![(x % 256) as u8] + le_bytes(x / 256, (n - 1) as nat)
    }
}

/// The number that the bytes `s` denote, read in little-endian order.
pub open spec fn le_value(s: Seq<u8>) -> nat
    decreases s.len(),
{
    if s.len() == 0 {
        0
    } else {
        s[0] as nat + 256 * le_value(s.drop_first())
    }
}

/// `256` to the power `n`: the first number that `n` bytes cannot hold.
pub open spec fn byte_bound(n: nat) -> nat
    decreases n,
{
    if n == 0 {
        1
    } else {
        256 * byte_bound((n - 1) as nat)
    }
}

/// Reading back the `n` little-endian bytes of a number that fits gives the number.
pub proof fn lemma_le_round_trip(x: nat, n: nat)
    requires
        x < byte_bound(n),
    ensures
        le_bytes(x, n).len() == n,
        le_value(le_bytes(x, n)) == x,
    decreases n,
{
    if n > 0 {
        let m = (n - 1) as nat;
        let bb = byte_bound(m);
        assert(x / 256 < bb) by (nonlinear_arith)
            requires
                x < 256 * bb,
        ;
        lemma_le_round_trip(x / 256, m);
        let s = le_bytes(x, n);
        assert(s.drop_first() =~= le_bytes(x / 256, m));
        assert(x == x % 256 + 256 * (x / 256)) by (nonlinear_arith);
    }
}

/// The bounds of the two integer widths that the protocol carries.
pub proof fn lemma_byte_bounds()
    ensures
        byte_bound(4) == u32::MAX as nat + 1,
        byte_bound(16) == u128::MAX as nat + 1,
{
    reveal_with_fuel(byte_bound, 17);
}

/// A ledger account: an opaque identity of 32 bytes, forwarded as it is.
#[derive(Clone, Copy, Debug, PartialEq, Eq)]
pub struct AccountId(pub [u8; 32]);

impl View for AccountId {
    type V = Seq<u8>;

    open spec fn view(&self) -> Seq<u8> {
        self.0@
    }
}

#[verifier::external_type_specification]
#[verifier::external_body]
pub struct ExScaleError(ScaleError);

/// Relies on `parity_scale_codec::Encode` for `u32`: the four bytes of `to_le_bytes`.
#[verifier::external_body]
pub(crate) fn encode_u32(x: u32) -> (r: Vec<u8>)
    ensures
        r@ == le_bytes(x as nat, 4),
{
    parity_scale_codec::Encode::encode(&x)
}

/// Relies on `parity_scale_codec::Encode` for `u128`: the sixteen bytes of `to_le_bytes`.
#[verifier::external_body]
pub(crate) fn encode_u128(x: u128) -> (r: Vec<u8>)
    ensures
        r@ == le_bytes(x as nat, 16),
{
    parity_scale_codec::Encode::encode(&x)
}

/// Relies on `parity_scale_codec::Encode` for `[u8; 32]`: the bytes in order, with no length.
#[verifier::external_body]
pub(crate) fn encode_account(a: &AccountId) -> (r: Vec<u8>)
    ensures
        r@ == a@,
{
    parity_scale_codec::Encode::encode(&a.0)
}

/// Relies on `parity_scale_codec::Decode` for `u32`: `from_le_bytes` of the next
/// four bytes, an error when fewer remain.
#[verifier::external_body]
pub(crate) fn decode_u32_at(input: &[u8], at: usize) -> (r: Result<u32, ScaleError>)
    requires
        at <= input@.len(),
    ensures
        r is Ok <==> at + 4 <= input@.len(),
        r matches Ok(v) ==> v as nat == le_value(input@.subrange(at as int, at + 4)),
{
    <u32 as parity_scale_codec::Decode>::decode(&mut &input[at..])
}

/// Relies on `parity_scale_codec::Decode` for `u128`: `from_le_bytes` of the next
/// sixteen bytes, an error when fewer remain.
#[verifier::external_body]
pub(crate) fn decode_u128_at(input: &[u8], at: usize) -> (r: Result<u128, ScaleError>)
    requires
        at <= input@.len(),
    ensures
        r is Ok <==> at + 16 <= input@.len(),
        r matches Ok(v) ==> v as nat == le_value(input@.subrange(at as int, at + 16)),
{
    <u128 as parity_scale_codec::Decode>::decode(&mut &input[at..])
}

/// Relies on `parity_scale_codec::Decode` for `[u8; 32]`: the next 32 bytes as
/// they are, an error when fewer remain.
#[verifier::external_body]
pub(crate) fn decode_account_at(input: &[u8], at: usize) -> (r: Result<AccountId, ScaleError>)
    requires
        at <= input@.len(),
    ensures
        r is Ok <==> at + 32 <= input@.len(),
        r matches Ok(a) ==> a@ == input@.subrange(at as int, at + 32),
{
    <[u8; 32] as parity_scale_codec::Decode>::decode(&mut &input[at..]).map(AccountId)
}

} // verus!
