//! Conversion between 32-byte strings and elements of the two prime fields
//! that Sapling works in: the Jubjub scalar field and the BLS12-381 scalar
//! field (which is also the Jubjub base field).
//!
//! A field element is modelled by the natural number below the field's order
//! that it stands for. A byte string is modelled by the number it spells in
//! little-endian order.

use vstd::prelude::*;

verus! {

#[verifier::external_type_specification]
#[verifier::external_body]
pub struct ExJubjubFr(jubjub::Fr);

#[verifier::external_type_specification]
#[verifier::external_body]
pub struct ExBlsScalar(bls12_381::Scalar);

/// The number below the Jubjub scalar field's order that an element stands
/// for.
pub uninterp spec fn fr_value(f: jubjub::Fr) -> nat;

/// The number below the BLS12-381 scalar field's order that an element stands
/// for.
pub uninterp spec fn scalar_value(s: bls12_381::Scalar) -> nat;

/// Why a byte string was not decoded.
#[derive(Clone, Copy, Debug, PartialEq, Eq, Structural)]
pub enum CodecError {
    /// The input is not exactly 32 bytes long.
    Length,
    /// The input spells a number that is not below the field's order.
    InvalidEncoding,
}

/// The number that a byte string spells, least significant byte first.
pub open spec fn le_value(bytes: Seq<u8>) -> nat
    decreases bytes.len(),
{
    if bytes.len() == 0 {
        0
    } else {
        bytes[0] as nat + 256 * le_value(bytes.drop_first())
    }
}

/// The number whose four 64-bit limbs, least significant first, are given.
pub open spec fn limbs_value(l0: u64, l1: u64, l2: u64, l3: u64) -> nat {
    let base: nat = 0x1_0000_0000_0000_0000;
    l0 as nat + base * (l1 as nat + base * (l2 as nat + base * (l3 as nat)))
}

/// The order of the Jubjub scalar field.
pub open spec fn fr_modulus() -> nat {
    limbs_value(
        0xd097_0e5e_d6f7_2cb7,
        0xa668_2093_ccc8_1082,
        0x0667_3b01_0134_3b00,
        0x0e7d_b4ea_6533_afa9,
    )
}

/// The order of the BLS12-381 scalar field.
pub open spec fn scalar_modulus() -> nat {
    limbs_value(
        0xffff_ffff_0000_0001,
        0x53bd_a402_fffe_5bfe,
        0x3339_d808_09a1_d805,
        0x73ed_a753_299d_7d48,
    )
}

/// A 32-byte string that spells a number below the Jubjub scalar field's
/// order.
pub open spec fn is_canonical_fr(bytes: Seq<u8>) -> bool {
    bytes.len() == 32 && le_value(bytes) < fr_modulus()
}

/// A 32-byte string that spells a number below the BLS12-381 scalar field's
/// order.
pub open spec fn is_canonical_scalar(bytes: Seq<u8>) -> bool {
    bytes.len() == 32 && le_value(bytes) < scalar_modulus()
}

/// The `len` bytes that spell `value`, least significant byte first. Where
/// `value` needs more bytes, they spell its remainder.
pub open spec fn le_encode(value: nat, len: nat) -> Seq<u8>
    decreases len,
{
    if len == 0 {
        Seq::empty()
    } else {
        seq![(value % 256) as u8] + le_encode(value / 256, (len - 1) as nat)
    }
}

/// The 32 bytes that encode a Jubjub scalar.
pub open spec fn fr_encoding(f: jubjub::Fr) -> Seq<u8> {
    le_encode(fr_value(f), 32)
}

/// The string of `len` zero bytes.
pub open spec fn zeros(len: nat) -> Seq<u8> {
    Seq::new(len, |i: int| 0u8)
}

/// A byte string is the encoding, at its own length, of the number it
/// spells.
pub proof fn lemma_le_encode_inverse(bytes: Seq<u8>)
    ensures
        le_encode(le_value(bytes), bytes.len()) == bytes,
    decreases bytes.len(),
{
    if bytes.len() == 0 {
        assert(le_encode(le_value(bytes), 0) =~= bytes);
    } else {
        let head = bytes[0] as nat;
        let rest = le_value(bytes.drop_first());
        let v = le_value(bytes);
        assert(v == head + 256 * rest);
        assert(v % 256 == head && v / 256 == rest) by (nonlinear_arith)
            requires
                v == head + 256 * rest,
                head < 256,
        ;
        lemma_le_encode_inverse(bytes.drop_first());
        assert(le_encode(v, bytes.len()) =~= seq![bytes[0]] + bytes.drop_first());
        assert(bytes =~= seq![bytes[0]] + bytes.drop_first());
    }
}

/// Calls `jubjub::Fr::from_bytes`. It reads the input as a little-endian
/// number, accepts it exactly when that number is below the field's order,
/// and then returns the element that stands for it.
#[verifier::external_body]
pub(crate) fn fr_from_bytes(bytes: &[u8; 32]) -> (r: Option<jubjub::Fr>)
    ensures
        r.is_some() <==> le_value(bytes@) < fr_modulus(),
        r matches Some(f) ==> fr_value(f) == le_value(bytes@),
{
    Option::from(jubjub::Fr::from_bytes(bytes))
}

/// Calls `jubjub::Fr::to_bytes`, which writes the number that the element
/// stands for as 32 little-endian bytes. That number is below the field's
/// order.
#[verifier::external_body]
pub(crate) fn fr_to_bytes(f: &jubjub::Fr) -> (r: [u8; 32])
    ensures
        le_value(r@) == fr_value(*f),
        le_value(r@) < fr_modulus(),
{
    f.to_bytes()
}

/// Calls `bls12_381::Scalar::from_bytes`. It reads the input as a
/// little-endian number, accepts it exactly when that number is below the
/// field's order, and then returns the element that stands for it.
#[verifier::external_body]
pub(crate) fn scalar_from_bytes(bytes: &[u8; 32]) -> (r: Option<bls12_381::Scalar>)
    ensures
        r.is_some() <==> le_value(bytes@) < scalar_modulus(),
        r matches Some(s) ==> scalar_value(s) == le_value(bytes@),
{
    Option::from(bls12_381::Scalar::from_bytes(bytes))
}

/// Copies a slice of 32 bytes into a fixed array. There is no array for a
/// slice of another length.
pub fn to_array_32(bytes: &[u8]) -> (r: Option<[u8; 32]>)
    ensures
        match r {
            Some(arr) => arr@ == bytes@,
            None => bytes@.len() != 32,
        },
{
    if bytes.len() != 32 {
        return None;
    }
    let mut arr = [0u8; 32];
    let mut i: usize = 0;
    while i < 32
        invariant
            i <= 32,
            bytes@.len() == 32,
            forall|j: int| 0 <= j < i ==> arr@[j] == bytes@[j],
        decreases 32 - i,
    {
        arr[i] = bytes[i];
        i += 1;
    }
    assert(arr@ =~= bytes@);
    Some(arr)
}

/// Decodes a Jubjub scalar from its canonical little-endian encoding.
///
/// Fails with `Length` unless the input has 32 bytes, and with
/// `InvalidEncoding` unless those bytes spell a number below the field's
/// order. Otherwise the result is the element that stands for that number.
pub fn bytes_to_fr(bytes: &[u8]) -> (r: Result<jubjub::Fr, CodecError>)
    ensures
        bytes@.len() != 32 ==> r == Err::<jubjub::Fr, CodecError>(CodecError::Length),
        bytes@.len() == 32 && !is_canonical_fr(bytes@) ==> r == Err::<jubjub::Fr, CodecError>(
            CodecError::InvalidEncoding,
        ),
        is_canonical_fr(bytes@) ==> r.is_ok() && fr_value(r.unwrap()) == le_value(bytes@)
            && fr_encoding(r.unwrap()) == bytes@,
{
    proof {
        lemma_le_encode_inverse(bytes@);
    }
    match to_array_32(bytes) {
        None => Err(CodecError::Length),
        Some(arr) => match fr_from_bytes(&arr) {
            Some(f) => Ok(f),
            None => Err(CodecError::InvalidEncoding),
        },
    }
}

/// Decodes a BLS12-381 scalar from its canonical little-endian encoding.
///
/// Fails with `Length` unless the input has 32 bytes, and with
/// `InvalidEncoding` unless those bytes spell a number below the field's
/// order. Otherwise the result is the element that stands for that number.
pub fn bytes_to_scalar(bytes: &[u8]) -> (r: Result<bls12_381::Scalar, CodecError>)
    ensures
        bytes@.len() != 32 ==> r == Err::<bls12_381::Scalar, CodecError>(CodecError::Length),
        bytes@.len() == 32 && !is_canonical_scalar(bytes@) ==> r == Err::<
            bls12_381::Scalar,
            CodecError,
        >(CodecError::InvalidEncoding),
        is_canonical_scalar(bytes@) ==> r.is_ok() && scalar_value(r.unwrap()) == le_value(bytes@),
{
    match to_array_32(bytes) {
        None => Err(CodecError::Length),
        Some(arr) => match scalar_from_bytes(&arr) {
            Some(s) => Ok(s),
            None => Err(CodecError::InvalidEncoding),
        },
    }
}

/// Encodes a Jubjub scalar as its 32 canonical little-endian bytes.
pub fn fr_to_array(f: &jubjub::Fr) -> (r: [u8; 32])
    ensures
        r@ == fr_encoding(*f),
        is_canonical_fr(r@),
{
    let arr = fr_to_bytes(f);
    proof {
        lemma_le_encode_inverse(arr@);
    }
    arr
}

/// Encoding undoes decoding: an element that stands for the number which 32
/// bytes spell is encoded as those same bytes.
pub proof fn lemma_fr_round_trip(bytes: Seq<u8>, f: jubjub::Fr)
    requires
        bytes.len() == 32,
        fr_value(f) == le_value(bytes),
    ensures
        fr_encoding(f) == bytes,
{
    lemma_le_encode_inverse(bytes);
}

} // verus!
