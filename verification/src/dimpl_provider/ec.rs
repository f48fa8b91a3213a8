//! The part of `openssl::ec`, `openssl::pkey` and `openssl::derive` that the key exchange calls.
//!
//! A curve is known by the raw value of its `Nid`, a point by the curve and its affine coordinates
//! and a key by the curve, the private number and the public point. Whether a call succeeds at all
//! is left open everywhere: OpenSSL may run out of memory or randomness, or lack a curve in its
//! configuration. But for bytes that are no point, and a peer's key that is the point at infinity,
//! it has no reason to refuse what it is asked for on P-256 and P-384, so the errors of a failed
//! call are those of a resource failure. How a private number is chosen is left open too.

use crate::dimpl_provider::evp::is_resource_failure;
use openssl::bn::BigNumContext;
use openssl::derive::Deriver;
use openssl::ec::{EcGroup, EcKey, EcPoint, EcPointRef, PointConversionForm};
use openssl::error::ErrorStack;
use openssl::nid::Nid;
use openssl::pkey::{PKey, Private, Public};
use vstd::prelude::*;

verus! {

/// Raw value of the `Nid` of P-256.
pub const PRIME256V1: i32 = 415;

/// Raw value of the `Nid` of P-384.
pub const SECP384R1: i32 = 715;

/// A point of a curve: its affine coordinates, or nothing for the point at infinity.
pub type Coordinates = Option<(nat, nat)>;

/// A private key with its public point.
pub struct PrivateValue {
    pub nid: int,
    pub scalar: nat,
    pub point: Coordinates,
}

/// A public key, or just a point with its curve.
pub struct PublicValue {
    pub nid: int,
    pub point: Coordinates,
}

/// What a deriver has been given.
pub struct DeriverValue {
    pub own: PrivateValue,
    pub peer: Option<PublicValue>,
}

/// The ways of writing a point down.
pub enum PointForm {
    Compressed,
    Uncompressed,
    Hybrid,
}

/// Whether this is P-256 or P-384.
pub open spec fn is_nist_curve(nid: int) -> bool {
    nid == PRIME256V1 || nid == SECP384R1
}

/// The length in bytes of a coordinate of P-256 and of P-384.
pub open spec fn coordinate_len(nid: int) -> nat {
    if nid == PRIME256V1 {
        32
    } else {
        48
    }
}

/// `n` as `len` bytes, most significant first.
pub open spec fn big_endian(n: nat, len: nat) -> Seq<u8>
    decreases len,
{
    if len == 0 {
        Seq::empty()
    } else {
        big_endian(n / 256, (len - 1) as nat).push((n % 256) as u8)
    }
}

/// `big_endian` gives as many bytes as asked for.
pub proof fn big_endian_len(n: nat, len: nat)
    ensures
        big_endian(n, len).len() == len,
    decreases len,
{
    if len > 0 {
        big_endian_len(n / 256, (len - 1) as nat);
    }
}

/// `big_endian` reads back as the number, if it has room for it.
pub proof fn big_endian_reads_back(n: nat, len: nat)
    requires
        n < vstd::arithmetic::power::pow(256, len),
    ensures
        big_endian(n, len).fold_left(0int, |value: int, byte: u8| 256 * value + byte) == n,
    decreases len,
{
    reveal(vstd::arithmetic::power::pow);
    if len > 0 {
        let rest = (len - 1) as nat;
        assert(vstd::arithmetic::power::pow(256, len) == 256 * vstd::arithmetic::power::pow(
            256,
            rest,
        ));
        big_endian_reads_back(n / 256, rest);
        assert(big_endian(n, len).drop_last() =~= big_endian(n / 256, rest));
    }
}

/// A point of P-256 or P-384 as SEC1 writes it uncompressed: a byte 4 and the two coordinates, or
/// a single byte 0 for the point at infinity.
pub open spec fn sec1_uncompressed(nid: int, point: Coordinates) -> Seq<u8> {
    match point {
        Some((x, y)) => seq![4u8] + big_endian(x, coordinate_len(nid)) + big_endian(
            y,
            coordinate_len(nid),
        ),
        None => seq![0u8],
    }
}

/// An uncompressed point of P-256 is a byte 4 and twice 32 bytes, one of P-384 a byte 4 and twice 48
/// bytes, and these read, most significant first, as its coordinates.
pub proof fn sec1_uncompressed_reads_back(nid: int, x: nat, y: nat)
    requires
        nid == 415 || nid == 715,
        x < vstd::arithmetic::power::pow(256, if nid == 415 { 32 } else { 48 }),
        y < vstd::arithmetic::power::pow(256, if nid == 415 { 32 } else { 48 }),
    ensures
        ({
            let bytes = sec1_uncompressed(nid, Some((x, y)));
            let len: int = if nid == 415 {
                32
            } else {
                48
            };
            let read = |value: int, byte: u8| 256 * value + byte;
            &&& bytes.len() == 1 + 2 * len
            &&& bytes[0] == 4
            &&& bytes.subrange(1, 1 + len).fold_left(0int, read) == x
            &&& bytes.subrange(1 + len, 1 + 2 * len).fold_left(0int, read) == y
        }),
{
    let len = coordinate_len(nid);
    big_endian_len(x, len);
    big_endian_len(y, len);
    big_endian_reads_back(x, len);
    big_endian_reads_back(y, len);
    let bytes = sec1_uncompressed(nid, Some((x, y)));
    assert(bytes.subrange(1, 1 + len as int) =~= big_endian(x, len));
    assert(bytes.subrange(1 + len as int, 1 + 2 * len as int) =~= big_endian(y, len));
}

/// Whether `bytes` have the shape of a point of P-256 or P-384 in one of the forms of SEC1: the
/// point at infinity, compressed, uncompressed or hybrid.
pub open spec fn has_sec1_shape(nid: int, bytes: Seq<u8>) -> bool {
    ||| bytes.len() == 1 && bytes[0] == 0
    ||| bytes.len() == 1 + coordinate_len(nid) && (bytes[0] == 2 || bytes[0] == 3)
    ||| bytes.len() == 1 + 2 * coordinate_len(nid) && (bytes[0] == 4 || bytes[0] == 6 || bytes[0]
        == 7)
}

/// Identifier of an object known to OpenSSL.
#[verifier::external_type_specification]
#[verifier::external_body]
pub struct ExNid(openssl::nid::Nid);

/// Form in which a point is written down.
#[verifier::external_type_specification]
#[verifier::external_body]
pub struct ExPointConversionForm(openssl::ec::PointConversionForm);

/// Scratch space of OpenSSL's arithmetic.
#[verifier::external_type_specification]
#[verifier::external_body]
pub struct ExBigNumContext(openssl::bn::BigNumContext);

/// A curve.
#[verifier::external_type_specification]
#[verifier::external_body]
pub struct ExEcGroup(openssl::ec::EcGroup);

/// A key of a curve.
#[verifier::external_type_specification]
#[verifier::external_body]
#[verifier::reject_recursive_types(T)]
pub struct ExEcKey<T>(openssl::ec::EcKey<T>);

/// A point of a curve.
#[verifier::external_type_specification]
#[verifier::external_body]
pub struct ExEcPoint(openssl::ec::EcPoint);

/// A borrowed point of a curve.
#[verifier::external_type_specification]
#[verifier::external_body]
pub struct ExEcPointRef(openssl::ec::EcPointRef);

/// A key of any kind.
#[verifier::external_type_specification]
#[verifier::external_body]
#[verifier::reject_recursive_types(T)]
pub struct ExPKey<T>(openssl::pkey::PKey<T>);

/// The mark of keys that hold a private part.
#[verifier::external_type_specification]
#[verifier::external_body]
pub struct ExPrivate(openssl::pkey::Private);

/// The mark of keys that hold a public part only.
#[verifier::external_type_specification]
#[verifier::external_body]
pub struct ExPublic(openssl::pkey::Public);

/// A derivation of a shared secret.
#[verifier::external_type_specification]
#[verifier::external_body]
pub struct ExDeriver<'a>(openssl::derive::Deriver<'a>);

/// The raw value of a `Nid`.
pub uninterp spec fn nid_value(nid: Nid) -> int;

/// Which form a `PointConversionForm` is.
pub uninterp spec fn point_form(form: PointConversionForm) -> PointForm;

/// The raw value of the `Nid` that an `EcGroup` was made from.
pub uninterp spec fn ec_group_nid(group: EcGroup) -> int;

/// The contents of a private key.
pub uninterp spec fn private_value(key: EcKey<Private>) -> PrivateValue;

/// The contents of a public key.
pub uninterp spec fn public_value(key: EcKey<Public>) -> PublicValue;

/// The private key in a `PKey`.
pub uninterp spec fn pkey_private_value(key: PKey<Private>) -> PrivateValue;

/// The public key in a `PKey`.
pub uninterp spec fn pkey_public_value(key: PKey<Public>) -> PublicValue;

/// A point with its curve.
pub uninterp spec fn point_value(point: EcPoint) -> PublicValue;

/// A borrowed point with its curve.
pub uninterp spec fn point_ref_value(point: EcPointRef) -> PublicValue;

/// The keys that a `Deriver` has been given.
pub uninterp spec fn deriver_value(deriver: Deriver<'_>) -> DeriverValue;

/// The public point that `EcKey::generate` gives to a private number.
pub uninterp spec fn public_point(nid: int, scalar: nat) -> Coordinates;

/// The point of a curve that `EcPoint::from_bytes` reads, or nothing for bytes that it refuses.
pub uninterp spec fn decoded_point(nid: int, bytes: Seq<u8>) -> Option<Coordinates>;

/// The secret that `Deriver::derive_to_vec` gives for a private number and the peer's point.
pub uninterp spec fn derived_secret(nid: int, scalar: nat, peer: Coordinates) -> Seq<u8>;

/// `Nid::X9_62_PRIME256V1` is the curve P-256.
#[verifier::external_body]
pub(crate) fn x9_62_prime256v1() -> (nid: Nid)
    ensures
        nid_value(nid) == PRIME256V1,
{
    Nid::X9_62_PRIME256V1
}

/// `Nid::SECP384R1` is the curve P-384.
#[verifier::external_body]
pub(crate) fn secp384r1() -> (nid: Nid)
    ensures
        nid_value(nid) == SECP384R1,
{
    Nid::SECP384R1
}

/// `PointConversionForm::UNCOMPRESSED` is the uncompressed form.
#[verifier::external_body]
pub(crate) fn uncompressed() -> (form: PointConversionForm)
    ensures
        point_form(form) == PointForm::Uncompressed,
{
    PointConversionForm::UNCOMPRESSED
}

/// `BigNumContext::new` makes scratch space, of which there is nothing to say.
pub assume_specification[ openssl::bn::BigNumContext::new ]() -> (result: Result<
    BigNumContext,
    ErrorStack,
>)
    ensures
        result matches Err(errors) ==> crate::dimpl_provider::evp::is_resource_failure(errors),
;

/// `EcGroup::from_curve_name` gives the curve of that name.
pub assume_specification[ openssl::ec::EcGroup::from_curve_name ](nid: Nid) -> (result: Result<
    EcGroup,
    ErrorStack,
>)
    ensures
        match result {
            Ok(group) => ec_group_nid(group) == nid_value(nid),
            Err(errors) => is_nist_curve(nid_value(nid))
                ==> crate::dimpl_provider::evp::is_resource_failure(errors),
        },
;

/// `EcKey::generate` makes a private key of the curve, at random, with the public point that goes
/// with it. That point is not the one at infinity.
#[verifier::external_body]
pub(crate) fn generate(group: &EcGroup) -> (result: Result<EcKey<Private>, ErrorStack>)
    ensures
        match result {
            Ok(key) => {
                &&& private_value(key).nid == ec_group_nid(*group)
                &&& private_value(key).point == public_point(
                    ec_group_nid(*group),
                    private_value(key).scalar,
                )
                &&& private_value(key).point is Some
            },
            Err(errors) => is_nist_curve(ec_group_nid(*group)) ==> is_resource_failure(errors),
        },
{
    EcKey::generate(group)
}

/// `EcKeyRef::public_key` lends the public point of a key.
#[verifier::external_body]
pub(crate) fn public_key(key: &EcKey<Private>) -> (point: &EcPointRef)
    ensures
        point_ref_value(*point) == (PublicValue {
            nid: private_value(*key).nid,
            point: private_value(*key).point,
        }),
{
    key.public_key()
}

/// `EcPointRef::to_bytes` writes down a point of the curve in the given form. What it writes reads
/// back as the point. For P-256 and P-384 it is, in the uncompressed form, what SEC1 prescribes; what
/// the bytes are in another form or for another curve is left unsaid.
#[verifier::external_body]
pub(crate) fn point_to_bytes(
    point: &EcPointRef,
    group: &EcGroup,
    form: PointConversionForm,
    ctx: &mut BigNumContext,
) -> (result: Result<Vec<u8>, ErrorStack>)
    requires
        point_ref_value(*point).nid == ec_group_nid(*group),
    ensures
        match result {
            Ok(bytes) => {
                &&& decoded_point(ec_group_nid(*group), bytes@) == Some(
                    point_ref_value(*point).point,
                )
                &&& point_form(form) is Uncompressed && is_nist_curve(ec_group_nid(*group))
                    ==> bytes@ == sec1_uncompressed(
                    ec_group_nid(*group),
                    point_ref_value(*point).point,
                )
            },
            Err(errors) => is_nist_curve(ec_group_nid(*group)) ==> is_resource_failure(errors),
        },
{
    point.to_bytes(group, form, ctx)
}

/// `EcPoint::from_bytes` reads a point of the curve, and refuses bytes that are none. For P-256 and
/// P-384 it takes the forms of SEC1 and no other bytes.
#[verifier::external_body]
pub(crate) fn point_from_bytes(group: &EcGroup, bytes: &[u8], ctx: &mut BigNumContext) -> (result:
    Result<EcPoint, ErrorStack>)
    ensures
        match result {
            Ok(point) => {
                &&& point_value(point).nid == ec_group_nid(*group)
                &&& decoded_point(ec_group_nid(*group), bytes@) == Some(point_value(point).point)
                &&& is_nist_curve(ec_group_nid(*group)) ==> has_sec1_shape(
                    ec_group_nid(*group),
                    bytes@,
                )
            },
            Err(errors) => {
                ||| is_resource_failure(errors)
                ||| decoded_point(ec_group_nid(*group), bytes@) is None
            },
        },
{
    EcPoint::from_bytes(group, bytes, ctx)
}

/// `EcKey::from_public_key` makes a public key of the curve from its point.
#[verifier::external_body]
pub(crate) fn from_public_key(group: &EcGroup, point: &EcPoint) -> (result: Result<
    EcKey<Public>,
    ErrorStack,
>)
    requires
        point_value(*point).nid == ec_group_nid(*group),
    ensures
        match result {
            Ok(key) => public_value(key) == point_value(*point),
            Err(errors) => is_nist_curve(ec_group_nid(*group)) && point_value(*point).point is Some
                ==> is_resource_failure(errors),
        },
{
    EcKey::from_public_key(group, point)
}

/// `PKey::from_ec_key` holds the same private key.
#[verifier::external_body]
pub(crate) fn pkey_from_private(key: EcKey<Private>) -> (result: Result<PKey<Private>, ErrorStack>)
    ensures
        match result {
            Ok(pkey) => pkey_private_value(pkey) == private_value(key),
            Err(errors) => is_resource_failure(errors),
        },
{
    PKey::from_ec_key(key)
}

/// `PKey::from_ec_key` holds the same public key.
#[verifier::external_body]
pub(crate) fn pkey_from_public(key: EcKey<Public>) -> (result: Result<PKey<Public>, ErrorStack>)
    ensures
        match result {
            Ok(pkey) => pkey_public_value(pkey) == public_value(key),
            Err(errors) => is_resource_failure(errors),
        },
{
    PKey::from_ec_key(key)
}

/// `Deriver::new` starts a derivation with a private key.
#[verifier::external_body]
pub(crate) fn new_deriver<'a>(key: &'a PKey<Private>) -> (result: Result<Deriver<'a>, ErrorStack>)
    ensures
        match result {
            Ok(deriver) => deriver_value(deriver) == (DeriverValue {
                own: pkey_private_value(*key),
                peer: None,
            }),
            Err(errors) => is_nist_curve(pkey_private_value(*key).nid) ==> is_resource_failure(
                errors,
            ),
        },
{
    Deriver::new(key)
}

/// `Deriver::set_peer` sets the peer's public key, which is of the same curve. It may refuse the
/// point at infinity.
#[verifier::external_body]
pub(crate) fn set_peer<'a>(deriver: &mut Deriver<'a>, key: &'a PKey<Public>) -> (result: Result<
    (),
    ErrorStack,
>)
    requires
        pkey_public_value(*key).nid == deriver_value(*old(deriver)).own.nid,
    ensures
        match result {
            Ok(()) => deriver_value(*final(deriver)) == (DeriverValue {
                own: deriver_value(*old(deriver)).own,
                peer: Some(pkey_public_value(*key)),
            }),
            Err(errors) => is_nist_curve(pkey_public_value(*key).nid) && pkey_public_value(
                *key,
            ).point is Some ==> is_resource_failure(errors),
        },
{
    deriver.set_peer(key)
}

/// `Deriver::derive_to_vec` derives the secret shared by the two keys. A peer whose private number
/// goes with its public point derives the same secret from the public point of this side. For P-256
/// and P-384 the secret is as long as a coordinate, and there is one unless a key is void: the
/// peer's point the one at infinity, or the own private number a multiple of the order.
#[verifier::external_body]
pub(crate) fn derive_to_vec(deriver: &mut Deriver<'_>) -> (result: Result<Vec<u8>, ErrorStack>)
    requires
        deriver_value(*old(deriver)).peer is Some,
    ensures
        deriver_value(*final(deriver)) == deriver_value(*old(deriver)),
        ({
            let own = deriver_value(*old(deriver)).own;
            let peer = deriver_value(*old(deriver)).peer->0;
            match result {
                Ok(secret) => {
                    &&& peer.point is Some
                    &&& secret@ == derived_secret(own.nid, own.scalar, peer.point)
                    &&& is_nist_curve(own.nid) ==> secret@.len() == coordinate_len(own.nid)
                    &&& forall|other: nat| #[trigger]
                        public_point(own.nid, other) == peer.point ==> secret@ == derived_secret(
                            own.nid,
                            other,
                            public_point(own.nid, own.scalar),
                        )
                },
                Err(errors) => is_nist_curve(own.nid) && peer.point is Some && public_point(
                    own.nid,
                    own.scalar,
                ) is Some ==> is_resource_failure(errors),
            }
        }),
{
    deriver.derive_to_vec()
}

} // verus!
