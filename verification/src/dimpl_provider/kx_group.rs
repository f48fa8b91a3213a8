//! Key exchange group implementations using OpenSSL.

use crate::dimpl_provider::buffer::{buf_as_slice, buf_bytes, replace_bytes};
use crate::dimpl_provider::ec::{
    big_endian_len, coordinate_len, decoded_point, derive_to_vec, derived_secret, from_public_key,
    generate, has_sec1_shape, new_deriver, nid_value, pkey_from_private, pkey_from_public,
    point_from_bytes, point_to_bytes, private_value, public_key, public_point, sec1_uncompressed,
    secp384r1, set_peer, uncompressed, x9_62_prime256v1, Coordinates, PRIME256V1, SECP384R1,
};
use crate::dimpl_provider::evp::{
    is_openssl_text, is_resource_failure_text, is_text_of, or_text,
};
use crate::text::{append_decimal, decimal};
use dimpl::crypto::Buf;
use openssl::bn::BigNumContext;
use openssl::ec::{EcGroup, EcKey};
use openssl::error::ErrorStack;
use openssl::nid::Nid;
use openssl::pkey::Private;
use vstd::prelude::*;

verus! {

/// Elliptic curves and key exchange groups (RFC 8422, RFC 8446).
#[derive(Debug, Clone, Copy, PartialEq, Eq, Structural)]
pub enum NamedGroup {
    Sect163k1,
    Sect163r1,
    Sect163r2,
    Sect193r1,
    Sect193r2,
    Sect233k1,
    Sect233r1,
    Sect239k1,
    Sect283k1,
    Sect283r1,
    Sect409k1,
    Sect409r1,
    Sect571k1,
    Sect571r1,
    Secp160k1,
    Secp160r1,
    Secp160r2,
    Secp192k1,
    Secp192r1,
    Secp224k1,
    Secp224r1,
    Secp256k1,
    Secp256r1,
    Secp384r1,
    Secp521r1,
    X25519,
    X448,
    /// Unknown or unsupported group.
    Unknown(u16),
}

/// The name of a group in error messages.
pub open spec fn group_text(group: NamedGroup) -> Seq<char> {
    match group {
        NamedGroup::Sect163k1 => "Sect163k1"@,
        NamedGroup::Sect163r1 => "Sect163r1"@,
        NamedGroup::Sect163r2 => "Sect163r2"@,
        NamedGroup::Sect193r1 => "Sect193r1"@,
        NamedGroup::Sect193r2 => "Sect193r2"@,
        NamedGroup::Sect233k1 => "Sect233k1"@,
        NamedGroup::Sect233r1 => "Sect233r1"@,
        NamedGroup::Sect239k1 => "Sect239k1"@,
        NamedGroup::Sect283k1 => "Sect283k1"@,
        NamedGroup::Sect283r1 => "Sect283r1"@,
        NamedGroup::Sect409k1 => "Sect409k1"@,
        NamedGroup::Sect409r1 => "Sect409r1"@,
        NamedGroup::Sect571k1 => "Sect571k1"@,
        NamedGroup::Sect571r1 => "Sect571r1"@,
        NamedGroup::Secp160k1 => "Secp160k1"@,
        NamedGroup::Secp160r1 => "Secp160r1"@,
        NamedGroup::Secp160r2 => "Secp160r2"@,
        NamedGroup::Secp192k1 => "Secp192k1"@,
        NamedGroup::Secp192r1 => "Secp192r1"@,
        NamedGroup::Secp224k1 => "Secp224k1"@,
        NamedGroup::Secp224r1 => "Secp224r1"@,
        NamedGroup::Secp256k1 => "Secp256k1"@,
        NamedGroup::Secp256r1 => "Secp256r1"@,
        NamedGroup::Secp384r1 => "Secp384r1"@,
        NamedGroup::Secp521r1 => "Secp521r1"@,
        NamedGroup::X25519 => "X25519"@,
        NamedGroup::X448 => "X448"@,
        NamedGroup::Unknown(value) => "Unknown("@ + decimal(value as nat) + ")"@,
    }
}

/// Appends the name of `group` to `text`.
fn append_group(text: &mut String, group: NamedGroup)
    ensures
        final(text)@ == old(text)@ + group_text(group),
{
    match group {
        NamedGroup::Sect163k1 => text.append("Sect163k1"),
        NamedGroup::Sect163r1 => text.append("Sect163r1"),
        NamedGroup::Sect163r2 => text.append("Sect163r2"),
        NamedGroup::Sect193r1 => text.append("Sect193r1"),
        NamedGroup::Sect193r2 => text.append("Sect193r2"),
        NamedGroup::Sect233k1 => text.append("Sect233k1"),
        NamedGroup::Sect233r1 => text.append("Sect233r1"),
        NamedGroup::Sect239k1 => text.append("Sect239k1"),
        NamedGroup::Sect283k1 => text.append("Sect283k1"),
        NamedGroup::Sect283r1 => text.append("Sect283r1"),
        NamedGroup::Sect409k1 => text.append("Sect409k1"),
        NamedGroup::Sect409r1 => text.append("Sect409r1"),
        NamedGroup::Sect571k1 => text.append("Sect571k1"),
        NamedGroup::Sect571r1 => text.append("Sect571r1"),
        NamedGroup::Secp160k1 => text.append("Secp160k1"),
        NamedGroup::Secp160r1 => text.append("Secp160r1"),
        NamedGroup::Secp160r2 => text.append("Secp160r2"),
        NamedGroup::Secp192k1 => text.append("Secp192k1"),
        NamedGroup::Secp192r1 => text.append("Secp192r1"),
        NamedGroup::Secp224k1 => text.append("Secp224k1"),
        NamedGroup::Secp224r1 => text.append("Secp224r1"),
        NamedGroup::Secp256k1 => text.append("Secp256k1"),
        NamedGroup::Secp256r1 => text.append("Secp256r1"),
        NamedGroup::Secp384r1 => text.append("Secp384r1"),
        NamedGroup::Secp521r1 => text.append("Secp521r1"),
        NamedGroup::X25519 => text.append("X25519"),
        NamedGroup::X448 => text.append("X448"),
        NamedGroup::Unknown(value) => {
            text.append("Unknown(");
            append_decimal(text, value as usize);
            text.append(")");
            assert(text@ =~= old(text)@ + group_text(group));
        },
    }
}

/// The raw value of the `Nid` of a supported group.
pub open spec fn group_nid(group: NamedGroup) -> Option<int> {
    match group {
        NamedGroup::Secp256r1 => Some(PRIME256V1 as int),
        NamedGroup::Secp384r1 => Some(SECP384R1 as int),
        _ => None,
    }
}

/// The error message for a group that is not supported.
pub open spec fn unsupported(group: NamedGroup) -> Seq<char> {
    "Unsupported group: "@ + group_text(group)
}

/// Map a `NamedGroup` to the corresponding OpenSSL `Nid`.
pub fn nid_for_group(group: NamedGroup) -> (result: Result<Nid, String>)
    ensures
        match result {
            Ok(nid) => group_nid(group) == Some(nid_value(nid)),
            Err(message) => group_nid(group) is None && message@ == unsupported(group),
        },
        match group {
            NamedGroup::Secp256r1 => result matches Ok(nid) && nid_value(nid) == 415,
            NamedGroup::Secp384r1 => result matches Ok(nid) && nid_value(nid) == 715,
            _ => result is Err,
        },
{
    match group {
        NamedGroup::Secp256r1 => Ok(x9_62_prime256v1()),
        NamedGroup::Secp384r1 => Ok(secp384r1()),
        _ => {
            let mut message = String::from_str("Unsupported group: ");
            append_group(&mut message, group);
            Err(message)
        },
    }
}

/// `secret` is what the holder of `scalar` shares with the holder of the private number behind the
/// point `peer`: each of them derives it from the own private number and the other's public point.
/// It is as long as a coordinate of the curve.
pub open spec fn is_shared_secret(
    nid: int,
    scalar: nat,
    peer: Coordinates,
    secret: Seq<u8>,
) -> bool {
    &&& secret == derived_secret(nid, scalar, peer)
    &&& secret.len() == coordinate_len(nid)
    &&& forall|other: nat| #[trigger]
        public_point(nid, other) == peer ==> secret == derived_secret(
            nid,
            other,
            public_point(nid, scalar),
        )
}

/// `bytes` are a public key of the curve: they read as a point of it, not the one at infinity.
pub open spec fn is_public_key(nid: int, bytes: Seq<u8>) -> bool {
    decoded_point(nid, bytes) matches Some(point) && point is Some
}

/// ECDHE key exchange implementation using OpenSSL.
pub struct EcdhKeyExchange {
    private_key: EcKey<Private>,
    public_key_bytes: Buf,
    group: NamedGroup,
}

impl EcdhKeyExchange {
    /// The group.
    pub closed spec fn named_group(&self) -> NamedGroup {
        self.group
    }

    /// The private number.
    pub closed spec fn scalar(&self) -> nat {
        private_value(self.private_key).scalar
    }

    /// The public key as it is sent to the peer.
    pub closed spec fn public_bytes(&self) -> Seq<u8> {
        buf_bytes(self.public_key_bytes)
    }

    /// The raw value of the `Nid` of the group.
    pub open spec fn nid(&self) -> int {
        group_nid(self.named_group())->0
    }

    /// The group is a supported one, and the public key is the one that goes with the private
    /// number, in SEC1 uncompressed point format, which reads back as that point.
    pub open spec fn well_formed(&self) -> bool {
        let point = public_point(self.nid(), self.scalar());
        &&& group_nid(self.named_group()) is Some
        &&& point is Some
        &&& self.public_bytes() == sec1_uncompressed(self.nid(), point)
        &&& decoded_point(self.nid(), self.public_bytes()) == Some(point)
    }

    /// `secret` is what the exchange ends with when the peer has sent `peer_pub`, a public key in
    /// one of the forms of SEC1.
    pub open spec fn completes_with(&self, peer_pub: Seq<u8>, secret: Seq<u8>) -> bool {
        &&& has_sec1_shape(self.nid(), peer_pub)
        &&& is_public_key(self.nid(), peer_pub)
        &&& is_shared_secret(
            self.nid(),
            self.scalar(),
            decoded_point(self.nid(), peer_pub)->0,
            secret,
        )
    }

    /// `result` is what completing the exchange with `peer_pub` gives, and `after` what the output
    /// buffer then holds: the secret, or what it held before if `peer_pub` is no public key of the
    /// curve or OpenSSL had a resource failure.
    pub open spec fn completes(
        &self,
        peer_pub: Seq<u8>,
        before: Buf,
        after: Buf,
        result: Result<(), String>,
    ) -> bool {
        match result {
            Ok(()) => self.completes_with(peer_pub, buf_bytes(after)),
            Err(message) => {
                &&& after == before
                &&& is_openssl_text(message)
                &&& is_public_key(self.nid(), peer_pub) ==> is_resource_failure_text(message)
            },
        }
    }

    #[verifier::type_invariant]
    closed spec fn keys_match(&self) -> bool {
        self.well_formed() && private_value(self.private_key).nid == self.nid()
    }

    /// Start an exchange with a new key, generated at random. The public key is kept in `buf`.
    pub fn new(group: NamedGroup, buf: Buf) -> (result: Result<Self, String>)
        ensures
            match result {
                Ok(exchange) => exchange.named_group() == group && exchange.well_formed(),
                Err(message) => if group_nid(group) is None {
                    message@ == unsupported(group)
                } else {
                    is_resource_failure_text(message)
                },
            },
            result is Ok ==> group == NamedGroup::Secp256r1 || group == NamedGroup::Secp384r1,
            // The public key is the point of the private number, written uncompressed.
            result matches Ok(exchange) ==> {
                let nid: int = if group == NamedGroup::Secp256r1 {
                    415
                } else {
                    715
                };
                let point = public_point(nid, exchange.scalar());
                exchange.public_bytes() == sec1_uncompressed(nid, point) && decoded_point(
                    nid,
                    exchange.public_bytes(),
                ) == Some(point)
            },
    {
        let nid = match nid_for_group(group) {
            Ok(nid) => nid,
            Err(message) => return Err(message),
        };

        let ec_group = or_text(EcGroup::from_curve_name(nid))?;
        let ec_key = or_text(generate(&ec_group))?;

        // Export public key as SEC1 uncompressed point format
        let mut ctx = or_text(BigNumContext::new())?;
        let exported = point_to_bytes(public_key(&ec_key), &ec_group, uncompressed(), &mut ctx);
        Self::from_exported(group, ec_key, exported, buf)
    }

    /// Start an exchange with a generated key, given what exporting its public point as SEC1
    /// uncompressed point format gave: where there are bytes, they are kept in `buf`.
    pub fn from_exported(
        group: NamedGroup,
        private_key: EcKey<Private>,
        exported: Result<Vec<u8>, ErrorStack>,
        buf: Buf,
    ) -> (result: Result<Self, String>)
        requires
            group_nid(group) == Some(private_value(private_key).nid),
            private_value(private_key).point is Some,
            private_value(private_key).point == public_point(
                private_value(private_key).nid,
                private_value(private_key).scalar,
            ),
            exported matches Ok(bytes) ==> {
                let key = private_value(private_key);
                &&& bytes@ == sec1_uncompressed(key.nid, key.point)
                &&& decoded_point(key.nid, bytes@) == Some(key.point)
            },
        ensures
            match exported {
                Ok(bytes) => {
                    &&& result matches Ok(exchange)
                    &&& exchange.well_formed()
                    &&& exchange.named_group() == group
                    &&& exchange.scalar() == private_value(private_key).scalar
                    &&& exchange.public_bytes() == bytes@
                },
                Err(errors) => result matches Err(message) && is_text_of(errors, message),
            },
    {
        let public_key_bytes = or_text(exported)?;

        let mut buf = buf;
        replace_bytes(&mut buf, public_key_bytes.as_slice());

        Ok(EcdhKeyExchange { private_key, public_key_bytes: buf, group })
    }

    /// Get the public key for this exchange.
    pub fn pub_key(&self) -> (bytes: &[u8])
        ensures
            bytes@ == self.public_bytes(),
            self.well_formed(),
    {
        proof {
            use_type_invariant(self);
        }
        buf_as_slice(&self.public_key_bytes)
    }

    /// Complete exchange with peer's public key, returning shared secret in `out`.
    pub fn complete(self, peer_pub: &[u8], out: &mut Buf) -> (result: Result<(), String>)
        ensures
            self.completes(peer_pub@, *old(out), *final(out), result),
            result is Err ==> *final(out) == *old(out),
            // The secret is the one of the private number and the point that the peer sent.
            result is Ok ==> {
                let nid: int = if self.named_group() == NamedGroup::Secp256r1 {
                    415
                } else {
                    715
                };
                &&& decoded_point(nid, peer_pub@) matches Some(point)
                &&& point is Some
                &&& buf_bytes(*final(out)) == derived_secret(nid, self.scalar(), point)
            },
    {
        proof {
            use_type_invariant(&self);
        }
        let nid = match nid_for_group(self.group) {
            Ok(nid) => nid,
            Err(message) => return Err(message),
        };

        let ec_group = or_text(EcGroup::from_curve_name(nid))?;
        let mut ctx = or_text(BigNumContext::new())?;

        // Import peer's public key
        let peer_point = or_text(point_from_bytes(&ec_group, peer_pub, &mut ctx))?;

        // Perform ECDH key agreement
        let pkey = or_text(pkey_from_private(self.private_key))?;
        let peer_ec_key = or_text(from_public_key(&ec_group, &peer_point))?;
        let peer_pkey = or_text(pkey_from_public(peer_ec_key))?;

        let mut deriver = or_text(new_deriver(&pkey))?;
        or_text(set_peer(&mut deriver, &peer_pkey))?;
        put_secret(out, derive_to_vec(&mut deriver))
    }

    /// Get the group for this exchange.
    pub fn group(&self) -> (group: NamedGroup)
        ensures
            group == self.named_group(),
    {
        self.group
    }

    /// What debug output shows of the exchange: a name and, for a supported group, the length of
    /// the public key.
    pub fn debug_parts(&self) -> (parts: (&'static str, Option<usize>))
        ensures
            parts.0@ == debug_name(self.named_group()),
            match parts.1 {
                Some(len) => group_nid(self.named_group()) is Some && len
                    == self.public_bytes().len(),
                None => group_nid(self.named_group()) is None,
            },
            match self.named_group() {
                NamedGroup::Secp256r1 => parts.0@ == "EcdhKeyExchange::P256"@ && parts.1 is Some,
                NamedGroup::Secp384r1 => parts.0@ == "EcdhKeyExchange::P384"@ && parts.1 is Some,
                _ => parts.0@ == "EcdhKeyExchange::Unknown"@ && parts.1 is None,
            },
    {
        match self.group {
            NamedGroup::Secp256r1 => (
                "EcdhKeyExchange::P256",
                Some(buf_as_slice(&self.public_key_bytes).len()),
            ),
            NamedGroup::Secp384r1 => (
                "EcdhKeyExchange::P384",
                Some(buf_as_slice(&self.public_key_bytes).len()),
            ),
            _ => ("EcdhKeyExchange::Unknown", None),
        }
    }
}

/// Ends an exchange: if a secret could be derived, `out` holds it, and else stays as it is.
pub fn put_secret(out: &mut Buf, shared_secret: Result<Vec<u8>, ErrorStack>) -> (result: Result<
    (),
    String,
>)
    ensures
        match shared_secret {
            Ok(secret) => result is Ok && buf_bytes(*final(out)) == secret@,
            Err(errors) => {
                &&& result matches Err(message) && is_text_of(errors, message)
                &&& *final(out) == *old(out)
            },
        },
{
    match shared_secret {
        Ok(secret) => {
            replace_bytes(out, secret.as_slice());
            Ok(())
        },
        Err(e) => Err(e.to_string()),
    }
}

/// The name of an exchange in debug output.
pub open spec fn debug_name(group: NamedGroup) -> Seq<char> {
    match group {
        NamedGroup::Secp256r1 => "EcdhKeyExchange::P256"@,
        NamedGroup::Secp384r1 => "EcdhKeyExchange::P384"@,
        _ => "EcdhKeyExchange::Unknown"@,
    }
}

/// P-256 (secp256r1) key exchange group.
#[derive(Debug)]
pub struct P256;

impl P256 {
    /// Named group identifier.
    pub fn name(&self) -> (group: NamedGroup)
        ensures
            group == NamedGroup::Secp256r1,
    {
        NamedGroup::Secp256r1
    }

    /// Start a new key exchange, generating ephemeral keypair.
    pub fn start_exchange(&self, buf: Buf) -> (result: Result<EcdhKeyExchange, String>)
        ensures
            match result {
                Ok(exchange) => exchange.named_group() == NamedGroup::Secp256r1
                    && exchange.well_formed(),
                Err(message) => is_resource_failure_text(message),
            },
    {
        EcdhKeyExchange::new(NamedGroup::Secp256r1, buf)
    }
}

/// P-384 (secp384r1) key exchange group.
#[derive(Debug)]
pub struct P384;

impl P384 {
    /// Named group identifier.
    pub fn name(&self) -> (group: NamedGroup)
        ensures
            group == NamedGroup::Secp384r1,
    {
        NamedGroup::Secp384r1
    }

    /// Start a new key exchange, generating ephemeral keypair.
    pub fn start_exchange(&self, buf: Buf) -> (result: Result<EcdhKeyExchange, String>)
        ensures
            match result {
                Ok(exchange) => exchange.named_group() == NamedGroup::Secp384r1
                    && exchange.well_formed(),
                Err(message) => is_resource_failure_text(message),
            },
    {
        EcdhKeyExchange::new(NamedGroup::Secp384r1, buf)
    }
}

/// P-256 and P-384 are supported, under the numbers that OpenSSL gives them, and no other group is.
/// The error for another group names it.
pub proof fn two_groups_are_supported(group: NamedGroup)
    ensures
        match group {
            NamedGroup::Secp256r1 => group_nid(group) == Some(415int),
            NamedGroup::Secp384r1 => group_nid(group) == Some(715int),
            NamedGroup::Unknown(value) => {
                &&& group_nid(group) is None
                &&& unsupported(group) == "Unsupported group: "@ + ("Unknown("@ + decimal(
                    value as nat,
                ) + ")"@)
            },
            _ => group_nid(group) is None && unsupported(group) == "Unsupported group: "@
                + group_text(group),
        },
{
}

/// An exchange publishes the point that goes with its private number on the curve of its group,
/// uncompressed, and a peer that reads these bytes gets that point.
pub proof fn exchanges_publish_the_point_of_their_number(exchange: EcdhKeyExchange)
    requires
        exchange.well_formed(),
    ensures
        exchange.named_group() == NamedGroup::Secp256r1 || exchange.named_group()
            == NamedGroup::Secp384r1,
        ({
            let nid: int = if exchange.named_group() == NamedGroup::Secp256r1 {
                415
            } else {
                715
            };
            let point = public_point(nid, exchange.scalar());
            &&& point is Some
            &&& exchange.public_bytes() == sec1_uncompressed(nid, point)
            &&& decoded_point(nid, exchange.public_bytes()) == Some(point)
        }),
{
}

/// An exchange ends with the secret that OpenSSL derives from its private number and the point that
/// all of the peer's bytes read as, and with nothing else in the output. It fails on bytes that read
/// as no point or as the one at infinity, and for want of OpenSSL's resources, and then leaves the
/// output as it is.
pub proof fn exchanges_end_with_the_derived_secret(
    exchange: EcdhKeyExchange,
    peer_pub: Seq<u8>,
    before: Buf,
    after: Buf,
    result: Result<(), String>,
)
    requires
        exchange.well_formed(),
        exchange.completes(peer_pub, before, after, result),
    ensures
        ({
            let nid: int = if exchange.named_group() == NamedGroup::Secp256r1 {
                415
            } else {
                715
            };
            match result {
                Ok(()) => {
                    &&& decoded_point(nid, peer_pub) matches Some(point)
                    &&& point is Some
                    &&& buf_bytes(after) == derived_secret(nid, exchange.scalar(), point)
                    &&& forall|other: nat| #[trigger]
                        public_point(nid, other) == point ==> buf_bytes(after) == derived_secret(
                            nid,
                            other,
                            public_point(nid, exchange.scalar()),
                        )
                },
                Err(message) => {
                    &&& after == before
                    &&& is_openssl_text(message)
                    &&& (decoded_point(nid, peer_pub) matches Some(point) && point is Some)
                        ==> is_resource_failure_text(message)
                },
            }
        }),
{
}

/// Two exchanges of one group that have been given each other's public key end with the same
/// secret, of 32 bytes for P-256 and 48 for P-384.
pub proof fn both_sides_share_one_secret(
    a: EcdhKeyExchange,
    b: EcdhKeyExchange,
    secret_a: Seq<u8>,
    secret_b: Seq<u8>,
)
    requires
        a.well_formed(),
        b.well_formed(),
        a.named_group() == b.named_group(),
        a.completes_with(b.public_bytes(), secret_a),
        b.completes_with(a.public_bytes(), secret_b),
    ensures
        secret_a == secret_b,
        secret_a.len() == (match a.named_group() {
            NamedGroup::Secp256r1 => 32int,
            _ => 48,
        }),
{
}

/// An exchange that has been given the public key of another one of the same group completes, unless
/// OpenSSL has a resource failure.
pub proof fn exchanges_complete(
    a: EcdhKeyExchange,
    b: EcdhKeyExchange,
    before: Buf,
    after: Buf,
    result: Result<(), String>,
)
    requires
        a.well_formed(),
        b.well_formed(),
        a.named_group() == b.named_group(),
        a.completes(b.public_bytes(), before, after, result),
    ensures
        match result {
            Ok(()) => a.completes_with(b.public_bytes(), buf_bytes(after)),
            Err(message) => after == before && is_resource_failure_text(message),
        },
{
}

/// Bytes that are no public key of the curve are refused, and the output stays as it is.
pub proof fn a_bad_public_key_is_refused(
    exchange: EcdhKeyExchange,
    peer_pub: Seq<u8>,
    before: Buf,
    after: Buf,
    result: Result<(), String>,
)
    requires
        exchange.completes(peer_pub, before, after, result),
        !is_public_key(exchange.nid(), peer_pub) || !has_sec1_shape(exchange.nid(), peer_pub),
    ensures
        result is Err,
        after == before,
{
}

/// A public key is 65 bytes long for P-256 and 97 for P-384, and starts with a byte 4.
pub proof fn public_keys_are_uncompressed_points(exchange: EcdhKeyExchange)
    requires
        exchange.well_formed(),
    ensures
        exchange.public_bytes().len() == (match exchange.named_group() {
            NamedGroup::Secp256r1 => 65int,
            _ => 97,
        }),
        exchange.public_bytes()[0] == 4,
{
    let (x, y) = public_point(exchange.nid(), exchange.scalar())->0;
    let len = coordinate_len(exchange.nid());
    big_endian_len(x, len);
    big_endian_len(y, len);
}

} // verus!
