//! Key exchange groups, on OpenSSL.

use dimpl::crypto::{Buf, TmpBuf};
use openssl::bn::BigNum;
use openssl::ec::{EcGroup, EcKey};
use openssl::error::ErrorStack;
use openssl::nid::Nid;
use openssl::pkey::Private;
use str0m::dimpl_provider::buffer::{replace_bytes, replace_in_place};
use str0m::dimpl_provider::kx_group::{
    nid_for_group, put_secret, EcdhKeyExchange, NamedGroup, P256, P384,
};
use str0m::text::append_decimal;

/// The generator of P-256.
const P256_GENERATOR: &str = "04\
    6b17d1f2e12c4247f8bce6e563a440f277037d812deb33a0f4a13945d898c296\
    4fe342e2fe1a7f9b8ee7eb4a7c0f9e162bce33576b315ececbb6406837bf51f5";

/// The generator of P-384.
const P384_GENERATOR: &str = "04\
    aa87ca22be8b05378eb1c71ef320ad746e1d3b628ba79b9859f741e082542a385502f25dbf55296c3a545e3872760ab7\
    3617de4a96262c6f5d9e98bf9292dc29f8f41dbd289a147ce9da3113b5f0b8c00a60b1ce1d7e819d7a431d7c90ea0e5f";

fn bytes(hex: &str) -> Vec<u8> {
    (0..hex.len() / 2)
        .map(|i| u8::from_str_radix(&hex[2 * i..2 * i + 2], 16).unwrap())
        .collect()
}

fn secret(exchange: EcdhKeyExchange, peer_pub: &[u8]) -> Vec<u8> {
    let mut out = Buf::new();
    out.extend_from_slice(b"old");
    exchange.complete(peer_pub, &mut out).unwrap();
    out.as_ref().to_vec()
}

#[test]
fn both_sides_of_p256_agree() {
    let a = P256.start_exchange(Buf::new()).unwrap();
    let b = P256.start_exchange(Buf::new()).unwrap();
    let (pub_a, pub_b) = (a.pub_key().to_vec(), b.pub_key().to_vec());
    assert_ne!(pub_a, pub_b);
    let secret_a = secret(a, &pub_b);
    assert_eq!(secret_a.len(), 32);
    assert_eq!(secret_a, secret(b, &pub_a));
}

#[test]
fn both_sides_of_p384_agree() {
    let a = P384.start_exchange(Buf::new()).unwrap();
    let b = P384.start_exchange(Buf::new()).unwrap();
    let (pub_a, pub_b) = (a.pub_key().to_vec(), b.pub_key().to_vec());
    let secret_a = secret(a, &pub_b);
    assert_eq!(secret_a.len(), 48);
    assert_eq!(secret_a, secret(b, &pub_a));
}

#[test]
fn public_keys_are_uncompressed_points() {
    let mut buf = Buf::new();
    buf.extend_from_slice(b"old contents");
    let exchange = P256.start_exchange(buf).unwrap();
    assert_eq!(exchange.pub_key().len(), 65);
    assert_eq!(exchange.pub_key()[0], 4);

    let exchange = P384.start_exchange(Buf::new()).unwrap();
    assert_eq!(exchange.pub_key().len(), 97);
    assert_eq!(exchange.pub_key()[0], 4);
}

#[test]
fn the_secret_shared_with_one_is_the_own_coordinate() {
    // A peer whose private number is one has the generator for a public key.
    let exchange = P256.start_exchange(Buf::new()).unwrap();
    let x = exchange.pub_key()[1..33].to_vec();
    assert_eq!(secret(exchange, &bytes(P256_GENERATOR)), x);

    let exchange = P384.start_exchange(Buf::new()).unwrap();
    let x = exchange.pub_key()[1..49].to_vec();
    assert_eq!(secret(exchange, &bytes(P384_GENERATOR)), x);
}

#[test]
fn a_compressed_public_key_is_understood() {
    let exchange = P256.start_exchange(Buf::new()).unwrap();
    let x = exchange.pub_key()[1..33].to_vec();
    let mut peer = vec![3u8];
    peer.extend_from_slice(&bytes(P256_GENERATOR)[1..33]);
    assert_eq!(secret(exchange, &peer), x);
}

#[test]
fn a_bad_public_key_leaves_the_output_alone() {
    let mut off_curve = bytes(P256_GENERATOR);
    off_curve[64] ^= 1;
    for peer in [
        Vec::new(),
        vec![0u8],
        vec![4u8; 65],
        vec![5u8; 65],
        bytes(P384_GENERATOR),
        bytes(P256_GENERATOR)[..64].to_vec(),
        off_curve,
    ] {
        let exchange = P256.start_exchange(Buf::new()).unwrap();
        let mut out = Buf::new();
        out.extend_from_slice(b"old");
        assert!(exchange.complete(&peer, &mut out).is_err());
        assert_eq!(out.as_ref(), b"old");
    }
}

/// The key of P-256 with the private number one.
fn key_one() -> EcKey<Private> {
    let group = EcGroup::from_curve_name(Nid::X9_62_PRIME256V1).unwrap();
    let one = BigNum::from_u32(1).unwrap();
    EcKey::from_private_components(&group, &one, group.generator()).unwrap()
}

#[test]
fn an_exported_key_starts_an_exchange() {
    let mut buf = Buf::new();
    buf.extend_from_slice(b"old");
    let generator = bytes(P256_GENERATOR);
    let exchange =
        EcdhKeyExchange::from_exported(NamedGroup::Secp256r1, key_one(), Ok(generator), buf)
            .unwrap();
    assert_eq!(exchange.group(), NamedGroup::Secp256r1);
    assert_eq!(exchange.pub_key(), &bytes(P256_GENERATOR)[..]);

    // With the private number one, the secret is the coordinate of the peer.
    let peer = P256.start_exchange(Buf::new()).unwrap();
    let peer_pub = peer.pub_key().to_vec();
    assert_eq!(secret(exchange, &peer_pub), peer_pub[1..33].to_vec());
    assert_eq!(secret(peer, &bytes(P256_GENERATOR)), peer_pub[1..33].to_vec());
}

#[test]
fn a_key_that_is_not_exported_starts_no_exchange() {
    let failed = Err(ErrorStack::get());
    let result =
        EcdhKeyExchange::from_exported(NamedGroup::Secp256r1, key_one(), failed, Buf::new());
    assert_eq!(result.err().unwrap(), ErrorStack::get().to_string());
}

#[test]
fn put_secret_replaces_the_output() {
    let mut out = Buf::new();
    out.extend_from_slice(b"old");
    assert_eq!(
        put_secret(&mut out, Err(ErrorStack::get())),
        Err(ErrorStack::get().to_string())
    );
    assert_eq!(out.as_ref(), b"old");
    assert!(put_secret(&mut out, Ok(vec![1, 2, 3])).is_ok());
    assert_eq!(out.as_ref(), &[1, 2, 3]);
}

#[test]
fn groups_and_their_names() {
    assert_eq!(P256.name(), NamedGroup::Secp256r1);
    assert_eq!(P384.name(), NamedGroup::Secp384r1);
    assert_eq!(
        P256.start_exchange(Buf::new()).unwrap().group(),
        NamedGroup::Secp256r1
    );
    assert_eq!(
        P384.start_exchange(Buf::new()).unwrap().group(),
        NamedGroup::Secp384r1
    );
}

#[test]
fn nids_of_supported_groups() {
    assert_eq!(nid_for_group(NamedGroup::Secp256r1).unwrap().as_raw(), 415);
    assert_eq!(nid_for_group(NamedGroup::Secp384r1).unwrap().as_raw(), 715);
}

#[test]
fn unsupported_groups_are_named_in_the_error() {
    assert_eq!(
        nid_for_group(NamedGroup::X25519).err().unwrap(),
        "Unsupported group: X25519"
    );
    assert_eq!(
        nid_for_group(NamedGroup::Unknown(4660)).err().unwrap(),
        "Unsupported group: Unknown(4660)"
    );
    assert_eq!(
        EcdhKeyExchange::new(NamedGroup::Secp521r1, Buf::new()).err().unwrap(),
        "Unsupported group: Secp521r1"
    );
}

#[test]
fn the_error_shows_a_group_as_debug_does() {
    for group in [
        NamedGroup::Sect163k1,
        NamedGroup::Sect163r1,
        NamedGroup::Sect163r2,
        NamedGroup::Sect193r1,
        NamedGroup::Sect193r2,
        NamedGroup::Sect233k1,
        NamedGroup::Sect233r1,
        NamedGroup::Sect239k1,
        NamedGroup::Sect283k1,
        NamedGroup::Sect283r1,
        NamedGroup::Sect409k1,
        NamedGroup::Sect409r1,
        NamedGroup::Sect571k1,
        NamedGroup::Sect571r1,
        NamedGroup::Secp160k1,
        NamedGroup::Secp160r1,
        NamedGroup::Secp160r2,
        NamedGroup::Secp192k1,
        NamedGroup::Secp192r1,
        NamedGroup::Secp224k1,
        NamedGroup::Secp224r1,
        NamedGroup::Secp256k1,
        NamedGroup::Secp521r1,
        NamedGroup::X25519,
        NamedGroup::X448,
        NamedGroup::Unknown(0),
        NamedGroup::Unknown(65535),
    ] {
        assert_eq!(
            nid_for_group(group).err().unwrap(),
            format!("Unsupported group: {group:?}")
        );
    }
}

#[test]
fn debug_parts_name_the_curve() {
    let exchange = P256.start_exchange(Buf::new()).unwrap();
    assert_eq!(exchange.debug_parts(), ("EcdhKeyExchange::P256", Some(65)));
    let exchange = P384.start_exchange(Buf::new()).unwrap();
    assert_eq!(exchange.debug_parts(), ("EcdhKeyExchange::P384", Some(97)));
}

#[test]
fn buffers_are_replaced() {
    let mut buf = Buf::new();
    buf.extend_from_slice(b"old contents");
    replace_bytes(&mut buf, b"new");
    assert_eq!(buf.as_ref(), b"new");

    let mut backing = *b"0123456789";
    let mut tmp = TmpBuf::new(&mut backing);
    replace_in_place(&mut tmp, b"abc");
    assert_eq!(tmp.as_ref(), b"abc");
    assert_eq!(tmp.len(), 3);
    assert_eq!(&backing, b"abc3456789");
}

#[test]
fn decimal_text() {
    let mut text = String::from("n = ");
    append_decimal(&mut text, 0);
    append_decimal(&mut text, 907);
    assert_eq!(text, "n = 0907");

    let mut text = String::new();
    append_decimal(&mut text, usize::MAX);
    assert_eq!(text, usize::MAX.to_string());
}

#[test]
fn a_supported_group_starts_and_another_does_not() {
    for (group, len) in [(NamedGroup::Secp256r1, 65), (NamedGroup::Secp384r1, 97)] {
        let exchange = EcdhKeyExchange::new(group, Buf::new()).unwrap();
        assert_eq!(exchange.group(), group);
        assert_eq!(exchange.pub_key().len(), len);
    }
    assert!(EcdhKeyExchange::new(NamedGroup::X448, Buf::new()).is_err());
}
