//! Cipher suites, on OpenSSL.

use dimpl::crypto::{Aad, Buf, Nonce, TmpBuf};
use openssl::error::ErrorStack;
use str0m::dimpl_provider::buffer::in_place;
use str0m::dimpl_provider::cipher_suite::{
    aes_ecb_encrypt, finished_block, or_ecb_error, put_opened, put_sealed, Aes128GcmSha256,
    Aes256GcmSha384, AesGcm, Dtls12CipherSuite, Dtls13CipherSuite, EcbCall, HashAlgorithm,
    Tls13Aes128GcmSha256, Tls13Aes256GcmSha384, AES_GCM_TAG_LEN,
};
use str0m::dimpl_provider::evp::or_text;

fn bytes(hex: &str) -> Vec<u8> {
    (0..hex.len() / 2)
        .map(|i| u8::from_str_radix(&hex[2 * i..2 * i + 2], 16).unwrap())
        .collect()
}

fn block(hex: &str) -> [u8; 16] {
    let mut block = [0u8; 16];
    block.copy_from_slice(&bytes(hex));
    block
}

fn nonce(hex: &str) -> Nonce {
    let mut nonce = [0u8; 12];
    nonce.copy_from_slice(&bytes(hex));
    Nonce(nonce)
}

fn no_aad() -> Aad {
    Aad(Default::default())
}

fn sealed(key: &[u8], nonce: Nonce, aad: Aad, plaintext: &[u8]) -> Vec<u8> {
    let mut buf = Buf::new();
    buf.extend_from_slice(plaintext);
    AesGcm::new(key).unwrap().encrypt(&mut buf, aad, nonce).unwrap();
    buf.as_ref().to_vec()
}

fn opened(key: &[u8], nonce: Nonce, aad: Aad, sealed: &[u8]) -> Result<Vec<u8>, String> {
    let mut backing = sealed.to_vec();
    let mut tmp = TmpBuf::new(&mut backing);
    AesGcm::new(key).unwrap().decrypt(&mut tmp, aad, nonce)?;
    Ok(tmp.as_ref().to_vec())
}

#[test]
fn aes128_gcm_encrypt_decrypt_roundtrip() {
    let key = [0x42u8; 16];
    let nonce = Nonce([0x01u8; 12]);
    let plaintext = b"hello world, this is a test message for AES-GCM";

    let mut cipher = AesGcm::new(&key).unwrap();

    // Encrypt
    let mut buf = Buf::new();
    buf.extend_from_slice(plaintext);
    cipher
        .encrypt(&mut buf, Aad([0u8; 13].into()), nonce)
        .unwrap();

    // Ciphertext should be plaintext_len + 16 (tag)
    assert_eq!(buf.len(), plaintext.len() + AES_GCM_TAG_LEN);
    // Should differ from plaintext
    assert_ne!(&buf.as_ref()[..plaintext.len()], &plaintext[..]);

    // Decrypt
    let mut backing = buf.as_ref().to_vec();
    let mut tmp = TmpBuf::new(&mut backing);
    cipher
        .decrypt(&mut tmp, Aad([0u8; 13].into()), nonce)
        .unwrap();
    assert_eq!(tmp.as_ref(), plaintext);
}

#[test]
fn aes256_gcm_encrypt_decrypt_roundtrip() {
    let key = [0x42u8; 32];
    let nonce = Nonce([0x02u8; 12]);
    let plaintext = b"AES-256-GCM test";

    let mut cipher = AesGcm::new(&key).unwrap();

    let mut buf = Buf::new();
    buf.extend_from_slice(plaintext);
    cipher
        .encrypt(&mut buf, Aad([0u8; 13].into()), nonce)
        .unwrap();

    let mut backing = buf.as_ref().to_vec();
    let mut tmp = TmpBuf::new(&mut backing);
    cipher
        .decrypt(&mut tmp, Aad([0u8; 13].into()), nonce)
        .unwrap();
    assert_eq!(tmp.as_ref(), plaintext);
}

#[test]
fn aes_gcm_wrong_key_fails_decrypt() {
    let key1 = [0x42u8; 16];
    let key2 = [0x43u8; 16];
    let nonce = Nonce([0x01u8; 12]);
    let plaintext = b"secret";

    let mut cipher1 = AesGcm::new(&key1).unwrap();
    let mut cipher2 = AesGcm::new(&key2).unwrap();

    let mut buf = Buf::new();
    buf.extend_from_slice(plaintext);
    cipher1
        .encrypt(&mut buf, Aad([0u8; 13].into()), nonce)
        .unwrap();

    let mut backing = buf.as_ref().to_vec();
    let mut tmp = TmpBuf::new(&mut backing);
    assert!(cipher2
        .decrypt(&mut tmp, Aad([0u8; 13].into()), nonce)
        .is_err());
}

#[test]
fn aes_gcm_invalid_key_size_rejected() {
    assert!(AesGcm::new(&[0u8; 15]).is_err());
    assert!(AesGcm::new(&[0u8; 24]).is_err());
    assert!(AesGcm::new(&[0u8; 16]).is_ok());
    assert!(AesGcm::new(&[0u8; 32]).is_ok());
}

#[test]
fn aes_ecb_encrypt_deterministic() {
    let key = [0u8; 16];
    let input = [0u8; 16];
    let result = aes_ecb_encrypt(&key, &input).unwrap();
    assert_eq!(result.len(), 16);
    // Different input produces different output
    let input2 = [0x01u8; 16];
    let result2 = aes_ecb_encrypt(&key, &input2).unwrap();
    assert_ne!(result, result2);
}

#[test]
fn aes128_gcm_published_vectors() {
    // Without data
    assert_eq!(
        sealed(&[0u8; 16], Nonce([0u8; 12]), no_aad(), &[]),
        bytes("58e2fccefa7e3061367f1d57a4e7455a")
    );
    // One block
    assert_eq!(
        sealed(&[0u8; 16], Nonce([0u8; 12]), no_aad(), &[0u8; 16]),
        bytes("0388dace60b6a392f328c2b971b2fe78ab6e47d42cec13bdf53a67b21257bddf")
    );
    // Four blocks
    let key = bytes("feffe9928665731c6d6a8f9467308308");
    let plaintext = bytes(
        "d9313225f88406e5a55909c5aff5269a86a7a9531534f7da2e4c303d8a318a72\
         1c3c0c95956809532fcf0e2449a6b525b16aedf5aa0de657ba637b391aafd255",
    );
    let expected = bytes(
        "42831ec2217774244b7221b784d0d49ce3aa212f2c02a4e035c17e2329aca12e\
         21d514b25466931c7d8f6a5aac84aa051ba30b396a0aac973d58e091473f5985\
         4d5c2af327cd64a62cf35abd2ba6fab4",
    );
    let iv = nonce("cafebabefacedbaddecaf888");
    assert_eq!(sealed(&key, iv, no_aad(), &plaintext), expected);
    assert_eq!(opened(&key, iv, no_aad(), &expected).unwrap(), plaintext);
}

#[test]
fn aes256_gcm_published_vector() {
    let expected = bytes("cea7403d4d606b6e074ec5d3baf39d18d0d1c8a799996bf0265b98b5d48ab919");
    assert_eq!(sealed(&[0u8; 32], Nonce([0u8; 12]), no_aad(), &[0u8; 16]), expected);
    assert_eq!(
        opened(&[0u8; 32], Nonce([0u8; 12]), no_aad(), &expected).unwrap(),
        vec![0u8; 16]
    );
}

#[test]
fn gcm_roundtrip_of_every_short_length() {
    let key = [7u8; 16];
    let iv = Nonce([9u8; 12]);
    for len in 0..70usize {
        let plaintext: Vec<u8> = (0..len).map(|i| i as u8).collect();
        let message = sealed(&key, iv, Aad([3u8; 13].into()), &plaintext);
        assert_eq!(message.len(), len + AES_GCM_TAG_LEN);
        assert_eq!(message, sealed(&key, iv, Aad([3u8; 13].into()), &plaintext));
        assert_eq!(opened(&key, iv, Aad([3u8; 13].into()), &message).unwrap(), plaintext);
    }
}

#[test]
fn gcm_depends_on_every_input() {
    let plaintext = b"payload";
    let message = sealed(&[1u8; 16], Nonce([2u8; 12]), Aad([3u8; 13].into()), plaintext);
    assert_ne!(message, sealed(&[9u8; 16], Nonce([2u8; 12]), Aad([3u8; 13].into()), plaintext));
    assert_ne!(message, sealed(&[1u8; 16], Nonce([9u8; 12]), Aad([3u8; 13].into()), plaintext));
    assert_ne!(message, sealed(&[1u8; 16], Nonce([2u8; 12]), Aad([9u8; 13].into()), plaintext));
    assert_ne!(message, sealed(&[1u8; 16], Nonce([2u8; 12]), Aad([3u8; 13].into()), b"Payload"));
    assert!(opened(&[1u8; 16], Nonce([9u8; 12]), Aad([3u8; 13].into()), &message).is_err());
    assert!(opened(&[1u8; 16], Nonce([2u8; 12]), Aad([9u8; 13].into()), &message).is_err());
}

#[test]
fn refused_ciphertext_stays_as_it_is() {
    let key = [1u8; 32];
    let iv = Nonce([2u8; 12]);
    let mut message = sealed(&key, iv, no_aad(), b"some payload");
    for i in 0..message.len() {
        message[i] ^= 1;
        let mut backing = message.clone();
        let mut tmp = TmpBuf::new(&mut backing);
        assert!(AesGcm::new(&key).unwrap().decrypt(&mut tmp, no_aad(), iv).is_err());
        assert_eq!(tmp.as_ref(), &message[..]);
        message[i] ^= 1;
    }
}

#[test]
fn decrypt_of_less_than_a_tag_is_an_error() {
    for len in 0..AES_GCM_TAG_LEN {
        assert_eq!(
            opened(&[1u8; 16], Nonce([2u8; 12]), no_aad(), &vec![0u8; len]),
            Err("Ciphertext too short for GCM tag".to_string())
        );
    }
}

#[test]
fn invalid_key_size_messages() {
    assert_eq!(
        AesGcm::new(&[0u8; 24]).err().unwrap(),
        "Invalid key size for AES-GCM: 24"
    );
    assert_eq!(
        AesGcm::new(&[]).err().unwrap(),
        "Invalid key size for AES-GCM: 0"
    );
    assert_eq!(
        AesGcm::new(&vec![0u8; 1050]).err().unwrap(),
        "Invalid key size for AES-GCM: 1050"
    );
}

#[test]
fn cipher_fits_the_key() {
    let short = AesGcm::new(&[0u8; 16]).unwrap();
    let long = AesGcm::new(&[0u8; 32]).unwrap();
    assert_eq!(short.cipher().key_length(), 16);
    assert_eq!(long.cipher().key_length(), 32);
    assert_eq!(short.cipher().iv_length(), 12);
    assert_eq!(short.cipher().block_size(), 1);
}

#[test]
fn put_sealed_replaces_the_buffer() {
    let mut buf = Buf::new();
    buf.extend_from_slice(b"old");
    assert_eq!(
        put_sealed(&mut buf, &[1, 2, 3], &[4, 5], Err(ErrorStack::get())),
        Err(ErrorStack::get().to_string())
    );
    assert_eq!(buf.as_ref(), b"old");
    assert!(put_sealed(&mut buf, &[1, 2, 3], &[4, 5], Ok(())).is_ok());
    assert_eq!(buf.as_ref(), &[1, 2, 3, 4, 5]);
}

#[test]
fn put_opened_replaces_the_bytes_in_use() {
    let mut backing = *b"0123456789";
    let mut tmp = TmpBuf::new(&mut backing);
    assert_eq!(
        put_opened(&mut tmp, b"abcdef", 3, Err(ErrorStack::get())),
        Err(ErrorStack::get().to_string())
    );
    assert_eq!(tmp.as_ref(), b"0123456789");
    assert!(put_opened(&mut tmp, b"abcdef", 3, Ok(1)).is_ok());
    assert_eq!(tmp.as_ref(), b"abcd");
    assert_eq!(&backing, b"abcd456789");
}

#[test]
fn aes_ecb_published_vectors() {
    let plaintext = block("00112233445566778899aabbccddeeff");
    let short = bytes("000102030405060708090a0b0c0d0e0f");
    let long = bytes("000102030405060708090a0b0c0d0e0f101112131415161718191a1b1c1d1e1f");
    assert_eq!(
        aes_ecb_encrypt(&short, &plaintext).unwrap(),
        block("69c4e0d86a7b0430d8cdb78070b4c55a")
    );
    assert_eq!(
        aes_ecb_encrypt(&long, &plaintext).unwrap(),
        block("8ea2b7ca516745bfeafc49904b496089")
    );
    // The same input gives the same output.
    assert_eq!(
        aes_ecb_encrypt(&short, &plaintext).unwrap(),
        aes_ecb_encrypt(&short, &plaintext).unwrap()
    );
}

#[test]
fn dtls12_suites() {
    let suite = Aes128GcmSha256;
    assert_eq!(suite.suite(), Dtls12CipherSuite::ECDHE_ECDSA_AES128_GCM_SHA256);
    assert_eq!(suite.hash_algorithm(), HashAlgorithm::SHA256);
    assert_eq!(suite.key_lengths(), (0, 16, 4));
    assert!(suite.create_cipher(&[0u8; 16]).is_ok());
    assert_eq!(
        suite.create_cipher(&[0u8; 17]).err().unwrap(),
        "Invalid key size for AES-GCM: 17"
    );

    let suite = Aes256GcmSha384;
    assert_eq!(suite.suite(), Dtls12CipherSuite::ECDHE_ECDSA_AES256_GCM_SHA384);
    assert_eq!(suite.hash_algorithm(), HashAlgorithm::SHA384);
    assert_eq!(suite.key_lengths(), (0, 32, 4));
    assert!(suite.create_cipher(&[0u8; 32]).is_ok());
    assert!(suite.create_cipher(&[0u8; 31]).is_err());
}

#[test]
fn dtls13_suites() {
    let sample = block("00112233445566778899aabbccddeeff");

    let suite = Tls13Aes128GcmSha256;
    assert_eq!(suite.suite(), Dtls13CipherSuite::AES_128_GCM_SHA256);
    assert_eq!(suite.hash_algorithm(), HashAlgorithm::SHA256);
    assert_eq!((suite.key_len(), suite.iv_len(), suite.tag_len()), (16, 12, 16));
    assert!(suite.create_cipher(&[0u8; 16]).is_ok());
    assert!(suite.create_cipher(&[0u8; 0]).is_err());
    let sn_key = bytes("000102030405060708090a0b0c0d0e0f");
    assert_eq!(
        suite.encrypt_sn(&sn_key, &sample).unwrap(),
        block("69c4e0d86a7b0430d8cdb78070b4c55a")
    );

    let suite = Tls13Aes256GcmSha384;
    assert_eq!(suite.suite(), Dtls13CipherSuite::AES_256_GCM_SHA384);
    assert_eq!(suite.hash_algorithm(), HashAlgorithm::SHA384);
    assert_eq!((suite.key_len(), suite.iv_len(), suite.tag_len()), (32, 12, 16));
    assert!(suite.create_cipher(&[0u8; 32]).is_ok());
    assert!(suite.create_cipher(&[0u8; 33]).is_err());
    let sn_key = bytes("000102030405060708090a0b0c0d0e0f101112131415161718191a1b1c1d1e1f");
    assert_eq!(
        suite.encrypt_sn(&sn_key, &sample).unwrap(),
        block("8ea2b7ca516745bfeafc49904b496089")
    );
}

#[test]
fn try_encrypt_and_try_decrypt_do_the_same() {
    let mut cipher = AesGcm::new(&[0u8; 16]).unwrap();
    let iv = Nonce([0u8; 12]);
    let mut buf = Buf::new();
    buf.extend_from_slice(&[0u8; 16]);
    assert_eq!(cipher.try_encrypt(&mut buf, no_aad(), iv), Some(Ok(())));
    assert_eq!(
        buf.as_ref(),
        &bytes("0388dace60b6a392f328c2b971b2fe78ab6e47d42cec13bdf53a67b21257bddf")[..]
    );

    let mut backing = buf.as_ref().to_vec();
    let mut tmp = in_place(&mut backing);
    assert_eq!(tmp.len(), 32);
    assert_eq!(cipher.try_decrypt(&mut tmp, no_aad(), iv), Some(Ok(())));
    assert_eq!(tmp.as_ref(), &[0u8; 16]);
    // What is left is no more than a tag could be.
    assert!(matches!(cipher.try_decrypt(&mut tmp, no_aad(), iv), Some(Err(_))));

    let mut short = [0u8; 15];
    assert_eq!(
        cipher.try_decrypt(&mut in_place(&mut short), no_aad(), iv),
        Some(Err("Ciphertext too short for GCM tag".to_string()))
    );
}

#[test]
fn or_text_hands_on_the_reply() {
    assert_eq!(or_text(Ok(7u8)), Ok(7));
    let errors = ErrorStack::get();
    let text = errors.to_string();
    assert_eq!(or_text::<u8>(Err(errors)), Err(text));
}

#[test]
fn a_failed_block_encryption_names_the_call() {
    assert_eq!(or_ecb_error(EcbCall::NewContext, Ok(7u8)).unwrap(), 7);
    for call in [EcbCall::NewContext, EcbCall::EncryptInit, EcbCall::CipherUpdate] {
        let error = or_ecb_error::<u8>(call, Err(ErrorStack::get())).unwrap_err();
        assert_eq!(error.call, call);
    }
}

#[test]
fn finished_block_is_the_start_of_the_output() {
    let mut output = [0u8; 32];
    output[0] = 1;
    output[15] = 2;
    output[16] = 3;
    let mut expected = [0u8; 16];
    expected[0] = 1;
    expected[15] = 2;
    assert_eq!(finished_block(&output, Ok(0)).unwrap(), expected);
    assert_eq!(
        finished_block(&output, Err(ErrorStack::get())).unwrap_err().call,
        EcbCall::CipherFinal
    );
}

#[test]
fn every_ciphertext_that_holds_a_tag_is_tried() {
    // Only OpenSSL refuses these, so the message is not the one for a short ciphertext.
    for len in AES_GCM_TAG_LEN..40usize {
        let error = opened(&[1u8; 16], Nonce([2u8; 12]), no_aad(), &vec![0u8; len]).unwrap_err();
        assert_ne!(error, "Ciphertext too short for GCM tag");
    }
}

#[test]
fn decrypt_leaves_what_lies_behind_the_plaintext() {
    let message = sealed(&[1u8; 16], Nonce([2u8; 12]), no_aad(), b"payload");
    let mut backing = message.clone();
    backing.extend_from_slice(b"behind");
    let mut tmp = TmpBuf::new(&mut backing);
    tmp.truncate(message.len());
    let mut cipher = AesGcm::new(&[1u8; 16]).unwrap();
    cipher.decrypt(&mut tmp, no_aad(), Nonce([2u8; 12])).unwrap();
    assert_eq!(tmp.as_ref(), b"payload");
    assert_eq!(&backing[..7], b"payload");
    assert_eq!(backing[7..], [&message[7..], b"behind"].concat()[..]);
}
