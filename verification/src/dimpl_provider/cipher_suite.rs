//! Cipher suite implementations using OpenSSL.

use crate::dimpl_provider::buffer::{
    aad_as_slice, aad_bytes, buf_as_slice, buf_bytes, nonce_as_slice, nonce_bytes,
    replace_in_place, tmp_as_slice, tmp_backing, tmp_bytes, tmp_is_valid, tmp_len,
};
use crate::dimpl_provider::evp::{
    cipher_kind, ctx_history, decrypt_init, encrypt_init, finish, finished_encryption,
    is_openssl_text, is_resource_failure, is_resource_failure_text, is_text_of, opposite, or_text,
    read_tag, set_padding, set_tag, tag_output, update, update_aad, update_output, CipherKind,
    CtxStep,
};
use crate::text::{append_decimal, decimal};
use dimpl::crypto::{Aad, Buf, Nonce, TmpBuf};
use openssl::cipher::CipherRef;
use openssl::cipher_ctx::CipherCtx;
use openssl::error::ErrorStack;
use vstd::prelude::*;
use vstd::slice::slice_to_vec;

verus! {

/// Length of the authentication tag of AES-GCM.
pub const AES_GCM_TAG_LEN: usize = 16;

/// The GCM cipher for a key of 16 or 32 bytes.
pub open spec fn gcm_cipher(key: Seq<u8>) -> CipherKind {
    if key.len() == 16 {
        CipherKind::Aes128Gcm
    } else {
        CipherKind::Aes256Gcm
    }
}

/// A context that is ready to encrypt.
pub open spec fn sealing(key: Seq<u8>, nonce: Seq<u8>, aad: Seq<u8>) -> Seq<CtxStep> {
    seq![
        CtxStep::EncryptInit { cipher: gcm_cipher(key), key, iv: Some(nonce) },
        CtxStep::Aad { bytes: aad },
    ]
}

/// A context that is ready to decrypt.
pub open spec fn opening(key: Seq<u8>, nonce: Seq<u8>, aad: Seq<u8>) -> Seq<CtxStep> {
    seq![
        CtxStep::DecryptInit { cipher: gcm_cipher(key), key, iv: Some(nonce) },
        CtxStep::Aad { bytes: aad },
    ]
}

/// The AES-GCM encryption of `plaintext`, without the tag.
pub open spec fn gcm_encrypted(
    key: Seq<u8>,
    nonce: Seq<u8>,
    aad: Seq<u8>,
    plaintext: Seq<u8>,
) -> Seq<u8> {
    update_output(sealing(key, nonce, aad), plaintext)
}

/// The AES-GCM authentication tag of `plaintext`.
pub open spec fn gcm_tag(
    key: Seq<u8>,
    nonce: Seq<u8>,
    aad: Seq<u8>,
    plaintext: Seq<u8>,
) -> Seq<u8> {
    tag_output(
        sealing(key, nonce, aad).push(CtxStep::Data { bytes: plaintext }).push(CtxStep::Finish),
        AES_GCM_TAG_LEN as nat,
    )
}

/// The AES-GCM decryption of `ciphertext`, which holds no tag.
pub open spec fn gcm_decrypted(
    key: Seq<u8>,
    nonce: Seq<u8>,
    aad: Seq<u8>,
    ciphertext: Seq<u8>,
) -> Seq<u8> {
    update_output(opening(key, nonce, aad), ciphertext)
}

/// `sealed` is `plaintext` as encryption puts it out: the ciphertext, of the same length, with the
/// tag after it, and the ciphertext decrypts to the plaintext.
pub open spec fn seals(
    key: Seq<u8>,
    nonce: Seq<u8>,
    aad: Seq<u8>,
    plaintext: Seq<u8>,
    sealed: Seq<u8>,
) -> bool {
    let ciphertext = gcm_encrypted(key, nonce, aad, plaintext);
    let tag = gcm_tag(key, nonce, aad, plaintext);
    &&& sealed == ciphertext + tag
    &&& ciphertext.len() == plaintext.len()
    &&& tag.len() == AES_GCM_TAG_LEN
    &&& gcm_decrypted(key, nonce, aad, ciphertext) == plaintext
}

/// The last 16 bytes of `sealed` are the tag of what the bytes before them decrypt to.
pub open spec fn is_authentic(
    key: Seq<u8>,
    nonce: Seq<u8>,
    aad: Seq<u8>,
    sealed: Seq<u8>,
) -> bool {
    let ct_len = sealed.len() - AES_GCM_TAG_LEN;
    sealed.skip(ct_len) == gcm_tag(
        key,
        nonce,
        aad,
        gcm_decrypted(key, nonce, aad, sealed.take(ct_len)),
    )
}

/// `result` is what encrypting `before` gives, and `after` what the buffer then holds: the sealed
/// plaintext, or what it held before if OpenSSL had a resource failure.
pub open spec fn encrypts(
    key: Seq<u8>,
    nonce: Seq<u8>,
    aad: Seq<u8>,
    before: Buf,
    after: Buf,
    result: Result<(), String>,
) -> bool {
    match result {
        Ok(()) => seals(key, nonce, aad, buf_bytes(before), buf_bytes(after)),
        Err(message) => after == before && is_resource_failure_text(message),
    }
}

/// `result` is what decrypting `before` gives, and `after` what the buffer then is: the plaintext
/// in place of what it was sealed to, with the slice behind it as it was, or the same buffer if it
/// is too short to hold a tag, if the tag is not that of the rest, or if OpenSSL had a resource
/// failure.
pub open spec fn decrypts(
    key: Seq<u8>,
    nonce: Seq<u8>,
    aad: Seq<u8>,
    before: TmpBuf<'_>,
    after: TmpBuf<'_>,
    result: Result<(), String>,
) -> bool {
    match result {
        Ok(()) => {
            &&& tmp_len(before) >= AES_GCM_TAG_LEN
            &&& tmp_is_valid(after)
            &&& seals(key, nonce, aad, tmp_bytes(after), tmp_bytes(before))
            &&& tmp_backing(after) == tmp_bytes(after) + tmp_backing(before).skip(
                tmp_len(after) as int,
            )
        },
        Err(message) => {
            &&& after == before
            &&& if tmp_len(before) < AES_GCM_TAG_LEN {
                message@ == "Ciphertext too short for GCM tag"@
            } else {
                &&& is_openssl_text(message)
                &&& is_authentic(key, nonce, aad, tmp_bytes(before)) ==> is_resource_failure_text(
                    message,
                )
            }
        },
    }
}

/// `result` is what making a cipher with this key gives: the cipher for a key of 16 or 32 bytes,
/// and else a message.
pub open spec fn is_new_cipher(key: Seq<u8>, result: Result<AesGcm, String>) -> bool {
    match result {
        Ok(cipher) => (key.len() == 16 || key.len() == 32) && cipher.key() == key,
        Err(message) => key.len() != 16 && key.len() != 32 && message@
            == "Invalid key size for AES-GCM: "@ + decimal(key.len()),
    }
}

/// AES-GCM cipher implementation using OpenSSL.
pub struct AesGcm {
    key: Vec<u8>,
}

impl AesGcm {
    /// The key.
    pub closed spec fn key(&self) -> Seq<u8> {
        self.key@
    }

    #[verifier::type_invariant]
    closed spec fn key_fits_a_cipher(&self) -> bool {
        self.key@.len() == 16 || self.key@.len() == 32
    }

    /// A cipher with this key, which has 16 or 32 bytes.
    pub fn new(key: &[u8]) -> (result: Result<Self, String>)
        ensures
            is_new_cipher(key@, result),
            result is Ok <==> key@.len() == 16 || key@.len() == 32,
            result matches Ok(cipher) ==> cipher.key() == key@,
    {
        if key.len() != 16 && key.len() != 32 {
            let mut message = String::from_str("Invalid key size for AES-GCM: ");
            append_decimal(&mut message, key.len());
            return Err(message);
        }
        Ok(AesGcm { key: slice_to_vec(key) })
    }

    /// The OpenSSL cipher for the key.
    pub fn cipher(&self) -> (cipher: &'static CipherRef)
        ensures
            cipher_kind(*cipher) == gcm_cipher(self.key()),
            self.key().len() == gcm_cipher(self.key()).key_len(),
            cipher_kind(*cipher) == (if self.key().len() == 16 {
                CipherKind::Aes128Gcm
            } else {
                CipherKind::Aes256Gcm
            }),
    {
        proof {
            use_type_invariant(self);
        }
        if self.key.len() == 16 {
            openssl::cipher::Cipher::aes_128_gcm()
        } else {
            openssl::cipher::Cipher::aes_256_gcm()
        }
    }

    /// Encrypt plaintext in-place, appending authentication tag.
    pub fn encrypt(&mut self, plaintext: &mut Buf, aad: Aad, nonce: Nonce) -> (result: Result<
        (),
        String,
    >)
        requires
            buf_bytes(*old(plaintext)).len() <= i32::MAX,
        ensures
            *final(self) == *old(self),
            encrypts(
                old(self).key(),
                nonce_bytes(nonce),
                aad_bytes(aad),
                *old(plaintext),
                *final(plaintext),
                result,
            ),
            // The context is set up with this key, all of the nonce and all of the additional data.
            result is Ok ==> {
                let start = seq![
                    CtxStep::EncryptInit {
                        cipher: if old(self).key().len() == 16 {
                            CipherKind::Aes128Gcm
                        } else {
                            CipherKind::Aes256Gcm
                        },
                        key: old(self).key(),
                        iv: Some(nonce_bytes(nonce)),
                    },
                    CtxStep::Aad { bytes: aad_bytes(aad) },
                ];
                buf_bytes(*final(plaintext)) == update_output(start, buf_bytes(*old(plaintext)))
                    + tag_output(
                    start.push(CtxStep::Data { bytes: buf_bytes(*old(plaintext)) }).push(
                        CtxStep::Finish,
                    ),
                    16,
                )
            },
    {
        let mut ctx = or_text(CipherCtx::new())?;
        or_text(
            encrypt_init(
                &mut ctx,
                self.cipher(),
                self.key.as_slice(),
                Some(nonce_as_slice(&nonce)),
            ),
        )?;
        // Set AAD
        or_text(update_aad(&mut ctx, aad_as_slice(&aad)))?;
        let ghost start = sealing(self.key(), nonce_bytes(nonce), aad_bytes(aad));
        assert(ctx_history(ctx) =~= start);
        assert(start.update(0, opposite(start[0])) =~= opening(
            self.key(),
            nonce_bytes(nonce),
            aad_bytes(aad),
        ));

        // Encrypt plaintext
        // OpenSSL may write up to one extra block (16 bytes) during the update and at the end.
        let input = buf_as_slice(plaintext);
        let mut ciphertext: Vec<u8> = vec![0u8; input.len() + AES_GCM_TAG_LEN + 16];
        let count: usize = or_text(update(&mut ctx, input, ciphertext.as_mut_slice()))?;
        let ghost encrypted = ciphertext@.take(count as int);
        assert(ctx_history(ctx).take(2) =~= start);
        let final_count: usize = or_text(
            finish(&mut ctx, ciphertext.as_mut_slice().split_at_mut(count).1),
        )?;
        let ct_len: usize = count + final_count;
        assert(ciphertext@.take(ct_len as int) =~= encrypted);

        // Get the tag
        let mut tag: Vec<u8> = vec![0u8; AES_GCM_TAG_LEN];
        let tag_read = read_tag(&ctx, tag.as_mut_slice());
        put_sealed(plaintext, ciphertext.as_slice().split_at(ct_len).0, tag.as_slice(), tag_read)
    }

    /// Decrypt ciphertext in-place, verifying and removing authentication tag.
    pub fn decrypt(&mut self, ciphertext: &mut TmpBuf, aad: Aad, nonce: Nonce) -> (result: Result<
        (),
        String,
    >)
        requires
            tmp_len(*old(ciphertext)) >= AES_GCM_TAG_LEN ==> tmp_is_valid(*old(ciphertext)),
            tmp_len(*old(ciphertext)) <= i32::MAX + AES_GCM_TAG_LEN,
        ensures
            *final(self) == *old(self),
            decrypts(
                old(self).key(),
                nonce_bytes(nonce),
                aad_bytes(aad),
                *old(ciphertext),
                *final(ciphertext),
                result,
            ),
            // The context is set up with this key, all of the nonce and all of the additional data.
            result is Ok ==> {
                let start = seq![
                    CtxStep::EncryptInit {
                        cipher: if old(self).key().len() == 16 {
                            CipherKind::Aes128Gcm
                        } else {
                            CipherKind::Aes256Gcm
                        },
                        key: old(self).key(),
                        iv: Some(nonce_bytes(nonce)),
                    },
                    CtxStep::Aad { bytes: aad_bytes(aad) },
                ];
                let sealed = tmp_backing(*old(ciphertext)).take(tmp_len(*old(ciphertext)) as int);
                let opened = tmp_backing(*final(ciphertext)).take(tmp_len(*final(ciphertext)) as int);
                sealed == update_output(start, opened) + tag_output(
                    start.push(CtxStep::Data { bytes: opened }).push(CtxStep::Finish),
                    16,
                )
            },
    {
        let ghost sealed = tmp_bytes(*ciphertext);
        if ciphertext.len() < AES_GCM_TAG_LEN {
            return Err(String::from_str("Ciphertext too short for GCM tag"));
        }
        let ct_len: usize = ciphertext.len() - AES_GCM_TAG_LEN;
        let (ct, tag) = tmp_as_slice(ciphertext).split_at(ct_len);

        let mut ctx = or_text(CipherCtx::new())?;
        or_text(
            decrypt_init(
                &mut ctx,
                self.cipher(),
                self.key.as_slice(),
                Some(nonce_as_slice(&nonce)),
            ),
        )?;
        // Set AAD
        or_text(update_aad(&mut ctx, aad_as_slice(&aad)))?;
        let ghost start = opening(self.key(), nonce_bytes(nonce), aad_bytes(aad));
        assert(ctx_history(ctx) =~= start);
        assert(start.update(0, opposite(start[0])) =~= sealing(
            self.key(),
            nonce_bytes(nonce),
            aad_bytes(aad),
        ));

        // Decrypt ciphertext
        // OpenSSL may write up to one extra block (16 bytes) during the update and at the end.
        let mut plaintext: Vec<u8> = vec![0u8; ct_len + 16];
        let count: usize = or_text(update(&mut ctx, ct, plaintext.as_mut_slice()))?;
        let ghost decrypted = plaintext@.take(count as int);

        // Set tag before finalization
        or_text(set_tag(&mut ctx, tag))?;
        assert(ctx_history(ctx).take(2) =~= start);
        assert(finished_encryption(ctx_history(ctx)) =~= sealing(
            self.key(),
            nonce_bytes(nonce),
            aad_bytes(aad),
        ).push(CtxStep::Data { bytes: decrypted }).push(CtxStep::Finish));
        let finished = finish(&mut ctx, plaintext.as_mut_slice().split_at_mut(count).1);
        assert(plaintext@.take(count as int) =~= decrypted);
        assert(sealed =~= ct@ + tag@);
        put_opened(ciphertext, plaintext.as_slice(), count, finished)
    }

    /// Encrypt plaintext in-place unless OpenSSL cannot count its bytes: then there is no result,
    /// and the plaintext stays as it is.
    pub fn try_encrypt(&mut self, plaintext: &mut Buf, aad: Aad, nonce: Nonce) -> (result: Option<
        Result<(), String>,
    >)
        ensures
            *final(self) == *old(self),
            result is Some <==> buf_bytes(*old(plaintext)).len() <= i32::MAX,
            match result {
                Some(result) => encrypts(
                    old(self).key(),
                    nonce_bytes(nonce),
                    aad_bytes(aad),
                    *old(plaintext),
                    *final(plaintext),
                    result,
                ),
                None => *final(plaintext) == *old(plaintext),
            },
            // The context is set up with this key, all of the nonce and all of the additional data.
            result == Some(Ok::<(), String>(())) ==> {
                let start = seq![
                    CtxStep::EncryptInit {
                        cipher: if old(self).key().len() == 16 {
                            CipherKind::Aes128Gcm
                        } else {
                            CipherKind::Aes256Gcm
                        },
                        key: old(self).key(),
                        iv: Some(nonce_bytes(nonce)),
                    },
                    CtxStep::Aad { bytes: aad_bytes(aad) },
                ];
                buf_bytes(*final(plaintext)) == update_output(start, buf_bytes(*old(plaintext)))
                    + tag_output(
                    start.push(CtxStep::Data { bytes: buf_bytes(*old(plaintext)) }).push(
                        CtxStep::Finish,
                    ),
                    16,
                )
            },
    {
        if buf_as_slice(plaintext).len() > i32::MAX as usize {
            return None;
        }
        Some(self.encrypt(plaintext, aad, nonce))
    }

    /// Decrypt ciphertext in-place unless OpenSSL cannot count its bytes: then there is no result,
    /// and the ciphertext stays as it is.
    pub fn try_decrypt(&mut self, ciphertext: &mut TmpBuf, aad: Aad, nonce: Nonce) -> (result:
        Option<Result<(), String>>)
        requires
            tmp_len(*old(ciphertext)) >= AES_GCM_TAG_LEN ==> tmp_is_valid(*old(ciphertext)),
        ensures
            *final(self) == *old(self),
            result is Some <==> tmp_len(*old(ciphertext)) <= i32::MAX + AES_GCM_TAG_LEN,
            match result {
                Some(result) => decrypts(
                    old(self).key(),
                    nonce_bytes(nonce),
                    aad_bytes(aad),
                    *old(ciphertext),
                    *final(ciphertext),
                    result,
                ),
                None => *final(ciphertext) == *old(ciphertext),
            },
            // The context is set up with this key, all of the nonce and all of the additional data.
            result == Some(Ok::<(), String>(())) ==> {
                let start = seq![
                    CtxStep::EncryptInit {
                        cipher: if old(self).key().len() == 16 {
                            CipherKind::Aes128Gcm
                        } else {
                            CipherKind::Aes256Gcm
                        },
                        key: old(self).key(),
                        iv: Some(nonce_bytes(nonce)),
                    },
                    CtxStep::Aad { bytes: aad_bytes(aad) },
                ];
                let sealed = tmp_backing(*old(ciphertext)).take(tmp_len(*old(ciphertext)) as int);
                let opened = tmp_backing(*final(ciphertext)).take(tmp_len(*final(ciphertext)) as int);
                sealed == update_output(start, opened) + tag_output(
                    start.push(CtxStep::Data { bytes: opened }).push(CtxStep::Finish),
                    16,
                )
            },
    {
        if ciphertext.len() > i32::MAX as usize + AES_GCM_TAG_LEN {
            return None;
        }
        Some(self.decrypt(ciphertext, aad, nonce))
    }
}

/// Ends an encryption: if the tag could be read, `buf` holds the ciphertext with the tag after it,
/// and else it stays as it is.
pub fn put_sealed(
    buf: &mut Buf,
    ciphertext: &[u8],
    tag: &[u8],
    tag_read: Result<(), ErrorStack>,
) -> (result: Result<(), String>)
    ensures
        match tag_read {
            Ok(()) => result is Ok && buf_bytes(*final(buf)) == ciphertext@ + tag@,
            Err(errors) => {
                &&& result matches Err(message) && is_text_of(errors, message)
                &&& *final(buf) == *old(buf)
            },
        },
{
    if let Err(e) = tag_read {
        return Err(e.to_string());
    }
    buf.clear();
    buf.extend_from_slice(ciphertext);
    buf.extend_from_slice(tag);
    assert(buf_bytes(*buf) =~= ciphertext@ + tag@);
    Ok(())
}

/// Ends a decryption, of which `count` bytes were put out before the end: if the context could be
/// finished, `buf` holds what was put out in all, with the slice behind it as it was, and else it
/// stays as it is.
pub fn put_opened(
    buf: &mut TmpBuf,
    plaintext: &[u8],
    count: usize,
    finished: Result<usize, ErrorStack>,
) -> (result: Result<(), String>)
    requires
        finished matches Ok(final_count) ==> count + final_count <= plaintext@.len() && count
            + final_count <= tmp_backing(*old(buf)).len(),
    ensures
        match finished {
            Ok(final_count) => {
                &&& result is Ok
                &&& tmp_is_valid(*final(buf))
                &&& tmp_bytes(*final(buf)) == plaintext@.take(count + final_count)
                &&& tmp_backing(*final(buf)) == tmp_bytes(*final(buf)) + tmp_backing(
                    *old(buf),
                ).skip(count + final_count)
            },
            Err(errors) => {
                &&& result matches Err(message) && is_text_of(errors, message)
                &&& *final(buf) == *old(buf)
            },
        },
{
    let final_count: usize = match finished {
        Ok(final_count) => final_count,
        Err(e) => return Err(e.to_string()),
    };
    assert(plaintext.len() == plaintext@.len());
    let pt_len: usize = count + final_count;
    replace_in_place(buf, plaintext.split_at(pt_len).0);
    Ok(())
}

/// The hash algorithms that the cipher suites go with.
#[derive(Debug, Clone, Copy, PartialEq, Eq, Structural)]
pub enum HashAlgorithm {
    SHA256,
    SHA384,
}

/// The DTLS 1.2 cipher suites offered.
#[allow(non_camel_case_types)]
#[derive(Debug, Clone, Copy, PartialEq, Eq, Structural)]
pub enum Dtls12CipherSuite {
    ECDHE_ECDSA_AES128_GCM_SHA256,
    ECDHE_ECDSA_AES256_GCM_SHA384,
}

/// The DTLS 1.3 cipher suites offered.
#[allow(non_camel_case_types)]
#[derive(Debug, Clone, Copy, PartialEq, Eq, Structural)]
pub enum Dtls13CipherSuite {
    AES_128_GCM_SHA256,
    AES_256_GCM_SHA384,
}

/// TLS_ECDHE_ECDSA_WITH_AES_128_GCM_SHA256 cipher suite.
#[derive(Debug)]
pub struct Aes128GcmSha256;

impl Aes128GcmSha256 {
    /// The cipher suite this supports.
    pub fn suite(&self) -> (suite: Dtls12CipherSuite)
        ensures
            suite == Dtls12CipherSuite::ECDHE_ECDSA_AES128_GCM_SHA256,
    {
        Dtls12CipherSuite::ECDHE_ECDSA_AES128_GCM_SHA256
    }

    /// Hash algorithm used by this suite.
    pub fn hash_algorithm(&self) -> (hash: HashAlgorithm)
        ensures
            hash == HashAlgorithm::SHA256,
    {
        HashAlgorithm::SHA256
    }

    /// Key material lengths: (mac_key_len, enc_key_len, fixed_iv_len).
    pub fn key_lengths(&self) -> (lengths: (usize, usize, usize))
        ensures
            lengths == (0usize, 16usize, 4usize),
    {
        (0, 16, 4)
    }

    /// Create a cipher instance with the given key.
    pub fn create_cipher(&self, key: &[u8]) -> (result: Result<AesGcm, String>)
        ensures
            is_new_cipher(key@, result),
            result is Ok <==> key@.len() == 16 || key@.len() == 32,
            result matches Ok(cipher) ==> cipher.key() == key@,
    {
        AesGcm::new(key)
    }
}

/// TLS_ECDHE_ECDSA_WITH_AES_256_GCM_SHA384 cipher suite.
#[derive(Debug)]
pub struct Aes256GcmSha384;

impl Aes256GcmSha384 {
    /// The cipher suite this supports.
    pub fn suite(&self) -> (suite: Dtls12CipherSuite)
        ensures
            suite == Dtls12CipherSuite::ECDHE_ECDSA_AES256_GCM_SHA384,
    {
        Dtls12CipherSuite::ECDHE_ECDSA_AES256_GCM_SHA384
    }

    /// Hash algorithm used by this suite.
    pub fn hash_algorithm(&self) -> (hash: HashAlgorithm)
        ensures
            hash == HashAlgorithm::SHA384,
    {
        HashAlgorithm::SHA384
    }

    /// Key material lengths: (mac_key_len, enc_key_len, fixed_iv_len).
    pub fn key_lengths(&self) -> (lengths: (usize, usize, usize))
        ensures
            lengths == (0usize, 32usize, 4usize),
    {
        (0, 32, 4)
    }

    /// Create a cipher instance with the given key.
    pub fn create_cipher(&self, key: &[u8]) -> (result: Result<AesGcm, String>)
        ensures
            is_new_cipher(key@, result),
            result is Ok <==> key@.len() == 16 || key@.len() == 32,
            result matches Ok(cipher) ==> cipher.key() == key@,
    {
        AesGcm::new(key)
    }
}

/// TLS_AES_128_GCM_SHA256 cipher suite (TLS 1.3 / DTLS 1.3).
#[derive(Debug)]
pub struct Tls13Aes128GcmSha256;

impl Tls13Aes128GcmSha256 {
    /// The cipher suite this supports.
    pub fn suite(&self) -> (suite: Dtls13CipherSuite)
        ensures
            suite == Dtls13CipherSuite::AES_128_GCM_SHA256,
    {
        Dtls13CipherSuite::AES_128_GCM_SHA256
    }

    /// Hash algorithm used by this suite.
    pub fn hash_algorithm(&self) -> (hash: HashAlgorithm)
        ensures
            hash == HashAlgorithm::SHA256,
    {
        HashAlgorithm::SHA256
    }

    /// AEAD key length in bytes: AES-128.
    pub fn key_len(&self) -> (len: usize)
        ensures
            len == 16,
    {
        16
    }

    /// AEAD nonce/IV length in bytes: GCM IV.
    pub fn iv_len(&self) -> (len: usize)
        ensures
            len == 12,
    {
        12
    }

    /// AEAD tag length in bytes: GCM tag.
    pub fn tag_len(&self) -> (len: usize)
        ensures
            len == AES_GCM_TAG_LEN,
    {
        16
    }

    /// Create a cipher instance with the given key.
    pub fn create_cipher(&self, key: &[u8]) -> (result: Result<AesGcm, String>)
        ensures
            is_new_cipher(key@, result),
            result is Ok <==> key@.len() == 16 || key@.len() == 32,
            result matches Ok(cipher) ==> cipher.key() == key@,
    {
        AesGcm::new(key)
    }

    /// Compute a mask for record number encryption: the AES encryption of `sample`.
    pub fn encrypt_sn(&self, sn_key: &[u8], sample: &[u8; 16]) -> (result: Result<
        [u8; 16],
        EcbError,
    >)
        requires
            sn_key@.len() == 16 || sn_key@.len() == 32,
        ensures
            match result {
                Ok(mask) => enciphers(sn_key@, sample@, mask@),
                Err(error) => is_resource_failure(error.errors),
            },
            // The context is set up with this key.
            result matches Ok(mask) ==> mask@ == update_output(
                seq![
                    CtxStep::EncryptInit {
                        cipher: if sn_key@.len() == 16 {
                            CipherKind::Aes128Ecb
                        } else {
                            CipherKind::Aes256Ecb
                        },
                        key: sn_key@,
                        iv: None,
                    },
                    CtxStep::SetPadding { padding: false },
                ],
                sample@,
            ),
    {
        aes_ecb_encrypt(sn_key, sample)
    }
}

/// TLS_AES_256_GCM_SHA384 cipher suite (TLS 1.3 / DTLS 1.3).
#[derive(Debug)]
pub struct Tls13Aes256GcmSha384;

impl Tls13Aes256GcmSha384 {
    /// The cipher suite this supports.
    pub fn suite(&self) -> (suite: Dtls13CipherSuite)
        ensures
            suite == Dtls13CipherSuite::AES_256_GCM_SHA384,
    {
        Dtls13CipherSuite::AES_256_GCM_SHA384
    }

    /// Hash algorithm used by this suite.
    pub fn hash_algorithm(&self) -> (hash: HashAlgorithm)
        ensures
            hash == HashAlgorithm::SHA384,
    {
        HashAlgorithm::SHA384
    }

    /// AEAD key length in bytes: AES-256.
    pub fn key_len(&self) -> (len: usize)
        ensures
            len == 32,
    {
        32
    }

    /// AEAD nonce/IV length in bytes: GCM IV.
    pub fn iv_len(&self) -> (len: usize)
        ensures
            len == 12,
    {
        12
    }

    /// AEAD tag length in bytes: GCM tag.
    pub fn tag_len(&self) -> (len: usize)
        ensures
            len == AES_GCM_TAG_LEN,
    {
        16
    }

    /// Create a cipher instance with the given key.
    pub fn create_cipher(&self, key: &[u8]) -> (result: Result<AesGcm, String>)
        ensures
            is_new_cipher(key@, result),
            result is Ok <==> key@.len() == 16 || key@.len() == 32,
            result matches Ok(cipher) ==> cipher.key() == key@,
    {
        AesGcm::new(key)
    }

    /// Compute a mask for record number encryption: the AES encryption of `sample`.
    pub fn encrypt_sn(&self, sn_key: &[u8], sample: &[u8; 16]) -> (result: Result<
        [u8; 16],
        EcbError,
    >)
        requires
            sn_key@.len() == 16 || sn_key@.len() == 32,
        ensures
            match result {
                Ok(mask) => enciphers(sn_key@, sample@, mask@),
                Err(error) => is_resource_failure(error.errors),
            },
            // The context is set up with this key.
            result matches Ok(mask) ==> mask@ == update_output(
                seq![
                    CtxStep::EncryptInit {
                        cipher: if sn_key@.len() == 16 {
                            CipherKind::Aes128Ecb
                        } else {
                            CipherKind::Aes256Ecb
                        },
                        key: sn_key@,
                        iv: None,
                    },
                    CtxStep::SetPadding { padding: false },
                ],
                sample@,
            ),
    {
        aes_ecb_encrypt(sn_key, sample)
    }
}

/// The call of a block encryption that OpenSSL refused.
#[derive(Debug, Clone, Copy, PartialEq, Eq, Structural)]
pub enum EcbCall {
    NewContext,
    EncryptInit,
    CipherUpdate,
    CipherFinal,
}

/// Why a block could not be encrypted: the call that failed and what OpenSSL says of it.
#[derive(Debug)]
pub struct EcbError {
    pub call: EcbCall,
    pub errors: ErrorStack,
}

/// The plain AES cipher for a key of 16 or 32 bytes.
pub open spec fn ecb_cipher(key: Seq<u8>) -> CipherKind {
    if key.len() == 16 {
        CipherKind::Aes128Ecb
    } else {
        CipherKind::Aes256Ecb
    }
}

/// A context that is ready to encrypt blocks.
pub open spec fn enciphering(key: Seq<u8>) -> Seq<CtxStep> {
    seq![
        CtxStep::EncryptInit { cipher: ecb_cipher(key), key, iv: None },
        CtxStep::SetPadding { padding: false },
    ]
}

/// A context that is ready to decrypt blocks.
pub open spec fn deciphering(key: Seq<u8>) -> Seq<CtxStep> {
    seq![
        CtxStep::DecryptInit { cipher: ecb_cipher(key), key, iv: None },
        CtxStep::SetPadding { padding: false },
    ]
}

/// `block` is the AES encryption of the block `input`, and decrypts to it.
pub open spec fn enciphers(key: Seq<u8>, input: Seq<u8>, block: Seq<u8>) -> bool {
    &&& block == update_output(enciphering(key), input)
    &&& update_output(deciphering(key), block) == input
}

/// AES-ECB single block encryption for record number protection.
pub fn aes_ecb_encrypt(key: &[u8], input: &[u8; 16]) -> (result: Result<[u8; 16], EcbError>)
    requires
        key@.len() == 16 || key@.len() == 32,
    ensures
        match result {
            Ok(block) => enciphers(key@, input@, block@),
            Err(error) => is_resource_failure(error.errors),
        },
        // The context is set up with this key.
        result matches Ok(block) ==> block@ == update_output(
            seq![
                CtxStep::EncryptInit {
                    cipher: if key@.len() == 16 {
                        CipherKind::Aes128Ecb
                    } else {
                        CipherKind::Aes256Ecb
                    },
                    key: key@,
                    iv: None,
                },
                CtxStep::SetPadding { padding: false },
            ],
            input@,
        ),
{
    let cipher = if key.len() == 16 {
        openssl::cipher::Cipher::aes_128_ecb()
    } else {
        openssl::cipher::Cipher::aes_256_ecb()
    };

    let mut ctx = or_ecb_error(EcbCall::NewContext, CipherCtx::new())?;
    or_ecb_error(EcbCall::EncryptInit, encrypt_init(&mut ctx, cipher, key, None))?;
    set_padding(&mut ctx, false);
    let ghost start = enciphering(key@);
    assert(ctx_history(ctx) =~= start);
    assert(start.update(0, opposite(start[0])) =~= deciphering(key@));

    let mut output: [u8; 32] = [0u8; 32];  // Extra space for block cipher
    let count: usize = or_ecb_error(
        EcbCall::CipherUpdate,
        update(&mut ctx, input, &mut output),
    )?;
    assert(ctx_history(ctx).take(2) =~= start);
    let ghost encrypted = output@.take(16);
    let finished = finish(&mut ctx, output.split_at_mut(count).1);
    assert(output@.take(16) =~= encrypted);
    finished_block(&output, finished)
}

/// Hands on what a call of a block encryption gave: its value where it succeeded, and else the
/// errors together with the call.
pub fn or_ecb_error<V>(call: EcbCall, reply: Result<V, ErrorStack>) -> (result: Result<V, EcbError>)
    ensures
        match reply {
            Ok(value) => result == Ok::<V, EcbError>(value),
            Err(errors) => result == Err::<V, EcbError>(EcbError { call, errors }),
        },
{
    match reply {
        Ok(value) => Ok(value),
        Err(errors) => Err(EcbError { call, errors }),
    }
}

/// Ends the encryption of a block: if the context could be finished, the block is what `output`
/// starts with.
pub fn finished_block(output: &[u8; 32], finished: Result<usize, ErrorStack>) -> (result: Result<
    [u8; 16],
    EcbError,
>)
    ensures
        match finished {
            Ok(_) => result matches Ok(block) && block@ == output@.take(16),
            Err(errors) => result == Err::<[u8; 16], EcbError>(
                EcbError { call: EcbCall::CipherFinal, errors },
            ),
        },
{
    or_ecb_error(EcbCall::CipherFinal, finished)?;
    let mut result: [u8; 16] = [0u8; 16];
    result.copy_from_slice(output.split_at(16).0);
    Ok(result)
}

/// Decryption gives back what encryption sealed: what opens under a key, nonce and additional data
/// opens to one plaintext only.
pub proof fn decrypt_gives_back_what_encrypt_sealed(
    key: Seq<u8>,
    nonce: Seq<u8>,
    aad: Seq<u8>,
    plaintext: Seq<u8>,
    sealed: Seq<u8>,
    opened: Seq<u8>,
)
    requires
        seals(key, nonce, aad, plaintext, sealed),
        seals(key, nonce, aad, opened, sealed),
    ensures
        opened == plaintext,
{
    sealing_adds_the_tag_length(key, nonce, aad, plaintext, sealed);
    sealing_adds_the_tag_length(key, nonce, aad, opened, sealed);
    let len = plaintext.len() as int;
    assert(sealed.take(len) =~= gcm_encrypted(key, nonce, aad, plaintext));
    assert(sealed.take(len) =~= gcm_encrypted(key, nonce, aad, opened));
}

/// Decryption succeeds on what encryption sealed, and gives back the plaintext, unless OpenSSL has
/// a resource failure.
pub proof fn decrypt_opens_what_encrypt_sealed(
    key: Seq<u8>,
    nonce: Seq<u8>,
    aad: Seq<u8>,
    plaintext: Seq<u8>,
    before: TmpBuf<'_>,
    after: TmpBuf<'_>,
    result: Result<(), String>,
)
    requires
        tmp_is_valid(before),
        seals(key, nonce, aad, plaintext, tmp_bytes(before)),
        decrypts(key, nonce, aad, before, after, result),
    ensures
        match result {
            Ok(()) => tmp_bytes(after) == plaintext && tmp_len(after) == tmp_len(before)
                - AES_GCM_TAG_LEN,
            Err(message) => is_resource_failure_text(message) && after == before,
        },
{
    let sealed = tmp_bytes(before);
    sealing_adds_the_tag_length(key, nonce, aad, plaintext, sealed);
    assert(sealed.take(plaintext.len() as int) =~= gcm_encrypted(key, nonce, aad, plaintext));
    assert(sealed.skip(plaintext.len() as int) =~= gcm_tag(key, nonce, aad, plaintext));
    if result is Ok {
        decrypt_gives_back_what_encrypt_sealed(
            key,
            nonce,
            aad,
            plaintext,
            sealed,
            tmp_bytes(after),
        );
    }
}

/// Encryption depends on nothing but the key, the nonce, the additional data and the plaintext.
pub proof fn encrypt_is_deterministic(
    key: Seq<u8>,
    nonce: Seq<u8>,
    aad: Seq<u8>,
    plaintext: Seq<u8>,
    sealed: Seq<u8>,
    sealed_again: Seq<u8>,
)
    requires
        seals(key, nonce, aad, plaintext, sealed),
        seals(key, nonce, aad, plaintext, sealed_again),
    ensures
        sealed_again == sealed,
{
}

/// What is sealed went through a context with the very key, nonce and additional data of the record:
/// the sealed bytes are what such an encryption puts out for the plaintext, followed by its tag of 16
/// bytes, and the ciphertext decrypts to the plaintext in such a decryption.
pub proof fn sealing_uses_the_key_nonce_and_additional_data(
    key: Seq<u8>,
    nonce: Seq<u8>,
    aad: Seq<u8>,
    plaintext: Seq<u8>,
    sealed: Seq<u8>,
)
    requires
        seals(key, nonce, aad, plaintext, sealed),
    ensures
        ({
            let encrypt_init = CtxStep::EncryptInit {
                cipher: if key.len() == 16 {
                    CipherKind::Aes128Gcm
                } else {
                    CipherKind::Aes256Gcm
                },
                key,
                iv: Some(nonce),
            };
            let decrypt_init = CtxStep::DecryptInit {
                cipher: if key.len() == 16 {
                    CipherKind::Aes128Gcm
                } else {
                    CipherKind::Aes256Gcm
                },
                key,
                iv: Some(nonce),
            };
            let authenticate = CtxStep::Aad { bytes: aad };
            let ciphertext = update_output(seq![encrypt_init, authenticate], plaintext);
            &&& sealed == ciphertext + tag_output(
                seq![
                    encrypt_init,
                    authenticate,
                    CtxStep::Data { bytes: plaintext },
                    CtxStep::Finish,
                ],
                16,
            )
            &&& ciphertext.len() == plaintext.len()
            &&& sealed.len() == plaintext.len() + 16
            &&& update_output(seq![decrypt_init, authenticate], ciphertext) == plaintext
        }),
{
    assert(sealing(key, nonce, aad).push(CtxStep::Data { bytes: plaintext }).push(CtxStep::Finish)
        =~= seq![
        sealing(key, nonce, aad)[0],
        sealing(key, nonce, aad)[1],
        CtxStep::Data { bytes: plaintext },
        CtxStep::Finish,
    ]);
}

/// Two records lead to the same context only if they have the same key, the same nonce and the same
/// additional data, to the last byte.
pub proof fn different_records_have_different_contexts(
    key: Seq<u8>,
    nonce: Seq<u8>,
    aad: Seq<u8>,
    other_key: Seq<u8>,
    other_nonce: Seq<u8>,
    other_aad: Seq<u8>,
)
    requires
        sealing(key, nonce, aad) == sealing(other_key, other_nonce, other_aad) || opening(
            key,
            nonce,
            aad,
        ) == opening(other_key, other_nonce, other_aad),
    ensures
        key == other_key,
        nonce == other_nonce,
        aad == other_aad,
{
    let (seal, other_seal) = (
        sealing(key, nonce, aad),
        sealing(other_key, other_nonce, other_aad),
    );
    let (open, other_open) = (
        opening(key, nonce, aad),
        opening(other_key, other_nonce, other_aad),
    );
    assert(seal == other_seal ==> seal[0] == other_seal[0] && seal[1] == other_seal[1]);
    assert(open == other_open ==> open[0] == other_open[0] && open[1] == other_open[1]);
}

/// A context that is ready to encrypt or to decrypt has had two steps: the init with the key and the
/// nonce, and the additional data.
pub proof fn contexts_start_with_the_key_and_nonce(key: Seq<u8>, nonce: Seq<u8>, aad: Seq<u8>)
    ensures
        sealing(key, nonce, aad).len() == 2,
        sealing(key, nonce, aad)[0] matches CtxStep::EncryptInit { key: k, iv, .. } && k == key
            && iv == Some(nonce),
        sealing(key, nonce, aad)[1] == (CtxStep::Aad { bytes: aad }),
        opening(key, nonce, aad).len() == 2,
        opening(key, nonce, aad)[0] matches CtxStep::DecryptInit { key: k, iv, .. } && k == key
            && iv == Some(nonce),
        opening(key, nonce, aad)[1] == (CtxStep::Aad { bytes: aad }),
{
}

/// A message is authentic if its last 16 bytes are the tag that encrypting with this key, nonce and
/// additional data gives for what the bytes before them decrypt to.
pub proof fn authentic_messages_carry_their_tag(
    key: Seq<u8>,
    nonce: Seq<u8>,
    aad: Seq<u8>,
    sealed: Seq<u8>,
)
    requires
        sealed.len() >= 16,
    ensures
        ({
            let encrypt_init = CtxStep::EncryptInit {
                cipher: if key.len() == 16 {
                    CipherKind::Aes128Gcm
                } else {
                    CipherKind::Aes256Gcm
                },
                key,
                iv: Some(nonce),
            };
            let decrypt_init = CtxStep::DecryptInit {
                cipher: if key.len() == 16 {
                    CipherKind::Aes128Gcm
                } else {
                    CipherKind::Aes256Gcm
                },
                key,
                iv: Some(nonce),
            };
            let authenticate = CtxStep::Aad { bytes: aad };
            let ciphertext = sealed.take(sealed.len() - 16);
            let plaintext = update_output(seq![decrypt_init, authenticate], ciphertext);
            is_authentic(key, nonce, aad, sealed) <==> sealed.skip(sealed.len() - 16) == tag_output(
                seq![
                    encrypt_init,
                    authenticate,
                    CtxStep::Data { bytes: plaintext },
                    CtxStep::Finish,
                ],
                16,
            )
        }),
{
    let plaintext = gcm_decrypted(key, nonce, aad, sealed.take(sealed.len() - 16));
    assert(sealing(key, nonce, aad).push(CtxStep::Data { bytes: plaintext }).push(CtxStep::Finish)
        =~= seq![
        sealing(key, nonce, aad)[0],
        sealing(key, nonce, aad)[1],
        CtxStep::Data { bytes: plaintext },
        CtxStep::Finish,
    ]);
}

/// Encryption fails for want of OpenSSL's resources only, and then changes nothing.
pub proof fn encryption_fails_for_want_of_resources_only(
    key: Seq<u8>,
    nonce: Seq<u8>,
    aad: Seq<u8>,
    before: Buf,
    after: Buf,
    result: Result<(), String>,
)
    requires
        encrypts(key, nonce, aad, before, after, result),
    ensures
        match result {
            Ok(()) => seals(key, nonce, aad, buf_bytes(before), buf_bytes(after)),
            Err(message) => after == before && is_resource_failure_text(message),
        },
{
}

/// Decryption fails on a message of less than 16 bytes, with a message of its own, on one that is not
/// authentic, and for want of OpenSSL's resources, and then changes nothing. Where it succeeds, the
/// bytes in use become the plaintext, and the slice keeps what it held behind them.
pub proof fn decryption_fails_for_these_reasons_only(
    key: Seq<u8>,
    nonce: Seq<u8>,
    aad: Seq<u8>,
    before: TmpBuf<'_>,
    after: TmpBuf<'_>,
    result: Result<(), String>,
)
    requires
        decrypts(key, nonce, aad, before, after, result),
    ensures
        match result {
            Ok(()) => {
                &&& tmp_len(before) >= 16
                &&& tmp_len(after) <= tmp_backing(after).len()
                &&& seals(
                    key,
                    nonce,
                    aad,
                    tmp_backing(after).take(tmp_len(after) as int),
                    tmp_backing(before).take(tmp_len(before) as int),
                )
                &&& tmp_backing(after).skip(tmp_len(after) as int) == tmp_backing(before).skip(
                    tmp_len(after) as int,
                )
            },
            Err(message) => {
                &&& after == before
                &&& tmp_len(before) < 16 ==> message@ == "Ciphertext too short for GCM tag"@
                &&& tmp_len(before) >= 16 ==> is_openssl_text(message)
                &&& tmp_len(before) >= 16 && is_authentic(
                    key,
                    nonce,
                    aad,
                    tmp_backing(before).take(tmp_len(before) as int),
                ) ==> is_resource_failure_text(message)
            },
        },
{
    if result is Ok {
        assert(tmp_backing(after).skip(tmp_len(after) as int) =~= tmp_backing(before).skip(
            tmp_len(after) as int,
        ));
    }
}

/// A cipher is made of a key of 16 or 32 bytes, and of no other, and keeps the key as it is.
pub proof fn ciphers_keep_their_key(key: Seq<u8>, result: Result<AesGcm, String>)
    requires
        is_new_cipher(key, result),
    ensures
        result is Ok <==> key.len() == 16 || key.len() == 32,
        match result {
            Ok(cipher) => cipher.key() == key,
            Err(message) => message@ == "Invalid key size for AES-GCM: "@ + decimal(key.len()),
        },
{
}

/// Encryption adds the length of the tag.
pub proof fn sealing_adds_the_tag_length(
    key: Seq<u8>,
    nonce: Seq<u8>,
    aad: Seq<u8>,
    plaintext: Seq<u8>,
    sealed: Seq<u8>,
)
    requires
        seals(key, nonce, aad, plaintext, sealed),
    ensures
        sealed.len() == plaintext.len() + AES_GCM_TAG_LEN,
{
}

/// The encryption of a block depends on nothing but the key and the block.
pub proof fn aes_ecb_encrypt_is_deterministic(
    key: Seq<u8>,
    input: Seq<u8>,
    block: Seq<u8>,
    block_again: Seq<u8>,
)
    requires
        enciphers(key, input, block),
        enciphers(key, input, block_again),
    ensures
        block_again == block,
{
}

/// A block is encrypted in a context that has the very key, without padding: it is what plain AES with
/// this key puts out for the input, and decrypts to the input in such a context.
pub proof fn block_encryption_uses_the_key(key: Seq<u8>, input: Seq<u8>, block: Seq<u8>)
    requires
        enciphers(key, input, block),
    ensures
        ({
            let cipher = if key.len() == 16 {
                CipherKind::Aes128Ecb
            } else {
                CipherKind::Aes256Ecb
            };
            let no_padding = CtxStep::SetPadding { padding: false };
            &&& block == update_output(
                seq![CtxStep::EncryptInit { cipher, key, iv: None }, no_padding],
                input,
            )
            &&& update_output(
                seq![CtxStep::DecryptInit { cipher, key, iv: None }, no_padding],
                block,
            ) == input
        }),
{
}

/// Two keys lead to the same context only if they are the same, to the last bit.
pub proof fn different_keys_have_different_contexts(key: Seq<u8>, other_key: Seq<u8>)
    requires
        enciphering(key) == enciphering(other_key) || deciphering(key) == deciphering(other_key),
    ensures
        key == other_key,
{
    assert(enciphering(key) == enciphering(other_key) ==> enciphering(key)[0] == enciphering(
        other_key,
    )[0]);
    assert(deciphering(key) == deciphering(other_key) ==> deciphering(key)[0] == deciphering(
        other_key,
    )[0]);
}

/// Different blocks are encrypted to different blocks.
pub proof fn different_blocks_encrypt_differently(
    key: Seq<u8>,
    input: Seq<u8>,
    block: Seq<u8>,
    other_input: Seq<u8>,
    other_block: Seq<u8>,
)
    requires
        enciphers(key, input, block),
        enciphers(key, other_input, other_block),
        input != other_input,
    ensures
        block != other_block,
{
}

} // verus!
