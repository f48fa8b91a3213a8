//! The part of `openssl::cipher` and `openssl::cipher_ctx` that the cipher suites call.
//!
//! A cipher context is described by its history: what it was initialized with and what has been
//! done to it since, in order. What the context then puts out is a function of that history.
//! Whether a call succeeds at all is left open everywhere: OpenSSL may run out of memory, or lack
//! the cipher in its configuration. No call here is one that OpenSSL must refuse, but for the check
//! of a tag that does not match. So the errors of any other failed call are those of a resource
//! failure.

use openssl::cipher::CipherRef;
use openssl::cipher_ctx::CipherCtx;
use openssl::error::ErrorStack;
use vstd::prelude::*;

verus! {

/// The ciphers in use.
pub enum CipherKind {
    Aes128Gcm,
    Aes256Gcm,
    Aes128Ecb,
    Aes256Ecb,
    /// Any other cipher that OpenSSL has.
    Other,
}

impl CipherKind {
    /// Whether this is AES in Galois/Counter mode, an authenticated stream cipher.
    pub open spec fn is_gcm(self) -> bool {
        self is Aes128Gcm || self is Aes256Gcm
    }

    /// Whether this is plain AES, a block cipher.
    pub open spec fn is_ecb(self) -> bool {
        self is Aes128Ecb || self is Aes256Ecb
    }

    /// The key length in bytes of an AES cipher.
    pub open spec fn key_len(self) -> nat {
        if self is Aes128Gcm || self is Aes128Ecb {
            16
        } else {
            32
        }
    }

    /// The length in bytes of the initialization vector: twelve for GCM, none for plain AES.
    pub open spec fn iv_len(self) -> nat {
        if self.is_gcm() {
            12
        } else {
            0
        }
    }

    /// The block size in bytes. A stream cipher has the block size 1.
    pub open spec fn block_size(self) -> nat {
        if self.is_gcm() {
            1
        } else {
            16
        }
    }
}

/// One thing done to a cipher context.
pub enum CtxStep {
    EncryptInit { cipher: CipherKind, key: Seq<u8>, iv: Option<Seq<u8>> },
    DecryptInit { cipher: CipherKind, key: Seq<u8>, iv: Option<Seq<u8>> },
    SetPadding { padding: bool },
    Aad { bytes: Seq<u8> },
    Data { bytes: Seq<u8> },
    SetTag { tag: Seq<u8> },
    Finish,
}

/// The same step of the opposite operation.
pub open spec fn opposite(step: CtxStep) -> CtxStep {
    match step {
        CtxStep::EncryptInit { cipher, key, iv } => CtxStep::DecryptInit { cipher, key, iv },
        CtxStep::DecryptInit { cipher, key, iv } => CtxStep::EncryptInit { cipher, key, iv },
        _ => step,
    }
}

/// The cipher that a history starts with.
pub open spec fn history_cipher(history: Seq<CtxStep>) -> CipherKind {
    if history.len() == 0 {
        CipherKind::Other
    } else {
        match history[0] {
            CtxStep::EncryptInit { cipher, .. } => cipher,
            CtxStep::DecryptInit { cipher, .. } => cipher,
            _ => CipherKind::Other,
        }
    }
}

/// GCM, initialized and given its additional data, with no payload yet.
pub open spec fn awaits_gcm_payload(history: Seq<CtxStep>) -> bool {
    history.len() == 2 && history_cipher(history).is_gcm() && history[1] is Aad
}

/// Plain AES encryption without padding, with no payload yet.
pub open spec fn awaits_ecb_blocks(history: Seq<CtxStep>) -> bool {
    history.len() == 2 && history_cipher(history).is_ecb() && history[0] is EncryptInit
        && history[1] == (CtxStep::SetPadding { padding: false })
}

/// GCM decryption with the whole ciphertext and the expected tag given.
pub open spec fn awaits_tag_check(history: Seq<CtxStep>) -> bool {
    history.len() == 4 && awaits_gcm_payload(history.take(2)) && history[0] is DecryptInit
        && history[2] is Data && history[3] is SetTag
}

/// GCM decryption with the whole ciphertext given, but no tag yet.
pub open spec fn awaits_tag(history: Seq<CtxStep>) -> bool {
    history.len() == 3 && awaits_gcm_payload(history.take(2)) && history[0] is DecryptInit
        && history[2] is Data
}

/// GCM encryption with the whole plaintext given.
pub open spec fn awaits_gcm_finish(history: Seq<CtxStep>) -> bool {
    history.len() == 3 && awaits_gcm_payload(history.take(2)) && history[0] is EncryptInit
        && history[2] is Data
}

/// GCM encryption that has been finished.
pub open spec fn holds_tag(history: Seq<CtxStep>) -> bool {
    history.len() == 4 && awaits_gcm_finish(history.take(3)) && history[3] is Finish
}

/// Plain AES encryption of whole blocks.
pub open spec fn awaits_ecb_finish(history: Seq<CtxStep>) -> bool {
    history.len() == 3 && awaits_ecb_blocks(history.take(2)) && (history[2] matches CtxStep::Data {
        bytes,
    } && bytes.len() % 16 == 0)
}

/// The tag that was set for a GCM decryption is the one that encrypting the decrypted data gives.
pub open spec fn tag_matches(history: Seq<CtxStep>) -> bool
    recommends
        awaits_tag_check(history),
{
    history[3]->SetTag_tag == tag_output(
        finished_encryption(history),
        history[3]->SetTag_tag.len(),
    )
}

/// The history that a GCM encryption under the same key, nonce and additional data has when it has
/// finished with what the decryption `history` puts out.
pub open spec fn finished_encryption(history: Seq<CtxStep>) -> Seq<CtxStep>
    recommends
        awaits_tag_check(history),
{
    seq![
        opposite(history[0]),
        history[1],
        CtxStep::Data { bytes: update_output(history.take(2), history[2]->Data_bytes) },
        CtxStep::Finish,
    ]
}

/// Errors that OpenSSL reports.
#[verifier::external_type_specification]
#[verifier::external_body]
pub struct ExErrorStack(openssl::error::ErrorStack);

/// A cipher of OpenSSL.
#[verifier::external_type_specification]
#[verifier::external_body]
pub struct ExCipherRef(openssl::cipher::CipherRef);

/// A cipher context of OpenSSL.
#[verifier::external_type_specification]
#[verifier::external_body]
pub struct ExCipherCtx(openssl::cipher_ctx::CipherCtx);

/// `text` is how `errors` are displayed.
pub open spec fn is_text_of(errors: ErrorStack, text: String) -> bool {
    vstd::string::to_string_from_display_ensures::<ErrorStack>(&errors, text)
}

/// `text` is how some errors of OpenSSL are displayed.
pub open spec fn is_openssl_text(text: String) -> bool {
    exists|errors: ErrorStack| is_text_of(errors, text)
}

/// `text` is how the errors of some resource failure are displayed.
pub open spec fn is_resource_failure_text(text: String) -> bool {
    exists|errors: ErrorStack| is_text_of(errors, text) && is_resource_failure(errors)
}

/// A text that is said to be OpenSSL's is what some `ErrorStack` displays as.
pub proof fn error_texts_are_displayed_errors(errors: ErrorStack, text: String)
    ensures
        is_text_of(errors, text) <==> vstd::string::to_string_from_display_ensures::<ErrorStack>(
            &errors,
            text,
        ),
        is_openssl_text(text) ==> exists|e: ErrorStack| #[trigger]
            vstd::string::to_string_from_display_ensures::<ErrorStack>(&e, text),
        is_resource_failure_text(text) ==> exists|e: ErrorStack|
            #![trigger is_resource_failure(e)]
            is_resource_failure(e) && vstd::string::to_string_from_display_ensures::<ErrorStack>(
                &e,
                text,
            ),
{
    if is_openssl_text(text) {
        let e = choose|e: ErrorStack| is_text_of(e, text);
        assert(vstd::string::to_string_from_display_ensures::<ErrorStack>(&e, text));
    }
    if is_resource_failure_text(text) {
        let e = choose|e: ErrorStack| is_text_of(e, text) && is_resource_failure(e);
        assert(is_resource_failure(e));
    }
}

/// A GCM decryption can be finished after these steps and no others: the key and nonce, the
/// additional data, the ciphertext and the tag. The tag matches if it is what a GCM encryption with
/// the same key, nonce and additional data gives for what the ciphertext decrypts to.
pub proof fn tag_is_checked_over_the_whole_decryption(history: Seq<CtxStep>)
    requires
        awaits_tag_check(history),
    ensures
        history.len() == 4,
        history[0] is DecryptInit,
        history[1] is Aad,
        history[2] is Data,
        history[3] is SetTag,
        tag_matches(history) <==> history[3]->SetTag_tag == tag_output(
            seq![
                CtxStep::EncryptInit {
                    cipher: history[0]->DecryptInit_cipher,
                    key: history[0]->DecryptInit_key,
                    iv: history[0]->DecryptInit_iv,
                },
                CtxStep::Aad { bytes: history[1]->Aad_bytes },
                CtxStep::Data {
                    bytes: update_output(seq![history[0], history[1]], history[2]->Data_bytes),
                },
                CtxStep::Finish,
            ],
            history[3]->SetTag_tag.len(),
        ),
{
    assert(history.take(2)[0] == history[0]);
    assert(history.take(2)[1] == history[1]);
    assert(history.take(2) =~= seq![history[0], history[1]]);
}

/// Whether `errors` are such as OpenSSL reports of a call that there was no reason to refuse: for
/// want of memory, say, or of the cipher in its configuration. The same errors may be reported for
/// other reasons too.
pub uninterp spec fn is_resource_failure(errors: ErrorStack) -> bool;

/// Hands on what an OpenSSL call gave: its value where it succeeded, and else the text of its
/// errors.
pub fn or_text<V>(reply: Result<V, ErrorStack>) -> (result: Result<V, String>)
    ensures
        match reply {
            Ok(value) => result == Ok::<V, String>(value),
            Err(errors) => result matches Err(message) && is_text_of(errors, message),
        },
{
    match reply {
        Ok(value) => Ok(value),
        Err(e) => Err(e.to_string()),
    }
}

/// Which cipher a `CipherRef` is.
pub uninterp spec fn cipher_kind(cipher: CipherRef) -> CipherKind;

/// The history of a cipher context.
pub uninterp spec fn ctx_history(ctx: CipherCtx) -> Seq<CtxStep>;

/// What `CipherCtxRef::cipher_update` writes for `input` in a context with this history.
pub uninterp spec fn update_output(history: Seq<CtxStep>, input: Seq<u8>) -> Seq<u8>;

/// The tag of `len` bytes that `CipherCtxRef::tag` reads from a context with this history.
pub uninterp spec fn tag_output(history: Seq<CtxStep>, len: nat) -> Seq<u8>;

/// `Cipher::aes_128_gcm` is AES-128 in GCM.
pub assume_specification[ openssl::cipher::Cipher::aes_128_gcm ]() -> (cipher: &'static CipherRef)
    ensures
        cipher_kind(*cipher) == CipherKind::Aes128Gcm,
;

/// `Cipher::aes_256_gcm` is AES-256 in GCM.
pub assume_specification[ openssl::cipher::Cipher::aes_256_gcm ]() -> (cipher: &'static CipherRef)
    ensures
        cipher_kind(*cipher) == CipherKind::Aes256Gcm,
;

/// `Cipher::aes_128_ecb` is AES-128 block by block.
pub assume_specification[ openssl::cipher::Cipher::aes_128_ecb ]() -> (cipher: &'static CipherRef)
    ensures
        cipher_kind(*cipher) == CipherKind::Aes128Ecb,
;

/// `Cipher::aes_256_ecb` is AES-256 block by block.
pub assume_specification[ openssl::cipher::Cipher::aes_256_ecb ]() -> (cipher: &'static CipherRef)
    ensures
        cipher_kind(*cipher) == CipherKind::Aes256Ecb,
;

/// `CipherCtx::new` makes a context to which nothing has been done.
pub assume_specification[ openssl::cipher_ctx::CipherCtx::new ]() -> (result: Result<
    CipherCtx,
    ErrorStack,
>)
    ensures
        match result {
            Ok(ctx) => ctx_history(ctx) == Seq::<CtxStep>::empty(),
            Err(errors) => is_resource_failure(errors),
        },
;

/// `CipherCtxRef::encrypt_init` sets the cipher, key and initialization vector for encryption. It
/// panics if the key or the vector is shorter than the cipher's.
#[verifier::external_body]
pub(crate) fn encrypt_init(
    ctx: &mut CipherCtx,
    cipher: &CipherRef,
    key: &[u8],
    iv: Option<&[u8]>,
) -> (result: Result<(), ErrorStack>)
    requires
        ctx_history(*old(ctx)) == Seq::<CtxStep>::empty(),
        !(cipher_kind(*cipher) is Other),
        key@.len() == cipher_kind(*cipher).key_len(),
        iv is Some <==> cipher_kind(*cipher).iv_len() > 0,
        iv matches Some(iv) ==> iv@.len() == cipher_kind(*cipher).iv_len(),
    ensures
        result is Ok ==> ctx_history(*final(ctx)) == seq![
            CtxStep::EncryptInit {
                cipher: cipher_kind(*cipher),
                key: key@,
                iv: match iv {
                    Some(iv) => Some(iv@),
                    None => None,
                },
            },
        ],
        result matches Err(errors) ==> is_resource_failure(errors),
{
    ctx.encrypt_init(Some(cipher), Some(key), iv)
}

/// `CipherCtxRef::decrypt_init` sets the cipher, key and initialization vector for decryption. It
/// panics if the key or the vector is shorter than the cipher's.
#[verifier::external_body]
pub(crate) fn decrypt_init(
    ctx: &mut CipherCtx,
    cipher: &CipherRef,
    key: &[u8],
    iv: Option<&[u8]>,
) -> (result: Result<(), ErrorStack>)
    requires
        ctx_history(*old(ctx)) == Seq::<CtxStep>::empty(),
        !(cipher_kind(*cipher) is Other),
        key@.len() == cipher_kind(*cipher).key_len(),
        iv is Some <==> cipher_kind(*cipher).iv_len() > 0,
        iv matches Some(iv) ==> iv@.len() == cipher_kind(*cipher).iv_len(),
    ensures
        result is Ok ==> ctx_history(*final(ctx)) == seq![
            CtxStep::DecryptInit {
                cipher: cipher_kind(*cipher),
                key: key@,
                iv: match iv {
                    Some(iv) => Some(iv@),
                    None => None,
                },
            },
        ],
        result matches Err(errors) ==> is_resource_failure(errors),
{
    ctx.decrypt_init(Some(cipher), Some(key), iv)
}

/// `CipherCtxRef::set_padding` turns padding on or off.
#[verifier::external_body]
pub(crate) fn set_padding(ctx: &mut CipherCtx, padding: bool)
    requires
        ctx_history(*old(ctx)).len() == 1,
        history_cipher(ctx_history(*old(ctx))).is_ecb(),
    ensures
        ctx_history(*final(ctx)) == ctx_history(*old(ctx)).push(CtxStep::SetPadding { padding }),
{
    ctx.set_padding(padding)
}

/// `CipherCtxRef::cipher_update` without an output buffer takes the input as additional
/// authenticated data. It panics if the input is longer than a C `int` can tell.
#[verifier::external_body]
pub(crate) fn update_aad(ctx: &mut CipherCtx, aad: &[u8]) -> (result: Result<usize, ErrorStack>)
    requires
        ctx_history(*old(ctx)).len() == 1,
        history_cipher(ctx_history(*old(ctx))).is_gcm(),
        aad@.len() <= i32::MAX,
    ensures
        result is Ok ==> ctx_history(*final(ctx)) == ctx_history(*old(ctx)).push(
            CtxStep::Aad { bytes: aad@ },
        ),
        result matches Err(errors) ==> is_resource_failure(errors),
{
    ctx.cipher_update(aad, None)
}

/// `CipherCtxRef::cipher_update` encrypts or decrypts `input` and returns the number of bytes
/// written to the start of `output`.
///
/// If whole blocks are given, as they always are to a stream cipher, then as many bytes are
/// written, and the opposite operation, set up in the same way, turns them back into the input.
///
/// It panics if the input is longer than a C `int` can tell, or if the output has no room for it,
/// and for one more block in the case of a block cipher.
#[verifier::external_body]
pub(crate) fn update(ctx: &mut CipherCtx, input: &[u8], output: &mut [u8]) -> (result: Result<
    usize,
    ErrorStack,
>)
    requires
        awaits_gcm_payload(ctx_history(*old(ctx))) || awaits_ecb_blocks(ctx_history(*old(ctx))),
        input@.len() <= i32::MAX,
        old(output)@.len() >= input@.len() + (if history_cipher(
            ctx_history(*old(ctx)),
        ).block_size() > 1 {
            history_cipher(ctx_history(*old(ctx))).block_size()
        } else {
            0
        }),
    ensures
        final(output)@.len() == old(output)@.len(),
        result matches Ok(count) ==> {
            &&& count <= final(output)@.len()
            &&& ctx_history(*final(ctx)) == ctx_history(*old(ctx)).push(
                CtxStep::Data { bytes: input@ },
            )
            &&& final(output)@.take(count as int) == update_output(ctx_history(*old(ctx)), input@)
            &&& input@.len() % history_cipher(ctx_history(*old(ctx))).block_size() == 0 ==> {
                &&& count == input@.len()
                &&& update_output(
                    ctx_history(*old(ctx)).update(0, opposite(ctx_history(*old(ctx))[0])),
                    final(output)@.take(count as int),
                ) == input@
            }
        },
        result matches Err(errors) ==> is_resource_failure(errors),
{
    ctx.cipher_update(input, Some(output))
}

/// `CipherCtxRef::set_tag` sets the authentication tag that decryption is to be checked against.
/// A GCM tag has up to 16 bytes.
#[verifier::external_body]
pub(crate) fn set_tag(ctx: &mut CipherCtx, tag: &[u8]) -> (result: Result<(), ErrorStack>)
    requires
        awaits_tag(ctx_history(*old(ctx))),
        1 <= tag@.len() <= 16,
    ensures
        result is Ok ==> ctx_history(*final(ctx)) == ctx_history(*old(ctx)).push(
            CtxStep::SetTag { tag: tag@ },
        ),
        result matches Err(errors) ==> is_resource_failure(errors),
{
    ctx.set_tag(tag)
}

/// `CipherCtxRef::cipher_final` writes what the context has held back and returns the number of
/// bytes written; here it has held back nothing. A GCM decryption is finished with success only if
/// the tag that was set is the one that encrypting the decrypted data gives, and a tag that matches
/// is no reason to fail.
///
/// It panics if the output is shorter than a block of a block cipher.
#[verifier::external_body]
pub(crate) fn finish(ctx: &mut CipherCtx, output: &mut [u8]) -> (result: Result<usize, ErrorStack>)
    requires
        ({
            ||| awaits_gcm_finish(ctx_history(*old(ctx)))
            ||| awaits_tag_check(ctx_history(*old(ctx)))
            ||| awaits_ecb_finish(ctx_history(*old(ctx)))
        }),
        history_cipher(ctx_history(*old(ctx))).block_size() > 1 ==> old(output)@.len()
            >= history_cipher(ctx_history(*old(ctx))).block_size(),
    ensures
        final(output)@.len() == old(output)@.len(),
        match result {
            Ok(count) => {
                &&& count == 0
                &&& ctx_history(*final(ctx)) == ctx_history(*old(ctx)).push(CtxStep::Finish)
                &&& awaits_tag_check(ctx_history(*old(ctx))) ==> tag_matches(ctx_history(*old(ctx)))
            },
            Err(errors) => {
                ||| is_resource_failure(errors)
                ||| awaits_tag_check(ctx_history(*old(ctx))) && !tag_matches(ctx_history(*old(ctx)))
            },
        },
{
    ctx.cipher_final(output)
}

/// `CipherCtxRef::tag` fills `tag` with the authentication tag; the length of the buffer is that
/// of the tag. A GCM tag has up to 16 bytes.
#[verifier::external_body]
pub(crate) fn read_tag(ctx: &CipherCtx, tag: &mut [u8]) -> (result: Result<(), ErrorStack>)
    requires
        holds_tag(ctx_history(*ctx)),
        1 <= old(tag)@.len() <= 16,
    ensures
        final(tag)@.len() == old(tag)@.len(),
        result is Ok ==> final(tag)@ == tag_output(ctx_history(*ctx), old(tag)@.len()),
        result matches Err(errors) ==> is_resource_failure(errors),
{
    ctx.tag(tag)
}

} // verus!
