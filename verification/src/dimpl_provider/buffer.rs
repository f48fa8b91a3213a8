//! The buffer types of `dimpl` that the provider reads and fills.

use dimpl::crypto::{Aad, Buf, Nonce, TmpBuf};
use vstd::prelude::*;

verus! {

/// `dimpl`'s growable byte buffer.
#[verifier::external_type_specification]
#[verifier::external_body]
pub struct ExBuf(dimpl::crypto::Buf);

/// `dimpl`'s in-place buffer: a borrowed slice of which a prefix is in use.
#[verifier::external_type_specification]
#[verifier::external_body]
pub struct ExTmpBuf<'a>(dimpl::crypto::TmpBuf<'a>);

/// Additional authenticated data of a DTLS record.
#[verifier::external_type_specification]
#[verifier::external_body]
pub struct ExAad(dimpl::crypto::Aad);

/// An AEAD nonce.
#[verifier::external_type_specification]
#[verifier::external_body]
pub struct ExNonce(dimpl::crypto::Nonce);

/// The bytes in a `Buf`.
pub uninterp spec fn buf_bytes(buf: Buf) -> Seq<u8>;

/// The whole slice that a `TmpBuf` borrows.
pub uninterp spec fn tmp_backing(buf: TmpBuf<'_>) -> Seq<u8>;

/// The number of bytes in use in a `TmpBuf`.
pub uninterp spec fn tmp_len(buf: TmpBuf<'_>) -> nat;

/// Whether the bytes in use in a `TmpBuf` lie within the slice it borrows. So they do in a new
/// one; `TmpBuf::truncate` can break this.
pub open spec fn tmp_is_valid(buf: TmpBuf<'_>) -> bool {
    tmp_len(buf) <= tmp_backing(buf).len()
}

/// The bytes in use in a `TmpBuf`.
pub open spec fn tmp_bytes(buf: TmpBuf<'_>) -> Seq<u8> {
    tmp_backing(buf).take(tmp_len(buf) as int)
}

/// The bytes of an `Aad`.
pub uninterp spec fn aad_bytes(aad: Aad) -> Seq<u8>;

/// The bytes of a `Nonce`.
pub uninterp spec fn nonce_bytes(nonce: Nonce) -> Seq<u8>;

/// `Buf::clear` removes all bytes.
pub assume_specification[ dimpl::crypto::Buf::clear ](buf: &mut Buf)
    ensures
        buf_bytes(*final(buf)) == Seq::<u8>::empty(),
;

/// `Buf::extend_from_slice` appends the bytes of the slice.
pub assume_specification[ dimpl::crypto::Buf::extend_from_slice ](buf: &mut Buf, other: &[u8])
    ensures
        buf_bytes(*final(buf)) == buf_bytes(*old(buf)) + other@,
;

/// `Buf::as_ref` lends the bytes of the buffer.
#[verifier::external_body]
pub(crate) fn buf_as_slice(buf: &Buf) -> (bytes: &[u8])
    ensures
        bytes@ == buf_bytes(*buf),
{
    buf.as_ref()
}

/// `TmpBuf::new` takes the whole slice into use.
pub assume_specification<'a>[ dimpl::crypto::TmpBuf::<'a>::new ](bytes: &'a mut [u8]) -> (buf:
    TmpBuf<'a>)
    ensures
        tmp_backing(buf) == old(bytes)@,
        tmp_len(buf) == old(bytes)@.len(),
;

/// `TmpBuf::len` is the number of bytes in use.
pub assume_specification<'a>[ dimpl::crypto::TmpBuf::<'a>::len ](buf: &TmpBuf<'a>) -> (len: usize)
    ensures
        len == tmp_len(*buf),
;

/// `TmpBuf::truncate` sets the number of bytes in use, to whatever it is given.
pub assume_specification<'a>[ dimpl::crypto::TmpBuf::<'a>::truncate ](
    buf: &mut TmpBuf<'a>,
    len: usize,
)
    ensures
        tmp_len(*final(buf)) == len,
        tmp_backing(*final(buf)) == tmp_backing(*old(buf)),
;

/// `TmpBuf::as_ref` lends the bytes in use. It panics where they reach beyond the slice.
#[verifier::external_body]
pub(crate) fn tmp_as_slice<'b>(buf: &'b TmpBuf<'_>) -> (bytes: &'b [u8])
    requires
        tmp_is_valid(*buf),
    ensures
        bytes@ == tmp_bytes(*buf),
{
    buf.as_ref()
}

/// `TmpBuf::as_mut` lends the bytes in use for writing. It panics where they reach beyond the
/// slice.
#[verifier::external_body]
pub(crate) fn tmp_as_mut_slice<'b>(buf: &'b mut TmpBuf<'_>) -> (bytes: &'b mut [u8])
    requires
        tmp_is_valid(*old(buf)),
    ensures
        bytes@ == tmp_bytes(*old(buf)),
        tmp_len(*final(buf)) == tmp_len(*old(buf)),
        tmp_backing(*final(buf)) == final(bytes)@ + tmp_backing(*old(buf)).skip(
            tmp_len(*old(buf)) as int,
        ),
{
    buf.as_mut()
}

/// `Aad` dereferences to its bytes, of which it holds at most 13.
#[verifier::external_body]
pub(crate) fn aad_as_slice(aad: &Aad) -> (bytes: &[u8])
    ensures
        bytes@ == aad_bytes(*aad),
        bytes@.len() <= 13,
{
    aad
}

/// `Nonce` dereferences to its twelve bytes.
#[verifier::external_body]
pub(crate) fn nonce_as_slice(nonce: &Nonce) -> (bytes: &[u8])
    ensures
        bytes@ == nonce_bytes(*nonce),
        bytes@.len() == 12,
{
    nonce
}

/// `<[U]>::copy_from_slice` copies every element of `src`; it panics if the lengths differ.
pub assume_specification<U: Copy>[ <[U]>::copy_from_slice ](slice: &mut [U], src: &[U])
    requires
        old(slice)@.len() == src@.len(),
    ensures
        final(slice)@ == src@,
;

/// A buffer with all of `bytes` in use.
pub fn in_place<'a>(bytes: &'a mut [u8]) -> (buf: TmpBuf<'a>)
    ensures
        tmp_is_valid(buf),
        tmp_bytes(buf) == old(bytes)@,
        tmp_backing(buf) == old(bytes)@,
        tmp_len(buf) == old(bytes)@.len(),
{
    let buf = TmpBuf::new(bytes);
    assert(tmp_bytes(buf) =~= old(bytes)@);
    buf
}

/// Replaces the bytes of `buf`.
pub fn replace_bytes(buf: &mut Buf, bytes: &[u8])
    ensures
        buf_bytes(*final(buf)) == bytes@,
{
    buf.clear();
    buf.extend_from_slice(bytes);
    assert(buf_bytes(*buf) =~= bytes@);
}

/// Makes `bytes` the bytes in use in `buf`, which borrows a slice of at least that length. What the
/// slice holds beyond them stays.
pub fn replace_in_place(buf: &mut TmpBuf, bytes: &[u8])
    requires
        bytes@.len() <= tmp_backing(*old(buf)).len(),
    ensures
        tmp_is_valid(*final(buf)),
        tmp_bytes(*final(buf)) == bytes@,
        tmp_backing(*final(buf)) == bytes@ + tmp_backing(*old(buf)).skip(bytes@.len() as int),
{
    buf.truncate(bytes.len());
    tmp_as_mut_slice(buf).copy_from_slice(bytes);
    assert(tmp_bytes(*buf) =~= bytes@);
}

/// The bytes in use in a `TmpBuf` are as many of the first bytes of its slice as it says, and it is
/// valid if the slice has so many.
pub proof fn bytes_in_use_are_a_prefix(buf: TmpBuf<'_>)
    ensures
        tmp_is_valid(buf) <==> tmp_len(buf) <= tmp_backing(buf).len(),
        tmp_is_valid(buf) ==> tmp_bytes(buf).len() == tmp_len(buf),
        tmp_is_valid(buf) ==> forall|i: int|
            0 <= i < tmp_len(buf) ==> #[trigger] tmp_bytes(buf)[i] == tmp_backing(buf)[i],
{
}

} // verus!
