//! The AES-128 block cipher, AES-128-CTR and AES-CMAC as provided by the
//! `aes`, `ctr` and `cmac` crates, each behind one trusted wrapper.

use aes::Aes128;
use cipher::{BlockEncrypt, KeyInit, KeyIvInit, StreamCipher};
use cmac::Mac;
use vstd::prelude::*;

verus! {

/// The AES-128 encryption (FIPS 197) of one 16-byte block under a 16-byte key.
pub uninterp spec fn aes128_encrypt_block(key: Seq<u8>, block: Seq<u8>) -> Seq<u8>;

/// The AES-CMAC tag (RFC 4493, 16 bytes) of a message under a 16-byte AES key.
pub uninterp spec fn aes128_cmac(key: Seq<u8>, message: Seq<u8>) -> Seq<u8>;

/// The natural number whose big-endian encoding is `s`.
pub open spec fn be_value(s: Seq<u8>) -> nat
    decreases s.len(),
{
    if s.len() == 0 {
        0
    } else {
        be_value(s.drop_last()) * 256 + s.last() as nat
    }
}

/// The `len`-byte big-endian encoding of `n` (modulo 256^len).
pub open spec fn be_bytes(n: nat, len: nat) -> Seq<u8>
    decreases len,
{
    if len == 0 {
        seq![]
    } else {
        be_bytes(n / 256, (len - 1) as nat).push((n % 256) as u8)
    }
}

/// Counter block `j` of CTR mode with a 128-bit big-endian counter started at `iv`
/// (the encoding keeps the low 16 bytes, so the counter wraps modulo 2^128).
pub open spec fn ctr128_counter_block(iv: Seq<u8>, j: nat) -> Seq<u8> {
    be_bytes(be_value(iv) + j, 16)
}

/// Byte `i` of the AES-128-CTR keystream for `key` and initial counter block `iv`.
pub open spec fn ctr128_keystream_byte(key: Seq<u8>, iv: Seq<u8>, i: nat) -> u8 {
    aes128_encrypt_block(key, ctr128_counter_block(iv, i / 16))[(i % 16) as int]
}

/// `data` XORed with the AES-128-CTR keystream (encryption and decryption alike).
pub open spec fn ctr128_apply(key: Seq<u8>, iv: Seq<u8>, data: Seq<u8>) -> Seq<u8> {
    Seq::new(data.len(), |i: int| data[i] ^ ctr128_keystream_byte(key, iv, i as nat))
}

/// The first four bytes of a tag: the LoRaWAN MIC.
pub open spec fn mic_of(tag: Seq<u8>) -> Seq<u8> {
    tag.subrange(0, 4)
}

/// `aes::Aes128::new` followed by `BlockEncrypt::encrypt_block`: encrypts one
/// block. The contract says that the result is the AES-128 encryption of the
/// block under the key; the cipher itself is not proved here.
#[verifier::external_body]
pub(crate) fn aes128_encrypt(key: &[u8; 16], block: &[u8; 16]) -> (out: [u8; 16])
    ensures
        out@ == aes128_encrypt_block(key@, block@),
{
    let cipher = Aes128::new(key.into());
    let mut b = cipher::generic_array::GenericArray::from(*block);
    cipher.encrypt_block(&mut b);
    b.into()
}

/// `ctr::Ctr128BE::<aes::Aes128>::new` followed by `StreamCipher::apply_keystream`
/// on a copy of `data`. The contract says that each output byte is the input byte
/// XORed with the CTR keystream: AES-128 applied to the big-endian 128-bit counter
/// that starts at `iv` and grows by one per 16-byte block (the crate's
/// `Ctr128BE` flavor). A fresh cipher's block counter is zero, and its count of
/// remaining blocks (`u128::MAX` minus that counter) does not fit a `usize`, so the
/// crate sets no keystream limit and the call does not panic.
#[verifier::external_body]
pub(crate) fn aes128_ctr_apply(key: &[u8; 16], iv: &[u8; 16], data: &[u8]) -> (out: Vec<u8>)
    ensures
        out@ == ctr128_apply(key@, iv@, data@),
{
    let mut buf = data.to_vec();
    let mut stream = ctr::Ctr128BE::<Aes128>::new(key.into(), iv.into());
    stream.apply_keystream(&mut buf);
    buf
}

/// `cmac::Cmac::<aes::Aes128>` created with `KeyInit::new`, fed the message with
/// `Mac::update` and closed with `Mac::finalize`. The contract says that the
/// result is the AES-CMAC tag of the message; CMAC itself is not proved here.
#[verifier::external_body]
pub(crate) fn aes128_cmac_tag(key: &[u8; 16], message: &[u8]) -> (tag: [u8; 16])
    ensures
        tag@ == aes128_cmac(key@, message@),
{
    let mut mac = <cmac::Cmac<Aes128> as KeyInit>::new(key.into());
    mac.update(message);
    mac.finalize().into_bytes().into()
}

/// XORing twice with the same keystream gives the data back.
pub proof fn lemma_ctr128_apply_involution(key: Seq<u8>, iv: Seq<u8>, data: Seq<u8>)
    ensures
        ctr128_apply(key, iv, ctr128_apply(key, iv, data)) == data,
{
    let once = ctr128_apply(key, iv, data);
    let twice = ctr128_apply(key, iv, once);
    assert forall|i: int| 0 <= i < data.len() implies twice[i] == data[i] by {
        let k = ctr128_keystream_byte(key, iv, i as nat);
        let d = data[i];
        assert((d ^ k) ^ k == d) by (bit_vector);
    }
    assert(twice =~= data);
}

} // verus!
