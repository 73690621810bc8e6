use vstd::prelude::*;

use crate::crypto::error::{CryptoError, CryptoResult};
use crate::crypto::primitives::{aes128_cmac, aes128_cmac_tag, aes128_ctr_apply, ctr128_apply, mic_of};

verus! {

/// Size in bytes of an AES-128 key.
pub const AES_KEY_SIZE: usize = 16;

/// Copies a 16-byte slice into an array.
pub fn array16_from_slice(s: &[u8]) -> (a: [u8; 16])
    requires
        s@.len() == 16,
    ensures
        a@ == s@,
{
    let mut a = [0u8; 16];
    let mut i: usize = 0;
    while i < 16
        invariant
            s@.len() == 16,
            0 <= i <= 16,
            forall|j: int| 0 <= j < i ==> a@[j] == s@[j],
        decreases 16 - i,
    {
        a[i] = s[i];
        i = i + 1;
    }
    assert(a@ =~= s@);
    a
}

/// AES-128 in counter mode with a 128-bit big-endian counter.
#[derive(Debug, Clone)]
pub struct AesCtr {
    key: [u8; 16],
}

impl View for AesCtr {
    type V = Seq<u8>;

    closed spec fn view(&self) -> Seq<u8> {
        self.key@
    }
}

impl AesCtr {
    /// Accepts exactly 16 key bytes.
    pub fn new(key: &[u8]) -> (result: CryptoResult<Self>)
        ensures
            key@.len() == 16 <==> result is Ok,
            result matches Ok(c) ==> c@ == key@,
            key@.len() != 16 ==> result == CryptoResult::<Self>::Err(
                CryptoError::InvalidKeyLength { expected: 16, got: key@.len() as usize },
            ),
    {
        if key.len() != AES_KEY_SIZE {
            return Err(CryptoError::invalid_key_length(AES_KEY_SIZE, key.len()));
        }
        let key_arr = array16_from_slice(key);
        Ok(Self { key: key_arr })
    }

    /// Writes `input` XORed with the keystream into the front of `output`.
    pub fn process(&self, iv: &[u8], input: &[u8], output: &mut [u8]) -> (result: CryptoResult<()>)
        ensures
            iv@.len() != 16 ==> {
                &&& result == CryptoResult::<()>::Err(
                    CryptoError::InvalidIvLength { expected: 16, got: iv@.len() as usize },
                )
                &&& final(output)@ == old(output)@
            },
            iv@.len() == 16 && old(output)@.len() < input@.len() ==> {
                &&& result == CryptoResult::<()>::Err(
                    CryptoError::BufferOverflow {
                        requested: input@.len() as usize,
                        available: old(output)@.len() as usize,
                    },
                )
                &&& final(output)@ == old(output)@
            },
            iv@.len() == 16 && old(output)@.len() >= input@.len() ==> {
                &&& result is Ok
                &&& final(output)@ == ctr128_apply(self@, iv@, input@) + old(output)@.subrange(
                    input@.len() as int,
                    old(output)@.len() as int,
                )
            },
    {
        if iv.len() != 16 {
            return Err(CryptoError::invalid_iv_length(16, iv.len()));
        }
        if output.len() < input.len() {
            return Err(
                CryptoError::BufferOverflow { requested: input.len(), available: output.len() },
            );
        }
        let iv_arr = array16_from_slice(iv);
        let stream = aes128_ctr_apply(&self.key, &iv_arr, input);
        let n = input.len();
        let mut i: usize = 0;
        while i < n
            invariant
                n == input@.len(),
                stream@.len() == n,
                output@.len() == old(output)@.len(),
                n <= output@.len(),
                0 <= i <= n,
                forall|j: int| 0 <= j < i ==> output@[j] == stream@[j],
                forall|j: int| i <= j < output@.len() ==> output@[j] == old(output)@[j],
            decreases n - i,
        {
            output[i] = stream[i];
            i = i + 1;
        }
        assert(output@ =~= ctr128_apply(self@, iv@, input@) + old(output)@.subrange(
            input@.len() as int,
            old(output)@.len() as int,
        ));
        Ok(())
    }

    /// The input XORed with the keystream, as a new vector.
    pub fn process_slice(&self, iv: &[u8], input: &[u8]) -> (result: CryptoResult<Vec<u8>>)
        ensures
            iv@.len() != 16 ==> result == CryptoResult::<Vec<u8>>::Err(
                CryptoError::InvalidIvLength { expected: 16, got: iv@.len() as usize },
            ),
            iv@.len() == 16 ==> (result matches Ok(v) && v@ == ctr128_apply(self@, iv@, input@)),
    {
        if iv.len() != 16 {
            return Err(CryptoError::invalid_iv_length(16, iv.len()));
        }
        let iv_arr = array16_from_slice(iv);
        Ok(aes128_ctr_apply(&self.key, &iv_arr, input))
    }

    /// Decryption is the same keystream XOR as encryption.
    pub fn decrypt_slice(&self, iv: &[u8], ciphertext: &[u8]) -> (result: CryptoResult<Vec<u8>>)
        ensures
            iv@.len() != 16 ==> result == CryptoResult::<Vec<u8>>::Err(
                CryptoError::InvalidIvLength { expected: 16, got: iv@.len() as usize },
            ),
            iv@.len() == 16 ==> (result matches Ok(v) && v@ == ctr128_apply(self@, iv@, ciphertext@)),
    {
        self.process_slice(iv, ciphertext)
    }
}

/// AES-CMAC with a 16-byte key.
#[derive(Debug, Clone)]
pub struct Cmac {
    key: [u8; 16],
}

impl View for Cmac {
    type V = Seq<u8>;

    closed spec fn view(&self) -> Seq<u8> {
        self.key@
    }
}

impl Cmac {
    /// Accepts exactly 16 key bytes.
    pub fn new(key: &[u8]) -> (result: CryptoResult<Self>)
        ensures
            key@.len() == 16 <==> result is Ok,
            result matches Ok(c) ==> c@ == key@,
            key@.len() != 16 ==> result == CryptoResult::<Self>::Err(
                CryptoError::InvalidKeyLength { expected: 16, got: key@.len() as usize },
            ),
    {
        if key.len() != AES_KEY_SIZE {
            return Err(CryptoError::invalid_key_length(AES_KEY_SIZE, key.len()));
        }
        let key_arr = array16_from_slice(key);
        Ok(Self { key: key_arr })
    }

    /// The full 16-byte AES-CMAC tag of `data`.
    pub fn compute(&self, data: &[u8]) -> (result: CryptoResult<[u8; 16]>)
        ensures
            result matches Ok(tag) && tag@ == aes128_cmac(self@, data@),
    {
        Ok(aes128_cmac_tag(&self.key, data))
    }

    /// Whether the 4-byte MIC equals the first four bytes of the tag of `data`.
    pub fn verify(&self, data: &[u8], expected_mic: &[u8]) -> (result: CryptoResult<bool>)
        ensures
            expected_mic@.len() != 4 ==> result == CryptoResult::<bool>::Err(
                CryptoError::InvalidMicSize { expected: 4, got: expected_mic@.len() as usize },
            ),
            expected_mic@.len() == 4 ==> result == CryptoResult::<bool>::Ok(
                mic_of(aes128_cmac(self@, data@)) == expected_mic@,
            ),
    {
        if expected_mic.len() != 4 {
            return Err(CryptoError::InvalidMicSize { expected: 4, got: expected_mic.len() });
        }
        let computed = aes128_cmac_tag(&self.key, data);
        let computed_mic: [u8; 4] = [computed[0], computed[1], computed[2], computed[3]];
        assert(computed_mic@ =~= mic_of(computed@));
        Ok(constant_time_compare(&computed_mic, expected_mic))
    }
}

/// Compares four bytes without an early exit.
pub fn constant_time_compare(a: &[u8; 4], b: &[u8]) -> (eq: bool)
    ensures
        eq == (a@ == b@),
{
    if b.len() != 4 {
        assert(a@.len() != b@.len());
        return false;
    }
    let mut diff: u8 = 0;
    let mut i: usize = 0;
    while i < 4
        invariant
            b@.len() == 4,
            0 <= i <= 4,
            (diff == 0) <==> (forall|j: int| 0 <= j < i ==> a@[j] == b@[j]),
        decreases 4 - i,
    {
        let x = a[i];
        let y = b[i];
        let old_diff = diff;
        diff = diff | (x ^ y);
        assert((old_diff | (x ^ y)) == 0 <==> (old_diff == 0 && x == y)) by (bit_vector);
        i = i + 1;
    }
    if diff == 0 {
        assert(a@ =~= b@);
    }
    diff == 0
}

} // verus!
