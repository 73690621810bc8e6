use vstd::prelude::*;

use crate::codec::{extend_bytes, le_u16, le_u32, u16_from_le, u16_of_le, u16_to_le, u32_from_le, u32_of_le, u32_to_le, zeros};
use crate::crypto::aes_ctr::constant_time_compare;
use crate::crypto::error::{CryptoError, CryptoResult};
use crate::crypto::primitives::{
    aes128_cmac, aes128_cmac_tag, aes128_ctr_apply, aes128_encrypt, aes128_encrypt_block,
    ctr128_apply, mic_of,
};

verus! {

pub const BLOCK_SIZE: usize = 16;

pub const MIC_SIZE: usize = 4;

pub const B0_MIC_CONSTANT: u8 = 0x49;

/// The frame header fields that follow the MHDR: DevAddr, FCtrl and the 16-bit FCnt.
#[derive(Debug, Clone, Copy, PartialEq, Eq, Structural)]
pub struct LoRawanFrameHeader {
    pub dev_addr: u32,
    pub f_ctrl: u8,
    pub fcnt: u32,
}

impl LoRawanFrameHeader {
    /// Reads DevAddr (LE), FCtrl and FCnt (LE, 16 bits) from the first seven bytes;
    /// at least nine bytes are required.
    pub fn parse(bytes: &[u8]) -> (result: CryptoResult<Self>)
        ensures
            bytes@.len() < 9 ==> result == CryptoResult::<Self>::Err(
                CryptoError::InvalidFrameHeader { got: bytes@.len() as usize },
            ),
            bytes@.len() >= 9 ==> result == CryptoResult::<Self>::Ok(
                LoRawanFrameHeader {
                    dev_addr: u32_of_le(bytes@[0], bytes@[1], bytes@[2], bytes@[3]),
                    f_ctrl: bytes@[4],
                    fcnt: u16_of_le(bytes@[5], bytes@[6]) as u32,
                },
            ),
    {
        if bytes.len() < 9 {
            return Err(CryptoError::InvalidFrameHeader { got: bytes.len() });
        }
        let dev_addr = u32_from_le(bytes[0], bytes[1], bytes[2], bytes[3]);
        let f_ctrl = bytes[4];
        let fcnt = u16_from_le(bytes[5], bytes[6]) as u32;
        Ok(Self { dev_addr, f_ctrl, fcnt })
    }

    /// FCtrl bit 7.
    pub fn has_opts(&self) -> (b: bool)
        ensures
            b == (self.f_ctrl >= 0x80),
    {
        let f = self.f_ctrl;
        let r = f & 0x80 != 0;
        assert(r == (f >= 0x80)) by (bit_vector)
            requires
                r == (f & 0x80 != 0),
        ;
        r
    }

    /// When FCtrl bit 6 is set, bits 16..24 of the frame counter.
    pub fn fcnt_msb(&self) -> (r: Option<u8>)
        ensures
            (self.f_ctrl / 0x40) % 2 == 1 ==> r == Some((self.fcnt as int / 0x1_0000 % 0x100) as u8),
            (self.f_ctrl / 0x40) % 2 == 0 ==> r is None,
    {
        let f = self.f_ctrl;
        let set = f & 0x40 != 0;
        assert(set == ((f / 0x40) % 2 == 1)) by (bit_vector)
            requires
                set == (f & 0x40 != 0),
        ;
        if set {
            let x = self.fcnt;
            let m = (x >> 16) as u8;
            assert(m == (x as int / 0x1_0000 % 0x100) as u8) by (bit_vector)
                requires
                    m == (x >> 16) as u8,
            ;
            Some(m)
        } else {
            None
        }
    }
}

/// The 18-byte B0-style header hashed by `MicCalculation`:
/// `0x49 | 0x00 x4 | DevAddr(LE) | 0x00 0x00 | FPort | FCnt(LE) | 0x00 | len`.
pub open spec fn mic_calculation_header(dev_addr: u32, fcnt: u32, f_port: u8, len: u8) -> Seq<u8> {
    seq![B0_MIC_CONSTANT, 0u8, 0u8, 0u8, 0u8] + le_u32(dev_addr) + seq![0u8, 0u8, f_port]
        + le_u32(fcnt) + seq![0u8, len]
}

/// Number of zero bytes that follow the `0x80` marker so that `len + 1` bytes fill whole blocks.
pub open spec fn pad_zero_count(len: nat) -> nat {
    ((16 - (len + 1) % 16) % 16) as nat
}

/// ISO/IEC 9797-1 method 2 padding, skipped when the data already fills whole blocks.
pub open spec fn pad_block(data: Seq<u8>) -> Seq<u8> {
    if data.len() % 16 == 0 {
        data
    } else {
        data.push(0x80) + zeros(pad_zero_count(data.len()))
    }
}

/// Padding keeps the data as a prefix and yields the shortest whole number of blocks:
/// aligned data is unchanged; otherwise `0x80` follows the data and zeros fill the block.
pub proof fn lemma_pad_block_shape(data: Seq<u8>)
    ensures
        pad_block(data).len() % 16 == 0,
        data.len() <= pad_block(data).len() < data.len() + 16,
        pad_block(data).subrange(0, data.len() as int) == data,
        data.len() % 16 == 0 ==> pad_block(data) == data,
        data.len() % 16 != 0 ==> {
            &&& pad_block(data)[data.len() as int] == 0x80u8
            &&& forall|j: int| data.len() < j < pad_block(data).len() ==> pad_block(data)[j] == 0u8
        },
{
    let p = pad_block(data);
    if data.len() % 16 != 0 {
        assert(p.subrange(0, data.len() as int) =~= data);
        assert forall|j: int| data.len() < j < p.len() implies p[j] == 0u8 by {
            assert(p[j] == zeros(pad_zero_count(data.len()))[j - data.len() - 1]);
        }
    } else {
        assert(p.subrange(0, data.len() as int) =~= data);
    }
}

/// Pads `data` to a multiple of `BLOCK_SIZE` with `0x80` followed by zeros.
pub fn pad_to_block_size(data: &[u8]) -> (padded: Vec<u8>)
    requires
        data@.len() + 16 <= usize::MAX,
    ensures
        padded@ == pad_block(data@),
{
    let mut padded: Vec<u8> = Vec::new();
    extend_bytes(&mut padded, data);
    if data.len() % BLOCK_SIZE == 0 {
        return padded;
    }
    padded.push(0x80);
    let ghost base = padded@;
    while padded.len() % BLOCK_SIZE != 0
        invariant
            base == data@.push(0x80),
            base.len() <= padded@.len() <= base.len() + 15,
            padded@ == base + zeros((padded@.len() - base.len()) as nat),
            data@.len() + 16 <= usize::MAX,
            (padded@.len() - base.len() <= pad_zero_count(data@.len())),
        decreases base.len() + 15 - padded@.len(),
    {
        padded.push(0x00);
        assert(padded@ =~= base + zeros((padded@.len() - base.len()) as nat));
    }
    assert(padded@ =~= data@.push(0x80) + zeros(pad_zero_count(data@.len())));
    padded
}

/// MIC computation over the 18-byte header of `mic_calculation_header`.
pub struct MicCalculation;

/// The MIC that `MicCalculation` computes.
pub open spec fn spec_mic_calculation(key: Seq<u8>, dev_addr: u32, fcnt: u32, f_port: u8, payload_len: nat) -> Seq<u8> {
    mic_of(aes128_cmac(key, pad_block(mic_calculation_header(dev_addr, fcnt, f_port, payload_len as u8))))
}

impl MicCalculation {
    pub fn compute_nwk_s_key_mic(
        key: &[u8; 16],
        dev_addr: u32,
        fcnt: u32,
        f_port: u8,
        payload: &[u8],
    ) -> (result: CryptoResult<[u8; 4]>)
        requires
            payload@.len() <= 14,
        ensures
            result matches Ok(m) && m@ == spec_mic_calculation(key@, dev_addr, fcnt, f_port, payload@.len()),
    {
        Self::compute_mic_internal(key, dev_addr, fcnt, f_port, payload, true)
    }

    pub fn compute_app_s_key_mic(
        key: &[u8; 16],
        dev_addr: u32,
        fcnt: u32,
        f_port: u8,
        payload: &[u8],
    ) -> (result: CryptoResult<[u8; 4]>)
        requires
            payload@.len() <= 14,
        ensures
            result matches Ok(m) && m@ == spec_mic_calculation(key@, dev_addr, fcnt, f_port, payload@.len()),
    {
        Self::compute_mic_internal(key, dev_addr, fcnt, f_port, payload, false)
    }

    /// Builds the 18-byte header; a payload longer than 14 bytes would not fit the
    /// 32-byte scratch buffer, and a payload of at most 14 bytes is not hashed.
    fn compute_mic_internal(
        key: &[u8; 16],
        dev_addr: u32,
        fcnt: u32,
        f_port: u8,
        payload: &[u8],
        _is_nwk_s_key: bool,
    ) -> (result: CryptoResult<[u8; 4]>)
        requires
            payload@.len() <= 14,
        ensures
            result matches Ok(m) && m@ == spec_mic_calculation(key@, dev_addr, fcnt, f_port, payload@.len()),
    {
        let d = u32_to_le(dev_addr);
        let f = u32_to_le(fcnt);
        let payload_len = payload.len() as u8;
        let header: [u8; 18] = [
            B0_MIC_CONSTANT, 0x00, 0x00, 0x00, 0x00, d[0], d[1], d[2], d[3], 0x00, 0x00, f_port,
            f[0], f[1], f[2], f[3], 0x00, payload_len,
        ];
        assert(header@ =~= mic_calculation_header(dev_addr, fcnt, f_port, payload@.len() as u8));
        let padded = pad_to_block_size(&header);
        let computed = aes128_cmac_tag(key, padded.as_slice());
        let m = [computed[0], computed[1], computed[2], computed[3]];
        assert(m@ =~= mic_of(computed@));
        Ok(m)
    }
}

/// The message hashed by `MicValidator`: the 16-byte block
/// `0x49 | 0x00 x4 | DevAddr(LE) | 0x00 0x00 | FPort | FCnt(LE)`, then
/// `0x00 | (len + 9) mod 256`, the payload, `0x80`, and zeros up to a whole block.
pub open spec fn mic_validator_message(dev_addr: u32, fcnt: u32, f_port: u8, payload: Seq<u8>) -> Seq<u8> {
    let body = seq![B0_MIC_CONSTANT, 0u8, 0u8, 0u8, 0u8] + le_u32(dev_addr) + seq![0u8, 0u8, f_port]
        + le_u32(fcnt) + seq![0u8, ((payload.len() + 9) % 256) as u8] + payload;
    body.push(0x80) + zeros(pad_zero_count(body.len()))
}

/// Validates a MIC against `mic_validator_message`.
pub struct MicValidator;

impl MicValidator {
    pub fn validate(
        key: &[u8; 16],
        dev_addr: u32,
        fcnt: u32,
        f_port: u8,
        payload: &[u8],
        mic: &[u8; 4],
    ) -> (result: CryptoResult<bool>)
        requires
            payload@.len() + 64 <= usize::MAX,
        ensures
            result == CryptoResult::<bool>::Ok(
                mic_of(aes128_cmac(key@, mic_validator_message(dev_addr, fcnt, f_port, payload@)))
                    == mic@,
            ),
    {
        let d = u32_to_le(dev_addr);
        let f = u32_to_le(fcnt);
        let len_byte = ((payload.len() + 9) % 256) as u8;
        let block_data: [u8; 16] = [
            B0_MIC_CONSTANT, 0x00, 0x00, 0x00, 0x00, d[0], d[1], d[2], d[3], 0x00, 0x00, f_port,
            f[0], f[1], f[2], f[3],
        ];
        let mut msg: Vec<u8> = Vec::new();
        extend_bytes(&mut msg, &block_data);
        msg.push(0x00);
        msg.push(len_byte);
        extend_bytes(&mut msg, payload);
        let ghost body = msg@;
        assert(body =~= seq![B0_MIC_CONSTANT, 0u8, 0u8, 0u8, 0u8] + le_u32(dev_addr) + seq![
            0u8,
            0u8,
            f_port,
        ] + le_u32(fcnt) + seq![0u8, ((payload@.len() + 9) % 256) as u8] + payload@);
        msg.push(0x80);
        let ghost base = msg@;
        while msg.len() % 16 != 0
            invariant
                base == body.push(0x80),
                body.len() == 18 + payload@.len(),
                payload@.len() + 64 <= usize::MAX,
                base.len() <= msg@.len() <= base.len() + 15,
                msg@ == base + zeros((msg@.len() - base.len()) as nat),
                (msg@.len() - base.len() <= pad_zero_count(body.len())),
            decreases base.len() + 15 - msg@.len(),
        {
            msg.push(0x00);
            assert(msg@ =~= base + zeros((msg@.len() - base.len()) as nat));
        }
        assert(msg@ =~= mic_validator_message(dev_addr, fcnt, f_port, payload@));
        let computed = aes128_cmac_tag(key, msg.as_slice());
        let computed_mic: [u8; 4] = [computed[0], computed[1], computed[2], computed[3]];
        assert(computed_mic@ =~= mic_of(computed@));
        Ok(constant_time_compare(&computed_mic, mic))
    }
}

/// The initial counter block used by `PayloadDecryptor`:
/// `0x01 | 0x00 x3 | DevAddr(LE) | 0x00 0x00 | FPort | FCnt(LE) | 0x00`.
pub open spec fn payload_decryptor_iv(dev_addr: u32, fcnt: u32, f_port: u8) -> Seq<u8> {
    seq![0x01u8, 0u8, 0u8, 0u8] + le_u32(dev_addr) + seq![0u8, 0u8, f_port] + le_u32(fcnt) + seq![0u8]
}

/// AES-CTR decryption of a payload with the counter block of `payload_decryptor_iv`.
pub struct PayloadDecryptor;

impl PayloadDecryptor {
    pub fn decrypt(
        key: &[u8; 16],
        dev_addr: u32,
        fcnt: u32,
        f_port: u8,
        ciphertext: &[u8],
    ) -> (result: CryptoResult<Vec<u8>>)
        ensures
            result matches Ok(v) && v@ == ctr128_apply(
                key@,
                payload_decryptor_iv(dev_addr, fcnt, f_port),
                ciphertext@,
            ),
    {
        let d = u32_to_le(dev_addr);
        let f = u32_to_le(fcnt);
        let iv: [u8; 16] = [
            0x01, 0x00, 0x00, 0x00, d[0], d[1], d[2], d[3], 0x00, 0x00, f_port, f[0], f[1], f[2],
            f[3], 0x00,
        ];
        assert(iv@ =~= payload_decryptor_iv(dev_addr, fcnt, f_port));
        Ok(aes128_ctr_apply(key, &iv, ciphertext))
    }
}

/// The LoRaWAN 1.0.x uplink B0 block:
/// `0x49 | 0x00 x4 | Dir = 0 | DevAddr(LE) | FCnt(LE) | 0x00 | len`.
pub open spec fn uplink_b0(dev_addr: u32, fcnt: u32, len: u8) -> Seq<u8> {
    seq![0x49u8, 0u8, 0u8, 0u8, 0u8, 0u8] + le_u32(dev_addr) + le_u32(fcnt) + seq![0u8, len]
}

/// The block encrypted under the AppKey to derive a session key (LoRaWAN 1.0.3 §6.2.5):
/// `tag | AppNonce | NetID | DevNonce(LE) | 0x00 x7`.
pub open spec fn session_key_block(tag: u8, app_nonce: Seq<u8>, net_id: Seq<u8>, dev_nonce: u16) -> Seq<u8> {
    seq![tag] + app_nonce + net_id + le_u16(dev_nonce) + zeros(7)
}

/// The key-derivation block is 16 bytes: byte 0 the tag, bytes 1..4 the AppNonce, bytes
/// 4..7 the NetID, bytes 7 and 8 the DevNonce low byte then high byte (little-endian), and
/// zeros after.
pub proof fn lemma_session_key_block_layout(tag: u8, app_nonce: Seq<u8>, net_id: Seq<u8>, dev_nonce: u16)
    requires
        app_nonce.len() == 3,
        net_id.len() == 3,
    ensures
        session_key_block(tag, app_nonce, net_id, dev_nonce).len() == 16,
        session_key_block(tag, app_nonce, net_id, dev_nonce)[0] == tag,
        forall|j: int| 0 <= j < 3 ==> #[trigger] session_key_block(tag, app_nonce, net_id, dev_nonce)[1 + j]
            == app_nonce[j],
        forall|j: int| 0 <= j < 3 ==> #[trigger] session_key_block(tag, app_nonce, net_id, dev_nonce)[4 + j]
            == net_id[j],
        session_key_block(tag, app_nonce, net_id, dev_nonce)[7] as int == dev_nonce as int % 256,
        session_key_block(tag, app_nonce, net_id, dev_nonce)[8] as int == dev_nonce as int / 256,
        forall|j: int| 9 <= j < 16 ==> #[trigger] session_key_block(tag, app_nonce, net_id, dev_nonce)[j]
            == 0u8,
{
    let b = session_key_block(tag, app_nonce, net_id, dev_nonce);
    assert(b.len() == 16);
    assert forall|j: int| 0 <= j < 3 implies #[trigger] b[1 + j] == app_nonce[j] by {}
    assert forall|j: int| 0 <= j < 3 implies #[trigger] b[4 + j] == net_id[j] by {}
    assert forall|j: int| 9 <= j < 16 implies #[trigger] b[j] == 0u8 by {}
}

/// Whether a JoinRequest (all bytes; the MIC is the last four) carries the AES-CMAC
/// MIC of the rest of the frame under the AppKey.
pub open spec fn join_request_mic_valid(app_key: Seq<u8>, raw: Seq<u8>) -> bool {
    raw.len() >= 4 && mic_of(aes128_cmac(app_key, raw.subrange(0, raw.len() - 4)))
        == raw.subrange(raw.len() - 4, raw.len() as int)
}

/// The uplink MIC: the first four bytes of `AES-CMAC(NwkSKey, B0 | MACPayload)`.
pub open spec fn uplink_mic(nwk_s_key: Seq<u8>, dev_addr: u32, fcnt: u32, mac_payload: Seq<u8>) -> Seq<u8> {
    mic_of(
        aes128_cmac(nwk_s_key, uplink_b0(dev_addr, fcnt, (mac_payload.len() % 256) as u8) + mac_payload),
    )
}

/// The DevAddr derived from an AppKey and DevEUI: the first four bytes of
/// `AES-CMAC(AppKey, DevEUI | 0x00 x8)` read little-endian.
pub open spec fn derived_dev_addr(app_key: Seq<u8>, dev_eui: Seq<u8>) -> u32 {
    let t = aes128_cmac(app_key, dev_eui + zeros(8));
    u32_of_le(t[0], t[1], t[2], t[3])
}

/// Join procedure cryptography (LoRaWAN 1.0.3).
pub struct JoinCrypto;

impl JoinCrypto {
    /// Validates the MIC of a JoinRequest per LoRaWAN 1.0.3 §6.2.3:
    /// MIC = AES128_CMAC(AppKey, MHDR|AppEUI|DevEUI|DevNonce).
    pub fn validate_join_request_mic(app_key: &[u8; 16], raw_payload: &[u8]) -> (result: CryptoResult<bool>)
        ensures
            result == CryptoResult::<bool>::Ok(join_request_mic_valid(app_key@, raw_payload@)),
    {
        if raw_payload.len() < MIC_SIZE {
            return Ok(false);
        }
        let n = raw_payload.len();
        let message = vstd::slice::slice_subrange(raw_payload, 0, n - MIC_SIZE);
        let given_mic = vstd::slice::slice_subrange(raw_payload, n - MIC_SIZE, n);
        let computed = aes128_cmac_tag(app_key, message);
        let computed_mic: [u8; 4] = [computed[0], computed[1], computed[2], computed[3]];
        assert(computed_mic@ =~= mic_of(computed@));
        Ok(constant_time_compare(&computed_mic, given_mic))
    }

    /// Validates the MIC of a data uplink per LoRaWAN 1.0.3 §4.4.
    /// `mac_payload` is the whole frame except the last four MIC bytes.
    pub fn validate_uplink_mic(
        nwk_s_key: &[u8; 16],
        dev_addr: u32,
        fcnt: u32,
        mac_payload: &[u8],
        mic: &[u8; 4],
    ) -> (result: CryptoResult<bool>)
        ensures
            result == CryptoResult::<bool>::Ok(
                uplink_mic(nwk_s_key@, dev_addr, fcnt, mac_payload@) == mic@,
            ),
    {
        let message = build_uplink_b0_message(dev_addr, fcnt, mac_payload);
        let computed = aes128_cmac_tag(nwk_s_key, message.as_slice());
        let computed_mic: [u8; 4] = [computed[0], computed[1], computed[2], computed[3]];
        assert(computed_mic@ =~= mic_of(computed@));
        Ok(constant_time_compare(&computed_mic, mic))
    }

    /// Derives (NwkSKey, AppSKey) per LoRaWAN 1.0.3 §6.2.5.
    pub fn derive_session_keys(
        app_key: &[u8; 16],
        app_nonce: [u8; 3],
        net_id: [u8; 3],
        dev_nonce: u16,
    ) -> (result: CryptoResult<([u8; 16], [u8; 16])>)
        ensures
            result matches Ok((nwk, app)) && nwk@ == aes128_encrypt_block(
                app_key@,
                session_key_block(0x01, app_nonce@, net_id@, dev_nonce),
            ) && app@ == aes128_encrypt_block(
                app_key@,
                session_key_block(0x02, app_nonce@, net_id@, dev_nonce),
            ),
    {
        let nwk_pad = session_key_block_bytes(0x01, app_nonce, net_id, dev_nonce);
        let app_pad = session_key_block_bytes(0x02, app_nonce, net_id, dev_nonce);
        let nwk_s_key = Self::aes128_encrypt_block(app_key, &nwk_pad)?;
        let app_s_key = Self::aes128_encrypt_block(app_key, &app_pad)?;
        Ok((nwk_s_key, app_s_key))
    }

    /// Derives a deterministic DevAddr from AppKey and DevEUI for private networks.
    pub fn derive_dev_addr(app_key: &[u8; 16], dev_eui: &[u8; 8]) -> (result: CryptoResult<u32>)
        ensures
            result == CryptoResult::<u32>::Ok(derived_dev_addr(app_key@, dev_eui@)),
    {
        let input: [u8; 16] = [
            dev_eui[0], dev_eui[1], dev_eui[2], dev_eui[3], dev_eui[4], dev_eui[5], dev_eui[6],
            dev_eui[7], 0, 0, 0, 0, 0, 0, 0, 0,
        ];
        assert(input@ =~= dev_eui@ + zeros(8));
        let computed = aes128_cmac_tag(app_key, &input);
        Ok(u32_from_le(computed[0], computed[1], computed[2], computed[3]))
    }

    fn aes128_encrypt_block(key: &[u8; 16], plaintext: &[u8; 16]) -> (result: CryptoResult<[u8; 16]>)
        ensures
            result matches Ok(b) && b@ == aes128_encrypt_block(key@, plaintext@),
    {
        Ok(aes128_encrypt(key, plaintext))
    }
}

/// `B0 | mac_payload` for the uplink MIC.
pub fn build_uplink_b0_message(dev_addr: u32, fcnt: u32, mac_payload: &[u8]) -> (message: Vec<u8>)
    ensures
        message@ == uplink_b0(dev_addr, fcnt, (mac_payload@.len() % 256) as u8) + mac_payload@,
{
    let msg_len = (mac_payload.len() % 256) as u8;
    let d = u32_to_le(dev_addr);
    let f = u32_to_le(fcnt);
    let b0: [u8; 16] = [
        0x49, 0x00, 0x00, 0x00, 0x00, 0x00, d[0], d[1], d[2], d[3], f[0], f[1], f[2], f[3], 0x00,
        msg_len,
    ];
    assert(b0@ =~= uplink_b0(dev_addr, fcnt, (mac_payload@.len() % 256) as u8));
    let mut message: Vec<u8> = Vec::new();
    extend_bytes(&mut message, &b0);
    extend_bytes(&mut message, mac_payload);
    assert(message@ =~= uplink_b0(dev_addr, fcnt, (mac_payload@.len() % 256) as u8)
        + mac_payload@);
    message
}

/// The 16-byte block of `session_key_block`.
fn session_key_block_bytes(tag: u8, app_nonce: [u8; 3], net_id: [u8; 3], dev_nonce: u16) -> (b: [u8; 16])
    ensures
        b@ == session_key_block(tag, app_nonce@, net_id@, dev_nonce),
{
    let n = u16_to_le(dev_nonce);
    let b: [u8; 16] = [
        tag, app_nonce[0], app_nonce[1], app_nonce[2], net_id[0], net_id[1], net_id[2], n[0],
        n[1], 0, 0, 0, 0, 0, 0, 0,
    ];
    assert(b@ =~= session_key_block(tag, app_nonce@, net_id@, dev_nonce));
    b
}

} // verus!
