use vstd::prelude::*;

use crate::codec::{extend_bytes, le_u32, u32_to_le};
use crate::crypto::lorawan::uplink_b0;
use crate::crypto::primitives::{aes128_cmac, aes128_cmac_tag, aes128_encrypt, aes128_encrypt_block, mic_of};
use crate::domain::session::SessionSnapshot;
use crate::ports::ObservedUplink;
use crate::protocol::capability::{decision_name, ProtocolDecision};
use crate::protocol::class_a::{spec_extend_fcnt, spec_validate_uplink, FcntError, LoRaWAN10xClassA};
use crate::text::push_str;

verus! {

/// Dedup window: the same (dev_addr, f_cnt) within this window is a duplicate (multi-gateway).
pub const DEDUP_WINDOW_MS: i64 = 30_000;

/// LoRaWAN 1.0.x §4.4 — B0 block for the uplink MIC; multi-byte fields little-endian,
/// the length taken modulo 256.
pub fn build_b0_uplink(dev_addr: u32, f_cnt: u32, phy_len_without_mic: usize) -> (b0: [u8; 16])
    ensures
        b0@ == uplink_b0(dev_addr, f_cnt, (phy_len_without_mic % 256) as u8),
{
    let d = u32_to_le(dev_addr);
    let f = u32_to_le(f_cnt);
    let len = (phy_len_without_mic % 256) as u8;
    let b0: [u8; 16] = [
        0x49, 0, 0, 0, 0, 0x00, d[0], d[1], d[2], d[3], f[0], f[1], f[2], f[3], 0, len,
    ];
    assert(b0@ =~= uplink_b0(dev_addr, f_cnt, (phy_len_without_mic % 256) as u8));
    b0
}

/// AES-128 CMAC over `B0 | PHY_without_MIC`, first four bytes.
pub fn compute_mic(nwk_s_key: &[u8; 16], b0: &[u8; 16], phy_without_mic: &[u8]) -> (mic: [u8; 4])
    ensures
        mic@ == mic_of(aes128_cmac(nwk_s_key@, b0@ + phy_without_mic@)),
{
    let mut message: Vec<u8> = Vec::new();
    extend_bytes(&mut message, b0);
    extend_bytes(&mut message, phy_without_mic);
    let full = aes128_cmac_tag(nwk_s_key, message.as_slice());
    let mic = [full[0], full[1], full[2], full[3]];
    assert(mic@ =~= mic_of(full@));
    mic
}

/// The MIC the ingest path computes over `B0 | PHY_without_MIC` is the uplink MIC
/// that the frame-processing path checks with `JoinCrypto::validate_uplink_mic`.
pub proof fn lemma_ingest_mic_is_uplink_mic(nwk_s_key: Seq<u8>, dev_addr: u32, f_cnt: u32, phy_without_mic: Seq<u8>)
    ensures
        mic_of(
            aes128_cmac(
                nwk_s_key,
                uplink_b0(dev_addr, f_cnt, (phy_without_mic.len() % 256) as u8) + phy_without_mic,
            ),
        ) == crate::crypto::lorawan::uplink_mic(nwk_s_key, dev_addr, f_cnt, phy_without_mic),
{
}

/// Block `A_i` of the FRMPayload keystream (LoRaWAN 1.0.x §4.3.3.2, uplink):
/// `0x01 | 0x00 x4 | Dir = 0 | DevAddr(LE) | FCnt(LE) | 0x00 | i`.
pub open spec fn frm_block(dev_addr: u32, f_cnt: u32, i: u8) -> Seq<u8> {
    seq![0x01u8, 0u8, 0u8, 0u8, 0u8, 0u8] + le_u32(dev_addr) + le_u32(f_cnt) + seq![0u8, i]
}

/// Number of keystream blocks generated for a payload: one per started 16-byte block,
/// counted in a byte (the counter starts at 1).
pub open spec fn frm_block_count(len: nat) -> nat {
    (((len + 15) / 16) % 256) as nat
}

/// FRMPayload decryption: each byte XORed with the keystream byte of block
/// `j / 16 + 1`; the output stops where the keystream ends.
pub open spec fn spec_decrypt_frm(app_s_key: Seq<u8>, dev_addr: u32, f_cnt: u32, payload: Seq<u8>) -> Seq<u8> {
    let n = if payload.len() <= 16 * frm_block_count(payload.len()) {
        payload.len()
    } else {
        16 * frm_block_count(payload.len())
    };
    Seq::new(
        n,
        |j: int|
            payload[j] ^ aes128_encrypt_block(
                app_s_key,
                frm_block(dev_addr, f_cnt, (j / 16 + 1) as u8),
            )[j % 16],
    )
}

/// A payload of at most 255 blocks is decrypted whole: every byte is XORed with byte
/// `j % 16` of the keystream block numbered `j / 16 + 1` (the block counter starts at 1).
pub proof fn lemma_decrypt_frm_covers_payload(app_s_key: Seq<u8>, dev_addr: u32, f_cnt: u32, payload: Seq<u8>)
    requires
        payload.len() <= 255 * 16,
    ensures
        spec_decrypt_frm(app_s_key, dev_addr, f_cnt, payload).len() == payload.len(),
        forall|j: int|
            0 <= j < payload.len() ==> #[trigger] spec_decrypt_frm(app_s_key, dev_addr, f_cnt, payload)[j]
                == payload[j] ^ aes128_encrypt_block(app_s_key, frm_block(dev_addr, f_cnt, (j / 16 + 1) as u8))[j
                % 16],
{
    let len = payload.len();
    assert((len + 15) / 16 < 256 && len <= 16 * ((len + 15) / 16)) by (nonlinear_arith)
        requires
            len <= 255 * 16,
    ;
}

/// LoRaWAN 1.0.x §4.3.3.2 — AES-128 keystream decryption of the FRMPayload; the block
/// counter starts at 1.
pub fn decrypt_frm_payload(app_s_key: &[u8; 16], dev_addr: u32, f_cnt: u32, payload: &[u8]) -> (out: Vec<u8>)
    requires
        payload@.len() + 16 <= usize::MAX,
    ensures
        out@ == spec_decrypt_frm(app_s_key@, dev_addr, f_cnt, payload@),
{
    if payload.len() == 0 {
        assert(spec_decrypt_frm(app_s_key@, dev_addr, f_cnt, payload@) =~= Seq::<u8>::empty());
        return Vec::new();
    }
    let block_count = (payload.len() + 15) / 16;
    let blocks = (block_count % 256) as u8;
    let d = u32_to_le(dev_addr);
    let f = u32_to_le(f_cnt);
    let n: usize = if payload.len() <= 16 * (blocks as usize) {
        payload.len()
    } else {
        16 * (blocks as usize)
    };
    let mut out: Vec<u8> = Vec::new();
    let mut j: usize = 0;
    let mut block = [0u8; 16];
    while j < n
        invariant
            n <= payload@.len(),
            n == (if payload@.len() <= 16 * frm_block_count(payload@.len()) {
                payload@.len()
            } else {
                16 * frm_block_count(payload@.len())
            }),
            blocks as nat == frm_block_count(payload@.len()),
            n <= 16 * blocks as nat,
            d@ == le_u32(dev_addr),
            f@ == le_u32(f_cnt),
            0 <= j <= n,
            out@.len() == j,
            j % 16 != 0 ==> block@ == aes128_encrypt_block(
                app_s_key@,
                frm_block(dev_addr, f_cnt, (j / 16 + 1) as u8),
            ),
            forall|k: int|
                0 <= k < j ==> out@[k] == payload@[k] ^ aes128_encrypt_block(
                    app_s_key@,
                    frm_block(dev_addr, f_cnt, (k / 16 + 1) as u8),
                )[k % 16],
        decreases n - j,
    {
        if j % 16 == 0 {
            let i = (j / 16 + 1) as u8;
            let ai: [u8; 16] = [
                0x01, 0, 0, 0, 0, 0x00, d[0], d[1], d[2], d[3], f[0], f[1], f[2], f[3], 0, i,
            ];
            assert(ai@ =~= frm_block(dev_addr, f_cnt, (j / 16 + 1) as u8));
            block = aes128_encrypt(app_s_key, &ai);
        }
        out.push(payload[j] ^ block[j % 16]);
        j = j + 1;
    }
    assert(out@ =~= spec_decrypt_frm(app_s_key@, dev_addr, f_cnt, payload@));
    out
}

/// Decrypting twice with the same key, address and counter gives the payload back
/// (for payloads whose keystream is not cut short, i.e. at most 255 blocks).
pub proof fn lemma_decrypt_frm_involution(app_s_key: Seq<u8>, dev_addr: u32, f_cnt: u32, payload: Seq<u8>)
    requires
        payload.len() <= 16 * 255,
    ensures
        spec_decrypt_frm(app_s_key, dev_addr, f_cnt, spec_decrypt_frm(app_s_key, dev_addr, f_cnt, payload))
            == payload,
{
    let once = spec_decrypt_frm(app_s_key, dev_addr, f_cnt, payload);
    assert(frm_block_count(payload.len()) == (payload.len() + 15) / 16);
    assert(once.len() == payload.len());
    let twice = spec_decrypt_frm(app_s_key, dev_addr, f_cnt, once);
    assert forall|j: int| 0 <= j < payload.len() implies twice[j] == payload[j] by {
        let k = aes128_encrypt_block(app_s_key, frm_block(dev_addr, f_cnt, (j / 16 + 1) as u8))[j
            % 16];
        let p = payload[j];
        assert((p ^ k) ^ k == p) by (bit_vector);
    }
    assert(twice =~= payload);
}

/// The validation step that ends an ingest: rejected by protocol policy, rejected for
/// its MIC, or accepted with the reconstructed counter.
pub enum IngestStep {
    Reject(ProtocolDecision),
    RejectMic,
    Accept(u32),
}

/// Validation order of an ingest: session presence, counter reconstruction, protocol
/// policy, then the MIC computed over B0 with the reconstructed counter.
pub open spec fn spec_ingest_step(obs: ObservedUplink, session: Option<SessionSnapshot>) -> IngestStep {
    match session {
        None => IngestStep::Reject(spec_validate_uplink(obs.region, obs.f_cnt, None)),
        Some(s) => match spec_extend_fcnt(obs.f_cnt, s.uplink_frame_counter) {
            Err(FcntError::Duplicate) => IngestStep::Reject(ProtocolDecision::RejectDuplicateFrameCounter),
            Err(FcntError::GapExceeded) => IngestStep::Reject(ProtocolDecision::RejectFcntGapExceeded),
            Ok(r) => {
                let d = spec_validate_uplink(obs.region, obs.f_cnt, Some(s));
                if d != ProtocolDecision::Accept {
                    IngestStep::Reject(d)
                } else if mic_of(
                    aes128_cmac(
                        s.nwk_s_key@,
                        uplink_b0(obs.dev_addr.0, r, (obs.phy_without_mic@.len() % 256) as u8)
                            + obs.phy_without_mic@,
                    ),
                ) != obs.wire_mic@ {
                    IngestStep::RejectMic
                } else {
                    IngestStep::Accept(r)
                }
            },
        },
    }
}

/// Once an uplink is accepted and the session moved to its reconstructed counter,
/// the same uplink observed again is refused as a duplicate frame counter.
pub proof fn lemma_accepted_uplink_replay_is_duplicate(obs: ObservedUplink, s: SessionSnapshot)
    ensures
        match spec_ingest_step(obs, Some(s)) {
            IngestStep::Accept(r) => spec_ingest_step(obs, Some(SessionSnapshot { uplink_frame_counter: r, ..s }))
                == IngestStep::Reject(ProtocolDecision::RejectDuplicateFrameCounter),
            _ => true,
        },
{
    if let IngestStep::Accept(r) = spec_ingest_step(obs, Some(s)) {
        crate::protocol::class_a::lemma_extend_fcnt_sound(obs.f_cnt, s.uplink_frame_counter);
        crate::protocol::class_a::lemma_extend_fcnt_replay_is_duplicate(r);
        assert(((r as int % 0x1_0000) as u16) == obs.f_cnt);
    }
}

/// Result of validating an observed uplink.
#[derive(Debug, Clone)]
pub enum IngestVerdict {
    /// Audit `outcome`, then fail with `message`.
    Rejected { outcome: String, message: String },
    /// Persist (unless a duplicate), store `session`, audit success.
    Accepted { f_cnt: u32, payload_decrypted: Option<Vec<u8>>, session: SessionSnapshot },
}

fn rejected_by(decision: ProtocolDecision) -> (v: IngestVerdict)
    ensures
        v matches IngestVerdict::Rejected { outcome, message } && outcome@ == "rejected:"@
            + decision_name(decision) && message@ == "uplink rejected: "@ + decision_name(decision),
{
    let mut outcome = String::from_str("rejected:");
    push_str(&mut outcome, decision.name());
    let mut message = String::from_str("uplink rejected: ");
    push_str(&mut message, decision.name());
    IngestVerdict::Rejected { outcome, message }
}

/// Validates an observed uplink against the session found by its DevAddr, and on
/// success decrypts the payload and advances the session counter.
pub fn ingest_verdict(
    protocol: &LoRaWAN10xClassA,
    obs: &ObservedUplink,
    session: Option<SessionSnapshot>,
) -> (v: IngestVerdict)
    requires
        obs.payload@.len() + 16 <= usize::MAX,
    ensures
        spec_ingest_step(*obs, session) matches IngestStep::Reject(d) ==> (
            v matches IngestVerdict::Rejected { outcome, message } && outcome@ == "rejected:"@
                + decision_name(d) && message@ == "uplink rejected: "@ + decision_name(d)),
        spec_ingest_step(*obs, session) matches IngestStep::RejectMic ==> (
            v matches IngestVerdict::Rejected { outcome, message } && outcome@
                == "rejected:mic_invalid"@ && message@ == "mic_invalid"@),
        spec_ingest_step(*obs, session) matches IngestStep::Accept(r) ==> (
            v matches IngestVerdict::Accepted { f_cnt, payload_decrypted, session: updated } && f_cnt
                == r && updated == (SessionSnapshot { uplink_frame_counter: r, ..session->0 }) && (
            if obs.payload@.len() == 0 {
                payload_decrypted is None
            } else {
                payload_decrypted matches Some(p) && p@ == spec_decrypt_frm(
                    session->0.app_s_key@,
                    obs.dev_addr.0,
                    r,
                    obs.payload@,
                )
            })),
{
    let session = match session {
        Some(s) => s,
        None => {
            let decision = protocol.validate_uplink(obs.region, obs.f_cnt, None);
            return rejected_by(decision);
        },
    };
    let reconstructed = match LoRaWAN10xClassA::extend_fcnt(obs.f_cnt, session.uplink_frame_counter) {
        Ok(fc) => fc,
        Err(FcntError::Duplicate) => {
            return rejected_by(ProtocolDecision::RejectDuplicateFrameCounter);
        },
        Err(FcntError::GapExceeded) => {
            return rejected_by(ProtocolDecision::RejectFcntGapExceeded);
        },
    };
    let decision = protocol.validate_uplink(obs.region, obs.f_cnt, Some(&session));
    if decision != ProtocolDecision::Accept {
        return rejected_by(decision);
    }
    let b0 = build_b0_uplink(obs.dev_addr.0, reconstructed, obs.phy_without_mic.len());
    let computed = compute_mic(&session.nwk_s_key, &b0, obs.phy_without_mic.as_slice());
    let wire = obs.wire_mic;
    if !(computed[0] == wire[0] && computed[1] == wire[1] && computed[2] == wire[2] && computed[3]
        == wire[3]) {
        assert(computed@ != wire@) by {
            if computed@ == wire@ {
                assert(computed@[0] == wire@[0]);
                assert(computed@[1] == wire@[1]);
                assert(computed@[2] == wire@[2]);
                assert(computed@[3] == wire@[3]);
            }
        }
        return IngestVerdict::Rejected {
            outcome: String::from_str("rejected:mic_invalid"),
            message: String::from_str("mic_invalid"),
        };
    }
    assert(computed@ =~= wire@);
    let payload_decrypted = if obs.payload.len() == 0 {
        None
    } else {
        Some(decrypt_frm_payload(&session.app_s_key, obs.dev_addr.0, reconstructed, obs.payload.as_slice()))
    };
    let mut updated = session;
    updated.uplink_frame_counter = reconstructed;
    IngestVerdict::Accepted { f_cnt: reconstructed, payload_decrypted, session: updated }
}

} // verus!
