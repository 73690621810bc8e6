use vstd::prelude::*;

use crate::codec::{u16_from_le, u16_of_le, u32_from_le, u32_of_le};
use crate::crypto::lorawan::{
    derived_dev_addr, join_request_mic_valid, session_key_block, uplink_mic, JoinCrypto,
};
use crate::crypto::primitives::aes128_encrypt_block;
use crate::domain::entities::device::{Device, DeviceSession};
use crate::domain::types::{eui_display, Eui64, FrameCounter};
use crate::error::{DomainError, DomainErrorView};
use crate::text::{decimal, hex_fixed, push_decimal, push_hex_fixed, push_str};

verus! {

/// The uplink-frame service with its session store, audit writer and device registry.
pub struct ProcessUplinkFrameService<S, A, R> {
    pub sessions: S,
    pub audit_log: A,
    pub devices: R,
}

impl<S, A, R> ProcessUplinkFrameService<S, A, R> {
    pub fn new(sessions: S, audit_log: A, devices: R) -> (s: Self)
        ensures
            s.sessions == sessions,
            s.audit_log == audit_log,
            s.devices == devices,
    {
        ProcessUplinkFrameService { sessions, audit_log, devices }
    }
}

/// A LoRaWAN uplink PHYPayload classified by message type.
#[derive(Debug, Clone, PartialEq, Eq)]
pub enum ParsedLorawanFrame {
    JoinRequest { app_eui: Eui64, dev_eui: Eui64, dev_nonce: u16, mic: [u8; 4] },
    DataUplink {
        confirmed: bool,
        dev_addr: u32,
        fctrl: u8,
        frame_counter: u32,
        fport: Option<u8>,
        frm_payload: Vec<u8>,
        mic: [u8; 4],
    },
    Unsupported { mtype: u8 },
}

/// `ParsedLorawanFrame` with byte fields taken as sequences.
pub enum FrameView {
    JoinRequest { app_eui: Seq<u8>, dev_eui: Seq<u8>, dev_nonce: u16, mic: Seq<u8> },
    DataUplink {
        confirmed: bool,
        dev_addr: u32,
        fctrl: u8,
        frame_counter: u32,
        fport: Option<u8>,
        frm_payload: Seq<u8>,
        mic: Seq<u8>,
    },
    Unsupported { mtype: u8 },
}

impl View for ParsedLorawanFrame {
    type V = FrameView;

    open spec fn view(&self) -> FrameView {
        match self {
            ParsedLorawanFrame::JoinRequest { app_eui, dev_eui, dev_nonce, mic } => FrameView::JoinRequest {
                app_eui: app_eui@,
                dev_eui: dev_eui@,
                dev_nonce: *dev_nonce,
                mic: mic@,
            },
            ParsedLorawanFrame::DataUplink {
                confirmed,
                dev_addr,
                fctrl,
                frame_counter,
                fport,
                frm_payload,
                mic,
            } => FrameView::DataUplink {
                confirmed: *confirmed,
                dev_addr: *dev_addr,
                fctrl: *fctrl,
                frame_counter: *frame_counter,
                fport: *fport,
                frm_payload: frm_payload@,
                mic: mic@,
            },
            ParsedLorawanFrame::Unsupported { mtype } => FrameView::Unsupported { mtype: *mtype },
        }
    }
}

/// The parse result with frame and error taken by their views.
pub open spec fn parse_result_view(r: Result<ParsedLorawanFrame, DomainError>) -> Result<FrameView, DomainErrorView> {
    match r {
        Ok(f) => Ok(f@),
        Err(e) => Err(e@),
    }
}

/// The MType field: bits 5..8 of the MHDR.
pub open spec fn mtype_of(mhdr: u8) -> u8 {
    ((mhdr as int / 32) % 8) as u8
}

/// A validation error on `field` with `reason`.
pub open spec fn validation_view(field: Seq<char>, reason: Seq<char>) -> DomainErrorView {
    DomainErrorView::Validation { field, reason }
}

/// JoinRequest layout: `MHDR | AppEUI(8) | DevEUI(8) | DevNonce(LE) | MIC(4)`, 23 bytes.
pub open spec fn spec_parse_join_request(p: Seq<u8>) -> Result<FrameView, DomainErrorView> {
    if p.len() != 23 {
        Err(
            validation_view(
                "lorawan_payload"@,
                "join request must be 23 bytes, got "@ + decimal(p.len()),
            ),
        )
    } else {
        Ok(
            FrameView::JoinRequest {
                app_eui: p.subrange(1, 9),
                dev_eui: p.subrange(9, 17),
                dev_nonce: u16_of_le(p[17], p[18]),
                mic: p.subrange(19, 23),
            },
        )
    }
}

/// Data uplink layout: `MHDR | DevAddr(LE) | FCtrl | FCnt(LE, 16 bits) | FOpts | [FPort | FRMPayload] | MIC(4)`,
/// at least 12 bytes; the FOpts length is the low nibble of FCtrl.
pub open spec fn spec_parse_data_uplink(p: Seq<u8>, confirmed: bool) -> Result<FrameView, DomainErrorView> {
    if p.len() < 12 {
        Err(validation_view("lorawan_payload"@, "data uplink too short: "@ + decimal(p.len())))
    } else {
        let mac = p.subrange(1, p.len() - 4);
        let idx = 7 + mac[4] as int % 16;
        if idx > mac.len() {
            Err(validation_view("lorawan_payload.fopts"@, "fopts length exceeds mac payload"@))
        } else {
            Ok(
                FrameView::DataUplink {
                    confirmed,
                    dev_addr: u32_of_le(mac[0], mac[1], mac[2], mac[3]),
                    fctrl: mac[4],
                    frame_counter: u16_of_le(mac[5], mac[6]) as u32,
                    fport: if idx < mac.len() {
                        Some(mac[idx])
                    } else {
                        None
                    },
                    frm_payload: if idx < mac.len() {
                        mac.subrange(idx + 1, mac.len() as int)
                    } else {
                        Seq::empty()
                    },
                    mic: p.subrange(p.len() - 4, p.len() as int),
                },
            )
        }
    }
}

/// Classification of an uplink PHYPayload by MType (0 JoinRequest, 2 unconfirmed and
/// 4 confirmed data uplink); frames shorter than 5 bytes are rejected.
pub open spec fn spec_parse_lorawan_frame(p: Seq<u8>) -> Result<FrameView, DomainErrorView> {
    if p.len() < 5 {
        Err(validation_view("lorawan_payload"@, "frame too short to include MHDR and MIC"@))
    } else {
        let m = mtype_of(p[0]);
        if m == 0 {
            spec_parse_join_request(p)
        } else if m == 2 {
            spec_parse_data_uplink(p, false)
        } else if m == 4 {
            spec_parse_data_uplink(p, true)
        } else {
            Ok(FrameView::Unsupported { mtype: m })
        }
    }
}

/// Data uplink layout over the raw frame `p`, with `n` the FOpts length, i.e. the low
/// nibble of FCtrl (`p[5] % 16`): DevAddr is bytes 1..5 little-endian, FCtrl byte 5, FCnt
/// bytes 6..8 little-endian, FOpts bytes 8..8+n, then FPort at `8 + n` and FRMPayload up to
/// the four MIC bytes. FOpts running into the MIC is refused.
pub proof fn lemma_data_uplink_layout(p: Seq<u8>)
    requires
        p.len() >= 12,
        (p[0] as int / 32) % 8 == 2 || (p[0] as int / 32) % 8 == 4,
    ensures
        ({
            let n = p[5] as int % 16;
            let end = p.len() - 4;
            if 8 + n > end {
                spec_parse_lorawan_frame(p) is Err
            } else {
                spec_parse_lorawan_frame(p) == Ok::<FrameView, DomainErrorView>(
                    FrameView::DataUplink {
                        confirmed: (p[0] as int / 32) % 8 == 4,
                        dev_addr: (p[1] as int + 256 * p[2] as int + 65536 * p[3] as int + 16777216
                            * p[4] as int) as u32,
                        fctrl: p[5],
                        frame_counter: (p[6] as int + 256 * p[7] as int) as u32,
                        fport: if 8 + n < end {
                            Some(p[8 + n])
                        } else {
                            None
                        },
                        frm_payload: if 8 + n < end {
                            p.subrange(9 + n, end)
                        } else {
                            Seq::empty()
                        },
                        mic: p.subrange(end, p.len() as int),
                    },
                )
            }
        }),
{
    let mac = p.subrange(1, p.len() - 4);
    let n = p[5] as int % 16;
    assert(mac[4] == p[5]);
    if 8 + n < p.len() - 4 {
        assert(mac[7 + n] == p[8 + n]);
        assert(mac.subrange(8 + n, mac.len() as int) =~= p.subrange(9 + n, p.len() - 4));
    }
    assert((p[6] as int + 256 * p[7] as int) < 0x1_0000);
}

/// JoinRequest layout over the raw frame `p` (MType 0, 23 bytes): AppEUI bytes 1..9,
/// DevEUI bytes 9..17, DevNonce bytes 17..19 little-endian, MIC bytes 19..23. MTypes other
/// than 0, 2 and 4 are reported as unsupported; frames under 5 bytes are refused.
pub proof fn lemma_frame_classification(p: Seq<u8>)
    ensures
        p.len() < 5 ==> spec_parse_lorawan_frame(p) is Err,
        p.len() >= 5 && (p[0] as int / 32) % 8 == 0 ==> if p.len() == 23 {
            spec_parse_lorawan_frame(p) == Ok::<FrameView, DomainErrorView>(
                FrameView::JoinRequest {
                    app_eui: p.subrange(1, 9),
                    dev_eui: p.subrange(9, 17),
                    dev_nonce: (p[17] as int + 256 * p[18] as int) as u16,
                    mic: p.subrange(19, 23),
                },
            )
        } else {
            spec_parse_lorawan_frame(p) is Err
        },
        p.len() >= 5 && (p[0] as int / 32) % 8 != 0 && (p[0] as int / 32) % 8 != 2 && (p[0] as int / 32)
            % 8 != 4 ==> spec_parse_lorawan_frame(p) == Ok::<FrameView, DomainErrorView>(
            FrameView::Unsupported { mtype: ((p[0] as int / 32) % 8) as u8 },
        ),
{
}

/// The ADR, ACK and FPending bits of FCtrl (bits 4..8) never move FPort or FRMPayload:
/// two data uplinks that differ only in those bits parse alike but for FCtrl itself.
pub proof fn lemma_fctrl_flags_do_not_move_payload(p: Seq<u8>, fctrl: u8)
    requires
        p.len() >= 12,
        (p[0] as int / 32) % 8 == 2 || (p[0] as int / 32) % 8 == 4,
        fctrl as int % 16 == p[5] as int % 16,
    ensures
        match (spec_parse_lorawan_frame(p), spec_parse_lorawan_frame(p.update(5, fctrl))) {
            (
                Ok(FrameView::DataUplink { confirmed: c1, dev_addr: a1, frame_counter: n1, fport: f1, frm_payload: d1, mic: m1, .. }),
                Ok(FrameView::DataUplink { confirmed: c2, dev_addr: a2, frame_counter: n2, fport: f2, frm_payload: d2, mic: m2, .. }),
            ) => c1 == c2 && a1 == a2 && n1 == n2 && f1 == f2 && d1 == d2 && m1 == m2,
            (Err(_), Err(_)) => true,
            _ => false,
        },
{
    let q = p.update(5, fctrl);
    lemma_data_uplink_layout(p);
    lemma_data_uplink_layout(q);
    let n = p[5] as int % 16;
    if 8 + n < p.len() - 4 {
        assert(q.subrange(9 + n, q.len() - 4) =~= p.subrange(9 + n, p.len() - 4));
    }
    assert(q.subrange(q.len() - 4, q.len() as int) =~= p.subrange(p.len() - 4, p.len() as int));
}

/// A validation error with a static reason.
fn validation_error(field: &'static str, reason: &str) -> (e: DomainError)
    ensures
        e@ == validation_view(field@, reason@),
{
    DomainError::Validation { field, reason: String::from_str(reason) }
}

/// A validation error whose reason is `prefix` followed by the decimal `n`.
fn validation_error_with_count(field: &'static str, prefix: &str, n: usize) -> (e: DomainError)
    ensures
        e@ == validation_view(field@, prefix@ + decimal(n as nat)),
{
    let mut reason = String::new();
    push_str(&mut reason, prefix);
    push_decimal(&mut reason, n as u64);
    assert(reason@ =~= prefix@ + decimal(n as nat));
    DomainError::Validation { field, reason }
}

pub fn parse_lorawan_frame(payload: &[u8]) -> (result: Result<ParsedLorawanFrame, DomainError>)
    ensures
        parse_result_view(result) == spec_parse_lorawan_frame(payload@),
{
    if payload.len() < 5 {
        return Err(validation_error("lorawan_payload", "frame too short to include MHDR and MIC"));
    }
    let mhdr = payload[0];
    let mtype = (mhdr >> 5) & 0x07;
    assert(mtype == mtype_of(mhdr)) by (bit_vector)
        requires
            mtype == (mhdr >> 5) & 0x07,
    ;
    match mtype {
        0 => parse_join_request(payload),
        2 => parse_data_uplink(payload, false),
        4 => parse_data_uplink(payload, true),
        _ => Ok(ParsedLorawanFrame::Unsupported { mtype }),
    }
}

fn parse_join_request(payload: &[u8]) -> (result: Result<ParsedLorawanFrame, DomainError>)
    ensures
        parse_result_view(result) == spec_parse_join_request(payload@),
{
    if payload.len() != 23 {
        return Err(
            validation_error_with_count(
                "lorawan_payload",
                "join request must be 23 bytes, got ",
                payload.len(),
            ),
        );
    }
    let app_eui_bytes: [u8; 8] = [
        payload[1], payload[2], payload[3], payload[4], payload[5], payload[6], payload[7],
        payload[8],
    ];
    let dev_eui_bytes: [u8; 8] = [
        payload[9], payload[10], payload[11], payload[12], payload[13], payload[14], payload[15],
        payload[16],
    ];
    let app_eui = Eui64::new(app_eui_bytes);
    let dev_eui = Eui64::new(dev_eui_bytes);
    let dev_nonce = u16_from_le(payload[17], payload[18]);
    let mic = [payload[19], payload[20], payload[21], payload[22]];
    assert(app_eui@ =~= payload@.subrange(1, 9));
    assert(dev_eui@ =~= payload@.subrange(9, 17));
    assert(mic@ =~= payload@.subrange(19, 23));
    Ok(ParsedLorawanFrame::JoinRequest { app_eui, dev_eui, dev_nonce, mic })
}

fn parse_data_uplink(payload: &[u8], confirmed: bool) -> (result: Result<ParsedLorawanFrame, DomainError>)
    ensures
        parse_result_view(result) == spec_parse_data_uplink(payload@, confirmed),
{
    if payload.len() < 12 {
        return Err(
            validation_error_with_count("lorawan_payload", "data uplink too short: ", payload.len()),
        );
    }
    let mic_start = payload.len() - 4;
    let mic = [
        payload[mic_start],
        payload[mic_start + 1],
        payload[mic_start + 2],
        payload[mic_start + 3],
    ];
    assert(mic@ =~= payload@.subrange(payload@.len() - 4, payload@.len() as int));
    let mac_payload = vstd::slice::slice_subrange(payload, 1, mic_start);
    if mac_payload.len() < 7 {
        return Err(validation_error("lorawan_payload.fhdr", "fhdr too short"));
    }
    let dev_addr = u32_from_le(mac_payload[0], mac_payload[1], mac_payload[2], mac_payload[3]);
    let fctrl = mac_payload[4];
    let frame_counter = u16_from_le(mac_payload[5], mac_payload[6]) as u32;
    let fopts_len = (fctrl & 0x0F) as usize;
    assert(fopts_len == fctrl as int % 16) by (bit_vector)
        requires
            fopts_len == (fctrl & 0x0F) as usize,
    ;
    let mut index = 7 + fopts_len;
    if index > mac_payload.len() {
        return Err(
            validation_error("lorawan_payload.fopts", "fopts length exceeds mac payload"),
        );
    }
    let fport = if index < mac_payload.len() {
        let value = Some(mac_payload[index]);
        index = index + 1;
        value
    } else {
        None
    };
    let frm_payload = if index < mac_payload.len() {
        vstd::slice::slice_to_vec(vstd::slice::slice_subrange(mac_payload, index, mac_payload.len()))
    } else {
        Vec::new()
    };
    let ghost mac = payload@.subrange(1, payload@.len() - 4);
    let ghost idx = 7 + mac[4] as int % 16;
    assert(frm_payload@ =~= (if idx < mac.len() {
        mac.subrange(idx + 1, mac.len() as int)
    } else {
        Seq::<u8>::empty()
    }));
    Ok(
        ParsedLorawanFrame::DataUplink {
            confirmed,
            dev_addr,
            fctrl,
            frame_counter,
            fport,
            frm_payload,
            mic,
        },
    )
}

/// What processing an uplink frame ends in.
#[derive(Debug, Clone, PartialEq, Eq)]
pub enum ProcessUplinkFrameOutcome {
    JoinRequestObserved { dev_eui: Eui64, app_eui: Eui64, dev_nonce: u16 },
    DataUplinkReady { dev_eui: Eui64, dev_addr: u32, frame_counter: u32, confirmed: bool },
    Unsupported { mtype: u8 },
    JoinAccepted { dev_eui: Eui64, dev_addr: u32 },
    Rejected { reason: String },
}

/// The next step after classifying a frame: look up the device (JoinRequest),
/// look up the session (data uplink), or stop with an outcome.
#[derive(Debug, Clone, PartialEq, Eq)]
pub enum UplinkFramePlan {
    LookupDevice { dev_eui: Eui64, app_eui: Eui64, dev_nonce: u16 },
    LookupSession { dev_addr: u32, frame_counter: u32, confirmed: bool, mic: [u8; 4] },
    Finished(ProcessUplinkFrameOutcome),
}

/// The first step of frame processing: parse and decide which lookup the frame needs.
pub fn plan_uplink_frame(payload: &[u8]) -> (result: Result<UplinkFramePlan, DomainError>)
    ensures
        spec_parse_lorawan_frame(payload@) matches Err(e) ==> (result matches Err(r) && r@ == e),
        spec_parse_lorawan_frame(payload@) matches Ok(FrameView::JoinRequest { app_eui, dev_eui, dev_nonce, mic }) ==> (
            result matches Ok(UplinkFramePlan::LookupDevice { dev_eui: d, app_eui: a, dev_nonce: n })
            && d@ == dev_eui && a@ == app_eui && n == dev_nonce),
        spec_parse_lorawan_frame(payload@) matches Ok(FrameView::DataUplink { confirmed, dev_addr, frame_counter, mic, .. }) ==> (
            result matches Ok(UplinkFramePlan::LookupSession { dev_addr: a, frame_counter: f, confirmed: c, mic: m })
            && a == dev_addr && f == frame_counter && c == confirmed && m@ == mic),
        spec_parse_lorawan_frame(payload@) matches Ok(FrameView::Unsupported { mtype }) ==> (
            result matches Ok(UplinkFramePlan::Finished(ProcessUplinkFrameOutcome::Unsupported { mtype: m }))
            && m == mtype),
{
    match parse_lorawan_frame(payload) {
        Err(e) => Err(e),
        Ok(ParsedLorawanFrame::JoinRequest { app_eui, dev_eui, dev_nonce, .. }) => Ok(
            UplinkFramePlan::LookupDevice { dev_eui, app_eui, dev_nonce },
        ),
        Ok(ParsedLorawanFrame::DataUplink { confirmed, dev_addr, frame_counter, mic, .. }) => Ok(
            UplinkFramePlan::LookupSession { dev_addr, frame_counter, confirmed, mic },
        ),
        Ok(ParsedLorawanFrame::Unsupported { mtype }) => Ok(
            UplinkFramePlan::Finished(ProcessUplinkFrameOutcome::Unsupported { mtype }),
        ),
    }
}

/// What to do with a JoinRequest once the device lookup is done.
#[derive(Debug, Clone, PartialEq, Eq)]
pub enum JoinDecision {
    /// Reject with this reason (audited as a rejected join).
    Reject { reason: String },
    /// The MIC checks out under this AppKey: derive the session.
    DeriveSession { app_key: [u8; 16] },
}

/// Decides on a JoinRequest: unknown devices and bad MICs are rejected.
pub fn join_request_decision(payload: &[u8], dev_eui: &Eui64, device: Option<&Device>) -> (d: JoinDecision)
    ensures
        device is None ==> (d matches JoinDecision::Reject { reason } && reason@ == "unknown_device:"@
            + eui_display(dev_eui@)),
        device matches Some(dev) ==> (if join_request_mic_valid(dev.keys.app_key.0@, payload@) {
            d == JoinDecision::DeriveSession { app_key: dev.keys.app_key.0 }
        } else {
            d matches JoinDecision::Reject { reason } && reason@ == "join_mic_invalid"@
        }),
{
    let device = match device {
        Some(d) => d,
        None => {
            let mut reason = String::from_str("unknown_device:");
            push_str(&mut reason, dev_eui.to_string().as_str());
            return JoinDecision::Reject { reason };
        },
    };
    let app_key = device.keys.app_key.as_bytes();
    match JoinCrypto::validate_join_request_mic(&app_key, payload) {
        Ok(false) => JoinDecision::Reject { reason: String::from_str("join_mic_invalid") },
        Ok(true) => JoinDecision::DeriveSession { app_key },
        Err(_) => JoinDecision::DeriveSession { app_key },
    }
}

/// The AppNonce taken from the sub-second nanoseconds of the current time:
/// bits 16..24, 8..16 and 0..8.
pub fn app_nonce_from_nanos(nanos: u32) -> (n: [u8; 3])
    ensures
        n@ == seq![
            (nanos as int / 0x1_0000 % 0x100) as u8,
            (nanos as int / 0x100 % 0x100) as u8,
            (nanos as int % 0x100) as u8,
        ],
{
    let a = (nanos >> 16) as u8;
    let b = (nanos >> 8) as u8;
    let c = nanos as u8;
    assert(a == (nanos as int / 0x1_0000 % 0x100) as u8 && b == (nanos as int / 0x100 % 0x100) as u8
        && c == (nanos as int % 0x100) as u8) by (bit_vector)
        requires
            a == (nanos >> 16) as u8,
            b == (nanos >> 8) as u8,
            c == nanos as u8,
    ;
    let n = [a, b, c];
    assert(n@ =~= seq![
        (nanos as int / 0x1_0000 % 0x100) as u8,
        (nanos as int / 0x100 % 0x100) as u8,
        (nanos as int % 0x100) as u8,
    ]);
    n
}

/// The NetID of this private network.
pub open spec fn private_net_id() -> Seq<u8> {
    seq![0u8, 0u8, 0u8]
}

/// The session that a join installs: derived address, session keys from the AppKey,
/// AppNonce, the private NetID and the DevNonce, counter zero.
pub open spec fn joined_session_matches(
    s: DeviceSession,
    app_key: Seq<u8>,
    dev_eui: Seq<u8>,
    dev_nonce: u16,
    app_nonce: Seq<u8>,
) -> bool {
    &&& s.dev_addr == derived_dev_addr(app_key, dev_eui)
    &&& s.nwk_s_key@ == aes128_encrypt_block(
        app_key,
        session_key_block(0x01, app_nonce, private_net_id(), dev_nonce),
    )
    &&& s.app_s_key@ == aes128_encrypt_block(
        app_key,
        session_key_block(0x02, app_nonce, private_net_id(), dev_nonce),
    )
    &&& s.frame_counter == FrameCounter(0)
    &&& s.last_join_time is None
}

/// Derives the session of an accepted JoinRequest.
pub fn complete_join(app_key: &[u8; 16], dev_eui: Eui64, dev_nonce: u16, app_nonce: [u8; 3]) -> (r: (
    DeviceSession,
    ProcessUplinkFrameOutcome,
))
    ensures
        joined_session_matches(r.0, app_key@, dev_eui@, dev_nonce, app_nonce@),
        r.1 == (ProcessUplinkFrameOutcome::JoinAccepted { dev_eui, dev_addr: r.0.dev_addr }),
{
    let net_id: [u8; 3] = [0x00, 0x00, 0x00];
    assert(net_id@ =~= private_net_id());
    let keys = JoinCrypto::derive_session_keys(app_key, app_nonce, net_id, dev_nonce);
    let dev_addr_r = JoinCrypto::derive_dev_addr(app_key, dev_eui.as_bytes_slice());
    match (keys, dev_addr_r) {
        (Ok((nwk_s_key, app_s_key)), Ok(dev_addr)) => {
            let session = DeviceSession::new(dev_addr, app_s_key, nwk_s_key);
            (session, ProcessUplinkFrameOutcome::JoinAccepted { dev_eui, dev_addr })
        },
        _ => {
            let session = DeviceSession::new(0, [0u8; 16], [0u8; 16]);
            (session, ProcessUplinkFrameOutcome::JoinAccepted { dev_eui, dev_addr: 0 })
        },
    }
}

/// The reason of a stale-counter rejection.
pub open spec fn stale_counter_reason(frame_counter: u32, dev_addr: u32, current: u32) -> Seq<char> {
    "stale frame counter "@ + decimal(frame_counter as nat) + " for dev_addr "@ + hex_fixed(
        dev_addr as nat,
        8,
        true,
    ) + "; current "@ + decimal(current as nat)
}

/// The frame without its trailing four MIC bytes (the whole frame if shorter).
pub open spec fn without_mic(payload: Seq<u8>) -> Seq<u8> {
    if payload.len() >= 4 {
        payload.subrange(0, payload.len() - 4)
    } else {
        Seq::empty()
    }
}

/// Decides on a data uplink once the session lookup is done: unknown address,
/// stale counter, bad MIC, or ready.
pub fn data_uplink_decision(
    payload: &[u8],
    confirmed: bool,
    dev_addr: u32,
    frame_counter: u32,
    mic: &[u8; 4],
    lookup: Option<(Eui64, DeviceSession)>,
) -> (result: Result<ProcessUplinkFrameOutcome, DomainError>)
    ensures
        lookup is None ==> (result matches Err(e) && e@ == DomainErrorView::NotFound {
            entity: "device_session"@,
            id: "dev_addr:"@ + hex_fixed(dev_addr as nat, 8, true),
        }),
        lookup matches Some((dev_eui, session)) ==> {
            if frame_counter < session.frame_counter.0 {
                result matches Err(e) && e@ == DomainErrorView::InvalidState {
                    entity: "uplink"@,
                    reason: stale_counter_reason(frame_counter, dev_addr, session.frame_counter.0),
                }
            } else if uplink_mic(session.nwk_s_key@, dev_addr, frame_counter, without_mic(payload@))
                == mic@ {
                result == Ok::<ProcessUplinkFrameOutcome, DomainError>(
                    ProcessUplinkFrameOutcome::DataUplinkReady {
                        dev_eui,
                        dev_addr,
                        frame_counter,
                        confirmed,
                    },
                )
            } else {
                result matches Ok(ProcessUplinkFrameOutcome::Rejected { reason }) && reason@
                    == "mic_invalid"@
            }
        },
{
    let (dev_eui, session) = match lookup {
        Some(found) => found,
        None => {
            let mut id = String::from_str("dev_addr:");
            push_hex_fixed(&mut id, dev_addr as u64, 8, true);
            return Err(DomainError::NotFound { entity: "device_session", id });
        },
    };
    if frame_counter < session.frame_counter.0 {
        let mut reason = String::from_str("stale frame counter ");
        push_decimal(&mut reason, frame_counter as u64);
        push_str(&mut reason, " for dev_addr ");
        push_hex_fixed(&mut reason, dev_addr as u64, 8, true);
        push_str(&mut reason, "; current ");
        push_decimal(&mut reason, session.frame_counter.0 as u64);
        assert(reason@ =~= stale_counter_reason(frame_counter, dev_addr, session.frame_counter.0));
        return Err(DomainError::InvalidState { entity: "uplink", reason });
    }
    let cut = if payload.len() >= 4 {
        payload.len() - 4
    } else {
        0
    };
    let payload_without_mic = vstd::slice::slice_subrange(payload, 0, cut);
    assert(payload_without_mic@ =~= without_mic(payload@));
    match JoinCrypto::validate_uplink_mic(
        &session.nwk_s_key,
        dev_addr,
        frame_counter,
        payload_without_mic,
        mic,
    ) {
        Ok(false) => Ok(ProcessUplinkFrameOutcome::Rejected { reason: String::from_str("mic_invalid") }),
        _ => Ok(ProcessUplinkFrameOutcome::DataUplinkReady { dev_eui, dev_addr, frame_counter, confirmed }),
    }
}

} // verus!
