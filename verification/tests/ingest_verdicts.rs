use maverick::domain::identifiers::{DevAddr, DevEui, Eui64, GatewayEui};
use maverick::domain::region::RegionId;
use maverick::domain::session::{DeviceClass, SessionSnapshot};
use maverick::ports::ObservedUplink;
use maverick::protocol::class_a::LoRaWAN10xClassA;
use maverick::use_cases::ingest_uplink::{build_b0_uplink, compute_mic, decrypt_frm_payload, ingest_verdict, IngestVerdict};

fn sample_session() -> SessionSnapshot {
    SessionSnapshot {
        dev_eui: DevEui(Eui64([1; 8])),
        dev_addr: DevAddr(0xAB_CD_00_01),
        region: RegionId::Eu868,
        class: DeviceClass::ClassA,
        uplink_frame_counter: 0,
        downlink_frame_counter: 0,
        application_id: None,
        nwk_s_key: [0u8; 16],
        app_s_key: [0u8; 16],
    }
}

fn obs_with_valid_mic(fc: u16, session: &SessionSnapshot) -> ObservedUplink {
    let phy: Vec<u8> = vec![0xAA];
    let b0 = build_b0_uplink(session.dev_addr.0, u32::from(fc), phy.len());
    let mic = compute_mic(&session.nwk_s_key, &b0, &phy);
    ObservedUplink {
        gateway_eui: GatewayEui(Eui64([9; 8])),
        dev_addr: session.dev_addr,
        region: RegionId::Eu868,
        f_cnt: fc,
        f_port: 1,
        payload: vec![0xAA],
        rssi: Some(-90),
        wire_mic: mic,
        phy_without_mic: phy,
        f_ctrl: 0,
        f_opts: vec![],
    }
}

#[test]
fn valid_uplink_is_accepted_and_advances_the_counter() {
    let session = sample_session();
    let obs = obs_with_valid_mic(1, &session);
    match ingest_verdict(&LoRaWAN10xClassA, &obs, Some(session.clone())) {
        IngestVerdict::Accepted { f_cnt, payload_decrypted, session: updated } => {
            assert_eq!(f_cnt, 1);
            assert_eq!(updated.uplink_frame_counter, 1);
            assert_eq!(payload_decrypted, Some(decrypt_frm_payload(&[0u8; 16], 0xAB_CD_00_01, 1, &[0xAA])));
            match ingest_verdict(&LoRaWAN10xClassA, &obs, Some(updated)) {
                IngestVerdict::Rejected { outcome, message } => {
                    assert_eq!(outcome, "rejected:RejectDuplicateFrameCounter");
                    assert_eq!(message, "uplink rejected: RejectDuplicateFrameCounter");
                }
                other => panic!("replay must be rejected, got {other:?}"),
            }
        }
        other => panic!("expected acceptance, got {other:?}"),
    }
}

#[test]
fn duplicate_counter_is_rejected_before_the_mic() {
    let mut session = sample_session();
    session.uplink_frame_counter = 5;
    let mut obs = obs_with_valid_mic(5, &session);
    obs.wire_mic = [0; 4];
    match ingest_verdict(&LoRaWAN10xClassA, &obs, Some(session)) {
        IngestVerdict::Rejected { outcome, .. } => assert_eq!(outcome, "rejected:RejectDuplicateFrameCounter"),
        other => panic!("unexpected {other:?}"),
    }
}

#[test]
fn wrong_mic_is_rejected() {
    let session = sample_session();
    let mut obs = obs_with_valid_mic(1, &session);
    obs.wire_mic = [0xFF; 4];
    match ingest_verdict(&LoRaWAN10xClassA, &obs, Some(session)) {
        IngestVerdict::Rejected { outcome, message } => {
            assert_eq!(outcome, "rejected:mic_invalid");
            assert!(message.contains("mic_invalid"));
        }
        other => panic!("unexpected {other:?}"),
    }
}

#[test]
fn missing_session_is_rejected() {
    let session = sample_session();
    let obs = obs_with_valid_mic(1, &session);
    match ingest_verdict(&LoRaWAN10xClassA, &obs, None) {
        IngestVerdict::Rejected { outcome, .. } => assert_eq!(outcome, "rejected:RejectNoSession"),
        other => panic!("unexpected {other:?}"),
    }
}
