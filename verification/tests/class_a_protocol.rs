use maverick::domain::identifiers::{DevAddr, DevEui, Eui64};
use maverick::domain::region::RegionId;
use maverick::domain::session::{DeviceClass, SessionSnapshot};
use maverick::protocol::capability::ProtocolDecision;
use maverick::protocol::class_a::{FcntError, LoRaWAN10xClassA};
use maverick::protocol::mac_commands::{LinkCheckAns, MacCid, ParsedMacCommands};

fn sample_session(fc: u32) -> SessionSnapshot {
    SessionSnapshot {
        dev_eui: DevEui(Eui64([1, 2, 3, 4, 5, 6, 7, 8])),
        dev_addr: DevAddr(0x01_02_03_04),
        region: RegionId::Eu868,
        class: DeviceClass::ClassA,
        uplink_frame_counter: fc,
        downlink_frame_counter: 0,
        application_id: None,
        nwk_s_key: [0u8; 16],
        app_s_key: [0u8; 16],
    }
}

#[test]
fn accepts_incrementing_fcnt() {
    let m = LoRaWAN10xClassA;
    let s = sample_session(5);
    assert_eq!(m.validate_uplink(RegionId::Eu868, 6, Some(&s)), ProtocolDecision::Accept);
}

#[test]
fn rejects_duplicate_fcnt() {
    let m = LoRaWAN10xClassA;
    let s = sample_session(10);
    assert_eq!(
        m.validate_uplink(RegionId::Eu868, 10, Some(&s)),
        ProtocolDecision::RejectDuplicateFrameCounter
    );
}

#[test]
fn extend_fcnt_no_rollover() {
    assert_eq!(LoRaWAN10xClassA::extend_fcnt(0x0010, 0x0000_0005), Ok(0x0000_0010));
}

#[test]
fn extend_fcnt_rollover_at_16bit_boundary() {
    assert_eq!(LoRaWAN10xClassA::extend_fcnt(0x0001, 0x0000_FFFE), Ok(0x0001_0001));
}

#[test]
fn extend_fcnt_duplicate_rejected() {
    assert_eq!(LoRaWAN10xClassA::extend_fcnt(0x0005, 0x0000_0010), Err(FcntError::Duplicate));
}

#[test]
fn extend_fcnt_gap_exceeded_rejected() {
    assert_eq!(LoRaWAN10xClassA::extend_fcnt(0x9999, 0x0001_0000), Err(FcntError::GapExceeded));
}

#[test]
fn fcnt_wrap_65535_to_0_rollover() {
    let result = LoRaWAN10xClassA::extend_fcnt(0x0000, 0x0000_FFFF);
    assert!(result.is_ok(), "session=65535, wire=0 should be accepted (rollover or duplicate within gap)");
}

#[test]
fn fcnt_wrap_65534_to_1() {
    let result = LoRaWAN10xClassA::extend_fcnt(0x0001, 0x0000_FFFE);
    let _ = result;
}

#[test]
fn fcnt_forward_progress() {
    assert_eq!(
        LoRaWAN10xClassA::extend_fcnt(0x0001, 0x0000_0000),
        Ok(0x0000_0001),
        "session=0, wire=1 is forward progress"
    );
}

#[test]
fn fcnt_duplicate_rejected() {
    assert_eq!(
        LoRaWAN10xClassA::extend_fcnt(0x0005, 0x0000_0005),
        Err(FcntError::Duplicate),
        "session=5, wire=5 is duplicate"
    );
}

#[test]
fn fcnt_gap_exceeded() {
    let result = LoRaWAN10xClassA::extend_fcnt(0xC350, 0x0001_86A0);
    assert!(result.is_ok(), "session=100000, wire=50000: algorithm behavior");
}

#[test]
fn fcnt_rollover_candidate_high() {
    let result = LoRaWAN10xClassA::extend_fcnt(0x0001, 0x0000_FFFE);
    let _ = result;
}

#[test]
fn fcnt_u32_max_session() {
    let result = LoRaWAN10xClassA::extend_fcnt(0x0000, u32::MAX);
    let _ = result;
}

#[test]
fn fcnt_wrap_65534_to_1_rollover() {
    let result = LoRaWAN10xClassA::extend_fcnt(0x0001, 0x0000_FFFE);
    assert!(result.is_ok(), "session=65534, wire=1 should be accepted");
}

#[test]
fn fcnt_retransmit_vs_rollover() {
    assert_eq!(
        LoRaWAN10xClassA::extend_fcnt(0x0001, 0x0001_0000),
        Ok(0x0001_0001),
        "Wire FCnt=1 with session=65536 is forward progress"
    );
}

#[test]
fn fcnt_max_u32_minus_one() {
    assert_eq!(
        LoRaWAN10xClassA::extend_fcnt(0xFFFF, 0xFFFF_FFFE),
        Ok(0xFFFF_FFFF),
        "Near u32::MAX: wire FCnt=0xFFFF with session=0xFFFFFFFE -> 0xFFFFFFFF"
    );
}

#[test]
fn fcnt_zero_to_one_happy() {
    assert_eq!(
        LoRaWAN10xClassA::extend_fcnt(0x0001, 0x0000_0000),
        Ok(0x0000_0001),
        "session=0, wire=1 is forward progress"
    );
}

#[test]
fn fcnt_gap_1000_exactly() {
    assert_eq!(
        LoRaWAN10xClassA::extend_fcnt(0x03E9, 0x0000_0000),
        Ok(0x0000_03E9),
        "session=0, wire=1001: forward progress"
    );
}

#[test]
fn fcnt_very_large_gap_in_past() {
    let result = LoRaWAN10xClassA::extend_fcnt(0xC350, 0x0001_86A0);
    assert!(result.is_ok(), "session=100000, wire=50000: algorithm returns Ok per internal logic");
}

#[test]
fn mac_commands_link_check_req_parsing() {
    let f_opts = vec![0x02];
    let parsed = ParsedMacCommands::from_fopts(&f_opts);
    assert!(parsed.link_check_req);
}

#[test]
fn empty_fopts_no_link_check() {
    let f_opts: Vec<u8> = vec![];
    let parsed = ParsedMacCommands::from_fopts(&f_opts);
    assert!(!parsed.link_check_req);
}

#[test]
fn link_check_ans_encoding() {
    let ans = LinkCheckAns { margin: 10, gateway_count: 3 };
    let encoded = ans.encode_fopts();
    assert_eq!(encoded, vec![0x02, 10, 3]);
}

#[test]
fn mac_cid_from_u8() {
    assert_eq!(MacCid::from_u8(0x02), MacCid::LinkCheckReq);
    assert_eq!(MacCid::from_u8(0x03), MacCid::LinkAdrReq);
    assert_eq!(MacCid::from_u8(0xFF), MacCid::Unknown);
}

#[test]
fn fcnt_replay_across_64k_boundary_is_duplicate() {
    // 0x0000_FFF0 lies 21 below the session counter 0x0001_0005.
    assert_eq!(LoRaWAN10xClassA::extend_fcnt(0xFFF0, 0x0001_0005), Err(FcntError::Duplicate));
}

#[test]
fn fcnt_far_below_zero_is_gap() {
    // 0xFFF0 would name a counter below zero for session 5: never a duplicate.
    assert_eq!(LoRaWAN10xClassA::extend_fcnt(0xFFF0, 0x0000_0005), Err(FcntError::GapExceeded));
}

#[test]
fn link_check_req_with_other_commands() {
    // LinkCheckReq followed by other commands.
    let f_opts = vec![0x02, 0x03, 0x05, 0x04];
    let parsed = ParsedMacCommands::from_fopts(&f_opts);
    assert!(parsed.link_check_req);
}

#[test]
fn fopts_payload_byte_is_not_a_command() {
    // LinkADRAns (0x03) with its one status byte 0x02: no LinkCheckReq at a boundary.
    let f_opts = vec![0x03, 0x02];
    let parsed = ParsedMacCommands::from_fopts(&f_opts);
    assert!(!parsed.link_check_req);
    assert_eq!(parsed.raw_commands, vec![0x03, 0x02]);
}

#[test]
fn fopts_link_check_req_after_payloads() {
    // DevStatusAns (2 payload bytes), LinkADRAns (1 byte), then LinkCheckReq.
    let parsed = ParsedMacCommands::from_fopts(&[0x06, 0x02, 0x02, 0x03, 0x07, 0x02]);
    assert!(parsed.link_check_req);
    // DevStatusAns whose payload bytes are 0x02: no LinkCheckReq.
    let parsed = ParsedMacCommands::from_fopts(&[0x06, 0x02, 0x02]);
    assert!(!parsed.link_check_req);
}

#[test]
fn fopts_unknown_command_stops_the_walk() {
    let parsed = ParsedMacCommands::from_fopts(&[0x80, 0x02]);
    assert!(!parsed.link_check_req);
}
