use maverick::domain::region::RegionId;
use maverick::use_cases::ingest_uplink::{build_b0_uplink, compute_mic, decrypt_frm_payload};
use maverick::use_cases::process_uplink_frame::{parse_lorawan_frame, ParsedLorawanFrame};

#[test]
fn parses_join_request_frame() {
    let mut payload = vec![0x00];
    payload.extend_from_slice(&[1, 2, 3, 4, 5, 6, 7, 8]);
    payload.extend_from_slice(&[8, 7, 6, 5, 4, 3, 2, 1]);
    payload.extend_from_slice(&0xCAFEu16.to_le_bytes());
    payload.extend_from_slice(&[0xAA, 0xBB, 0xCC, 0xDD]);

    let parsed = parse_lorawan_frame(&payload).expect("join frame must parse");

    match parsed {
        ParsedLorawanFrame::JoinRequest { app_eui, dev_eui, dev_nonce, mic } => {
            assert_eq!(app_eui.as_bytes(), [1, 2, 3, 4, 5, 6, 7, 8]);
            assert_eq!(dev_eui.as_bytes(), [8, 7, 6, 5, 4, 3, 2, 1]);
            assert_eq!(dev_nonce, 0xCAFE);
            assert_eq!(mic, [0xAA, 0xBB, 0xCC, 0xDD]);
        }
        _ => panic!("expected join request"),
    }
}

#[test]
fn parses_unconfirmed_data_uplink() {
    let mut payload = vec![0x40];
    payload.extend_from_slice(&0x26011BDAu32.to_le_bytes());
    payload.push(0x00);
    payload.extend_from_slice(&0x0012u16.to_le_bytes());
    payload.push(0x01);
    payload.extend_from_slice(&[0x10, 0x20, 0x30]);
    payload.extend_from_slice(&[0xDE, 0xAD, 0xBE, 0xEF]);

    let parsed = parse_lorawan_frame(&payload).expect("data uplink must parse");

    match parsed {
        ParsedLorawanFrame::DataUplink {
            confirmed,
            dev_addr,
            frame_counter,
            fport,
            frm_payload,
            mic,
            ..
        } => {
            assert!(!confirmed);
            assert_eq!(dev_addr, 0x26011BDA);
            assert_eq!(frame_counter, 0x0012);
            assert_eq!(fport, Some(1));
            assert_eq!(frm_payload, vec![0x10, 0x20, 0x30]);
            assert_eq!(mic, [0xDE, 0xAD, 0xBE, 0xEF]);
        }
        _ => panic!("expected data uplink"),
    }
}

#[test]
fn rejects_short_payload() {
    let error = parse_lorawan_frame(&[0x40, 0x01, 0x02]).expect_err("must reject short payload");
    assert!(error.to_string().contains("frame too short"));
}

#[test]
fn mic_spec_vector_zero_keys() {
    let nwk_s_key = [0x00u8; 16];
    let dev_addr = 0x01_02_03_04u32;
    let f_cnt = 0x0000_0001u32;
    let phy_without_mic = vec![
        0x40, 0x04, 0x03, 0x02, 0x01, 0x00, 0x01, 0x00, 0x00, 0x01, 0x02, 0x03, 0x04, 0x05, 0x06,
        0x07, 0x08, 0x09,
    ];
    let b0 = build_b0_uplink(dev_addr, f_cnt, phy_without_mic.len());
    let mic = compute_mic(&nwk_s_key, &b0, &phy_without_mic);
    let expected = [0x4C, 0x1D, 0x9E, 0x4A];
    assert_eq!(mic, expected, "MIC must match LoRaWAN spec Chapter 7 test vector with zero NwkSKey");
}

#[test]
fn mic_spec_vector_nonzero_keys() {
    let nwk_s_key = [
        0x1A, 0x2B, 0x3C, 0x4D, 0x5E, 0x6F, 0x70, 0x81, 0x92, 0xA3, 0xB4, 0xC5, 0xD6, 0xE7, 0xF8,
        0x09,
    ];
    let dev_addr = 0x01_02_03_04u32;
    let f_cnt = 0x0000_0001u32;
    let phy_without_mic = vec![0x40, 0x04, 0x03, 0x02, 0x01, 0x00, 0x01, 0x00, 0x00];
    let b0 = build_b0_uplink(dev_addr, f_cnt, phy_without_mic.len());
    let mic = compute_mic(&nwk_s_key, &b0, &phy_without_mic);
    let expected = [0xAC, 0xF3, 0x10, 0x93];
    assert_eq!(mic, expected, "MIC must match LoRaWAN spec Chapter 7 test vector with non-zero NwkSKey");
}

#[test]
fn mic_dev_addr_byte_order() {
    let nwk_s_key = [0x00u8; 16];
    let dev_addr = 0x01_02_03_04u32;
    let f_cnt = 0x0000_0001u32;
    let phy_without_mic = vec![0x40, 0x04, 0x03, 0x02, 0x01];

    let b0 = build_b0_uplink(dev_addr, f_cnt, phy_without_mic.len());
    let mic = compute_mic(&nwk_s_key, &b0, &phy_without_mic);

    assert_eq!(b0[6..10], [0x04, 0x03, 0x02, 0x01], "B0 DevAddr bytes must be LITTLE-ENDIAN per LoRaWAN 4.4");
    assert_ne!(mic, [0x00, 0x00, 0x00, 0x00], "MIC must be non-zero");
}

#[test]
fn mic_fcnt_byte_order() {
    let nwk_s_key = [0x00u8; 16];
    let dev_addr = 0x01_02_03_04u32;
    let f_cnt = 0x0000_0001u32;
    let phy_without_mic = vec![0x40];

    let b0 = build_b0_uplink(dev_addr, f_cnt, phy_without_mic.len());
    let mic = compute_mic(&nwk_s_key, &b0, &phy_without_mic);

    assert_eq!(b0[10..14], [0x01, 0x00, 0x00, 0x00], "B0 FCnt bytes must be LITTLE-ENDIAN per LoRaWAN 4.4");
    assert_ne!(mic, [0x00, 0x00, 0x00, 0x00], "MIC must be non-zero");
}

#[test]
fn mic_same_phy_different_key() {
    let dev_addr = 0x01_02_03_04u32;
    let f_cnt = 0x0000_0001u32;
    let phy_without_mic = vec![0x40, 0x04, 0x03, 0x02, 0x01];

    let nwk_s_key_a = [0x00u8; 16];
    let nwk_s_key_b = [0xFFu8; 16];

    let b0_a = build_b0_uplink(dev_addr, f_cnt, phy_without_mic.len());
    let mic_a = compute_mic(&nwk_s_key_a, &b0_a, &phy_without_mic);

    let b0_b = build_b0_uplink(dev_addr, f_cnt, phy_without_mic.len());
    let mic_b = compute_mic(&nwk_s_key_b, &b0_b, &phy_without_mic);

    assert_ne!(mic_a, mic_b, "Same PHY with different NwkSKey must produce different MIC");
}

#[test]
fn mic_different_phy_same_key() {
    let nwk_s_key = [0x00u8; 16];
    let dev_addr = 0x01_02_03_04u32;
    let f_cnt = 0x0000_0001u32;

    let phy_a = vec![0x40, 0x04, 0x03, 0x02, 0x01];
    let phy_b = vec![0x40, 0x04, 0x03, 0x02, 0x02];

    let b0_a = build_b0_uplink(dev_addr, f_cnt, phy_a.len());
    let mic_a = compute_mic(&nwk_s_key, &b0_a, &phy_a);

    let b0_b = build_b0_uplink(dev_addr, f_cnt, phy_b.len());
    let mic_b = compute_mic(&nwk_s_key, &b0_b, &phy_b);

    assert_ne!(mic_a, mic_b, "Different PHY payloads with same key must produce different MIC");
}

#[test]
fn decrypt_spec_vector_ctr_mode() {
    let app_s_key = [
        0x00, 0x01, 0x02, 0x03, 0x04, 0x05, 0x06, 0x07, 0x08, 0x09, 0x0A, 0x0B, 0x0C, 0x0D, 0x0E,
        0x0F,
    ];
    let dev_addr = 0x01_02_03_04u32;
    let f_cnt = 0x0000_0001u32;
    let ciphertext = vec![
        0x2B, 0x28, 0x19, 0x4F, 0xF0, 0x5E, 0x23, 0x3B, 0xCF, 0x44, 0x04, 0x4A, 0x06, 0x31, 0xB8,
        0x09,
    ];
    let expected_plaintext = vec![
        0xC9, 0x50, 0xDC, 0x4B, 0x81, 0xFD, 0x98, 0xF4, 0x2A, 0x5C, 0x28, 0x29, 0xEA, 0xFB, 0xB0,
        0xF8,
    ];
    let result = decrypt_frm_payload(&app_s_key, dev_addr, f_cnt, &ciphertext);
    assert_eq!(result, expected_plaintext, "FRMPayload decryption must match spec Chapter 7 vector");
}

#[test]
fn decrypt_empty_payload() {
    let app_s_key = [0x0Fu8; 16];
    let ciphertext: Vec<u8> = vec![];
    let result = decrypt_frm_payload(&app_s_key, 0x01_02_03_04, 1, &ciphertext);
    assert_eq!(result, Vec::<u8>::new(), "Empty payload must return empty vec");
}

#[test]
fn decrypt_single_block() {
    let app_s_key = [0x0Fu8; 16];
    let ciphertext = vec![0xAA, 0xBB, 0xCC, 0xDD, 0xEE, 0xFF, 0x11, 0x22, 0x33, 0x44];
    let result = decrypt_frm_payload(&app_s_key, 0x01_02_03_04, 1, &ciphertext);
    assert_eq!(result.len(), 10, "Decrypted payload must have same length as ciphertext");
    assert_ne!(result.as_slice(), ciphertext.as_slice(), "Decryption must change ciphertext");
}

#[test]
fn decrypt_multi_block() {
    let app_s_key = [0x0Fu8; 16];
    let ciphertext = vec![
        0xAA, 0xBB, 0xCC, 0xDD, 0xEE, 0xFF, 0x11, 0x22, 0x33, 0x44, 0x55, 0x66, 0x77, 0x88, 0x99,
        0xAA, 0xBB, 0xCC, 0xDD, 0xEE,
    ];
    let result = decrypt_frm_payload(&app_s_key, 0x01_02_03_04, 1, &ciphertext);
    assert_eq!(result.len(), 20, "Decrypted payload must have same length as ciphertext");
    assert_ne!(result.as_slice(), ciphertext.as_slice(), "Decryption must change ciphertext");
}

#[test]
fn decrypt_ctr_counter_starts_at_1() {
    let app_s_key = [0x0Fu8; 16];
    let ciphertext = vec![0x00; 16];
    let result = decrypt_frm_payload(&app_s_key, 0x01_02_03_04, 1, &ciphertext);
    assert_ne!(
        result.as_slice(),
        ciphertext.as_slice(),
        "Decryption with counter starting at 1 must differ from identity"
    );
}

#[test]
fn decrypt_key_matters() {
    let ciphertext = vec![0xAA, 0xBB, 0xCC, 0xDD, 0xEE, 0xFF];
    let result_a = decrypt_frm_payload(&[0x0Fu8; 16], 0x01_02_03_04, 1, &ciphertext);
    let result_b = decrypt_frm_payload(&[0xF0u8; 16], 0x01_02_03_04, 1, &ciphertext);
    assert_ne!(result_a, result_b, "Same ciphertext with different AppSKey must produce different plaintext");
}

#[test]
fn decrypt_dev_addr_in_aes_block() {
    let app_s_key = [0x0Fu8; 16];
    let ciphertext = vec![0xAA, 0xBB, 0xCC];
    let result_a = decrypt_frm_payload(&app_s_key, 0x01_02_03_04, 1, &ciphertext);
    let result_b = decrypt_frm_payload(&app_s_key, 0x04_03_02_01, 1, &ciphertext);
    assert_ne!(result_a, result_b, "Different DevAddr must produce different keystream");
}

#[test]
fn region_parse_roundtrip() {
    let r: RegionId = "EU868".parse().expect("parse");
    assert_eq!(r.to_string(), "EU868");
}
