use maverick::crypto::aes_ctr::{constant_time_compare, AesCtr, Cmac};
use maverick::crypto::lorawan::{JoinCrypto, PayloadDecryptor};
use maverick::domain::types::Eui64;
use maverick::text::{parse_u32, parse_u64, parse_usize, str_eq};
use maverick::use_cases::ingest_uplink::decrypt_frm_payload;

#[test]
fn unsigned_parsing_follows_str_parse() {
    assert_eq!(parse_u64("0"), Some(0));
    assert_eq!(parse_u64("+15"), Some(15));
    assert_eq!(parse_u64("18446744073709551615"), Some(u64::MAX));
    assert_eq!(parse_u64("18446744073709551616"), None);
    assert_eq!(parse_u64(""), None);
    assert_eq!(parse_u64("+"), None);
    assert_eq!(parse_u64("-1"), None);
    assert_eq!(parse_u64(" 1"), None);
    assert_eq!(parse_u32("4294967295"), Some(u32::MAX));
    assert_eq!(parse_u32("4294967296"), None);
    assert_eq!(parse_usize("7"), Some(7));
    for s in ["0", "+9", "123456", "99999999999999999999", "1a", ""] {
        assert_eq!(parse_u64(s), s.parse::<u64>().ok(), "{s}");
    }
    assert!(str_eq("abc", "abc"));
    assert!(!str_eq("abc", "abd"));
}

#[test]
fn eui_display_is_colon_separated_upper_hex() {
    let e = Eui64::new([0xAA, 0xBB, 0xCC, 0xDD, 0xEE, 0xFF, 0x00, 0x11]);
    assert_eq!(e.to_string(), "AA:BB:CC:DD:EE:FF:00:11");
    assert!(e.equals(&Eui64::from([0xAA, 0xBB, 0xCC, 0xDD, 0xEE, 0xFF, 0x00, 0x11])));
    assert!(!e.equals(&Eui64::new([0; 8])));
}

#[test]
fn ctr_is_its_own_inverse_and_not_identity() {
    let ctr = AesCtr::new(&[7u8; 16]).unwrap();
    let iv = [0u8; 16];
    let plain = b"hello lorawan world".to_vec();
    let cipher = ctr.process_slice(&iv, &plain).unwrap();
    assert_ne!(cipher, plain);
    assert_eq!(ctr.decrypt_slice(&iv, &cipher).unwrap(), plain);
    assert!(AesCtr::new(&[0u8; 16]).unwrap().process_slice(&[0u8; 15], &plain).is_err());
}

#[test]
fn frm_decryption_round_trips() {
    let key = [0x0Fu8; 16];
    let data = vec![1, 2, 3, 4, 5, 6, 7, 8, 9, 10, 11, 12, 13, 14, 15, 16, 17, 18];
    let enc = decrypt_frm_payload(&key, 0x01020304, 7, &data);
    assert_ne!(enc, data);
    assert_eq!(decrypt_frm_payload(&key, 0x01020304, 7, &enc), data);
    let dec = PayloadDecryptor::decrypt(&key, 0x01020304, 7, 1, &data).unwrap();
    assert_eq!(dec.len(), data.len());
    assert_ne!(dec, data);
}

#[test]
fn cmac_verify_accepts_its_own_tag() {
    let c = Cmac::new(&[3u8; 16]).unwrap();
    let tag = c.compute(b"abc").unwrap();
    assert_ne!(tag, [0u8; 16]);
    assert!(c.verify(b"abc", &tag[..4]).unwrap());
    assert!(!c.verify(b"abd", &tag[..4]).unwrap());
    assert!(constant_time_compare(&[1, 2, 3, 4], &[1, 2, 3, 4]));
    assert!(!constant_time_compare(&[1, 2, 3, 4], &[1, 2, 3]));
}

#[test]
fn session_keys_differ_from_each_other() {
    let (nwk, app) = JoinCrypto::derive_session_keys(&[1u8; 16], [1, 2, 3], [0, 0, 0], 0x1234).unwrap();
    assert_ne!(nwk, app);
    assert_ne!(nwk, [0u8; 16]);
}

#[test]
fn decimal_defaults_parse_back() {
    for n in [0u64, 7, 10, 1000, u64::MAX] {
        assert_eq!(parse_u64(&n.to_string()), Some(n));
    }
}
