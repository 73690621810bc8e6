use maverick::crypto::aes_ctr::{AesCtr, Cmac};
use maverick::crypto::lorawan::{pad_to_block_size, LoRawanFrameHeader, PayloadDecryptor};

#[test]
fn test_aes_ctr_new_invalid_key() {
    assert!(AesCtr::new(&[0u8; 15]).is_err());
}

#[test]
fn test_aes_ctr_new_valid_key() {
    assert!(AesCtr::new(&[0u8; 16]).is_ok());
}

#[test]
fn test_cmac_new_invalid_key() {
    assert!(Cmac::new(&[0u8; 15]).is_err());
}

#[test]
fn test_cmac_new_valid_key() {
    assert!(Cmac::new(&[0u8; 16]).is_ok());
}

#[test]
fn test_frame_header_parse() {
    let bytes = [0x01, 0x02, 0x03, 0x04, 0x00, 0x2E, 0x00, 0x00, 0x00];
    let header = LoRawanFrameHeader::parse(&bytes).unwrap();
    assert_eq!(header.dev_addr, 0x04030201);
    assert_eq!(header.fcnt, 0x002E);
}

#[test]
fn test_pad_to_block_size() {
    let data = vec![0x01, 0x02, 0x03];
    let padded = pad_to_block_size(&data);
    assert_eq!(padded.len(), 16);
    assert_eq!(padded[..3], [0x01, 0x02, 0x03]);
    assert_eq!(padded[3], 0x80);
}

#[test]
fn test_payload_decryptor_empty() {
    let key = [0u8; 16];
    let result = PayloadDecryptor::decrypt(&key, 0x04030201, 0, 1, &[]);
    assert!(result.is_ok());
    assert!(result.unwrap().is_empty());
}
