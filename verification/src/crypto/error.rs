use vstd::prelude::*;

verus! {

/// Errors of the LoRaWAN cryptography layer.
#[allow(inconsistent_fields)]
#[derive(Debug, Clone)]
pub enum CryptoError {
    InvalidKeyLength { expected: usize, got: usize },
    InvalidIvLength { expected: usize, got: usize },
    InvalidMicSize { expected: usize, got: usize },
    InvalidPayloadSize { min: usize, got: usize },
    InvalidFrameHeader { got: usize },
    CmacComputation { context: String },
    AesOperation { context: String },
    MicMismatch { expected: [u8; 4], computed: [u8; 4] },
    InvalidDevAddr { value: u32 },
    ReservedFPort { value: u8 },
    FrameCounterTooOld { fcnt: u32, min_fcnt: u32 },
    ZeroIncrement,
    BufferOverflow { requested: usize, available: usize },
    InternalError(&'static str),
}

/// Result of the cryptography layer.
pub type CryptoResult<T> = core::result::Result<T, CryptoError>;

impl CryptoError {
    pub fn invalid_key_length(expected: usize, got: usize) -> (e: Self)
        ensures
            e == (CryptoError::InvalidKeyLength { expected, got }),
    {
        Self::InvalidKeyLength { expected, got }
    }

    pub fn invalid_iv_length(expected: usize, got: usize) -> (e: Self)
        ensures
            e == (CryptoError::InvalidIvLength { expected, got }),
    {
        Self::InvalidIvLength { expected, got }
    }

    pub fn mic_mismatch(expected: [u8; 4], computed: [u8; 4]) -> (e: Self)
        ensures
            e == (CryptoError::MicMismatch { expected, computed }),
    {
        Self::MicMismatch { expected, computed }
    }

    pub fn cmac_failure(context: &str) -> (e: Self)
        ensures
            e matches CryptoError::CmacComputation { context: c } && c@ == context@,
    {
        Self::CmacComputation { context: String::from_str(context) }
    }

    pub fn aes_failure(context: &str) -> (e: Self)
        ensures
            e matches CryptoError::AesOperation { context: c } && c@ == context@,
    {
        Self::AesOperation { context: String::from_str(context) }
    }
}

} // verus!
