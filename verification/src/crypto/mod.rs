pub mod aes_ctr;
pub mod error;
pub mod lorawan;
pub mod primitives;
