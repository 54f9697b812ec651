//! The type byte of Ethereum transaction envelopes, with its conversions
//! to and from `u8`.
pub mod tx_type;

pub use tx_type::TransactionType;
