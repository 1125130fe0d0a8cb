//! A single on-chain price, written by a privileged caller or by unsigned
//! submissions that an offchain worker computes from the block height.

pub mod convert;
pub mod oracle;
pub mod validity;
pub mod worker;
