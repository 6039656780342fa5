//! Translation between Ethereum-style accounts, transactions and calls and
//! their Starknet-style counterparts: field elements, invoke transactions and
//! contract storage.

pub mod bytes;
pub mod erc20;
pub mod errors;
pub mod felt;
pub mod hex;
pub mod hive;
pub mod kakarot_core;
pub mod limbs;
pub mod rlp;
pub mod transaction;
