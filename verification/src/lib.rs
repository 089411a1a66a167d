//! Core of an on-chain NFT marketplace program: account schemas, derived-address
//! authorization, the listing and custody state machines, and the atomic
//! payment-splitting engine, with machine-checked contracts.

pub mod abort;
pub mod accounts;
pub mod error;
pub mod event;
pub mod ids;
pub mod instructions;
pub mod keys;
pub mod lifecycle;
pub mod pda;
pub mod spl;
pub mod state;
pub mod util;
pub mod virt;
