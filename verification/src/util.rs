//! Shared validation, account-inspection and payment helpers used by the
//! instruction handlers.

pub mod checks;
pub mod error;
pub mod transfer;
