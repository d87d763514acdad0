//! Backend core for a desktop commerce/payment client: credential-vault key
//! lifecycle, payment-gateway response normalization, and commerce API
//! request building, with machine-checked contracts.

pub mod commerce;
pub mod encryption;
pub mod gateway;
pub mod jsonvals;
pub mod strutil;
