//! Verified core of the VeriTix payment contract: admin rotation, pausing,
//! account freezes, whitelisting and escrow disputes, modelled over plain
//! values so that every rule is checked by Verus.
pub mod admin;
pub mod dispute;
pub mod dispute_limit;
pub mod error;
pub mod freeze;
pub mod pause;
pub mod signed;
pub mod types;
pub mod whitelist;
pub mod validation;
