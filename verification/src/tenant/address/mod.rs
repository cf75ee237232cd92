//! Addresses: the address form that customers carry for billing and mail,
//! and the values of its fields.

pub mod dto;
pub mod types;
