//! Customers: the customer form, its values, and the customer print view.

pub mod dto;
pub mod model;
pub mod print;
pub mod repository;
pub mod service;
pub mod types;
