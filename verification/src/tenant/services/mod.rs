//! Services: the service form, its values, select lists and print view.

pub mod dto;
pub mod model;
pub mod module;
pub mod print;
pub mod service;
pub mod types;
