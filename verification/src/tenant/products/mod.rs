//! Products: the product form, its values, select lists and print view.

pub mod dto;
pub mod model;
pub mod print;
pub mod service;
pub mod types;
