//! Stock movements: the movement form, its values, select lists, errors and
//! print view.

pub mod dto;
pub mod model;
pub mod print;
pub mod service;
pub mod types;
