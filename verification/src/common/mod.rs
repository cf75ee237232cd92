//! Building blocks shared by every module of the tenant back end.

pub mod bindings;
pub mod ordered_map;
pub mod paging;
pub mod service;
pub mod text;
pub mod time;
pub mod types;
pub mod value_object;
