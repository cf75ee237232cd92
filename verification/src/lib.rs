//! Validation and form-handling logic of a multi-tenant ERP back end:
//! value objects, user-input forms, select lists and print views.

pub mod common;
pub mod tenant;
