//! Result and error taxonomies shared by every call into the service.

pub mod error;
pub mod result;
