//! The first start.
pub mod window;
