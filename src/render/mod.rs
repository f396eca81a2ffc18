//! The rendering capability interface and the values it deals in.
pub mod constants;
pub mod data;
pub mod api;
pub mod recorder;
pub mod builder;
