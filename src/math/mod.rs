//! Small linear algebra over integer scalars.
pub mod matrices;
