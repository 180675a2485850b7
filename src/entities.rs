//! Records of the coordination tier's store.
pub mod slave;
pub mod user;
