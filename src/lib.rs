//! Supervision core of a process host: child records, the registry of
//! records, stream relays and the per-instance log recorder; with the plain
//! data and access rules of the coordination tier that manages hosts and
//! users.
pub mod process;
pub mod manager;
pub mod command;
pub mod transfer;
pub mod log;
pub mod boundary;
pub mod entities;
pub mod errors;
pub mod pagination;
pub mod slaves;
pub mod users;
pub mod auth;
pub mod terminal;
