//! Sector storage slots: padding-aware byte accounting, sector configurations,
//! a disk-backed sector manager's decisions and the boundary response protocol.

pub mod codec;
pub mod errors;
pub mod responses;
pub mod storage;
