//! Administrative client library for a Substrate-style chain: exact scaling of
//! decimal token amounts into integer base units, construction of the fixed set
//! of privileged and unprivileged transaction payloads, and the state machine
//! that resolves a submitted transaction's status stream to a terminal outcome.

pub mod account;
pub mod amount;
pub mod builder;
pub mod hexbytes;
pub mod lifecycle;
