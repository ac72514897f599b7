//! Safe building blocks for Flipper Zero applications: a bounded,
//! first-in-first-out message queue with the kernel's status codes, and the
//! flags, codes and stream traits of the storage API.

pub mod furi;
pub mod storage;
