//! Verified core of a folder synchroniser between a local directory and a
//! cloud drive sandbox.

pub mod cli;
pub mod json;
pub mod storage;
pub mod sync;
pub mod yandex;
