//! Verified core of a set of build and test utilities that start Docker containers and
//! service binaries and wait until they are ready.

pub mod docker;
pub mod service;
pub mod text;
pub mod wait;
