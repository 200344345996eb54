//! The POSIX surface of a C library on a kernel whose interface is a small set
//! of calls on descriptors and scheme-prefixed paths.

pub mod abi;
pub mod errno;
pub mod file;
pub mod native;
pub mod process;
pub mod socket;
pub mod text;
pub mod time;
