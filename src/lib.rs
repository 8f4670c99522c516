//! Loading a dynamic library at run time: the verified parts.
//!
//! `nul` turns caller data into the NUL-terminated form that the operating
//! system's loader calls expect; `handle` holds the decisions taken on what
//! those calls report.
pub mod handle;
pub mod nul;
