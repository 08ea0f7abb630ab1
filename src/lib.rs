//! A portable vocabulary over open-resource handles.
//!
//! On the POSIX family every open resource is a file descriptor. On the
//! Windows family, file/pipe/process handles and sockets are distinct. The
//! `*_portability` modules give both families one vocabulary: "filelike" and
//! "socketlike" objects that can be borrowed, consumed and constructed.
mod release;
pub mod unix;
pub mod unix_portability;
pub mod windows;
pub mod windows_portability;

pub use release::ReleaseLog;
