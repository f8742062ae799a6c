//! Verified core of a small UEFI-compatible firmware: the status codes and
//! identifiers of the service interface, the protocol registry, the file
//! protocol bridge, the image loader, and the decisions of the entries of
//! the service tables.
//!
//! The library holds no hardware access and calls no other part of the
//! firmware. Where a call needs the page allocator, the filesystem, the
//! disk or the loader of executables, the library hands out a state that
//! names the request, and takes the answer in a step function.

pub mod block;
pub mod boot_services;
pub mod bytes;
pub mod calloc;
pub mod conout;
pub mod device_path;
pub mod encoder;
pub mod file;
pub mod file_info;
pub mod file_laws;
pub mod guid;
pub mod handle_database;
pub mod handle_database_laws;
pub mod image;
pub mod init;
pub mod logger;
pub mod os_str;
pub mod service_table;
pub mod status;
