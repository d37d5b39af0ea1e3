//! A checked gateway between an untrusted host and a small set of file
//! operations: host strings are decoded before use, paths are screened for
//! traversal, requests are dispatched to a file store, and buffers handed
//! back to the host follow an explicit issue/release protocol.
pub mod boundary;
pub mod buffers;
pub mod dispatch;
pub mod marshal;
pub mod path;
