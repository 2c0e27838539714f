//! Bootstrap layer for a GPU-backed rendering context.
//!
//! The library models the startup pipeline of a graphics application:
//! bring up an API instance with diagnostic instrumentation, bind a
//! presentable surface to a window, and select a physical device and
//! queue family able to present to that surface.  Every call into the
//! native graphics runtime happens outside this crate; the runtime's
//! answers are handed in as plain values, and the decisions taken on
//! them — pairing of handles, cleanup on partial failure, teardown
//! ordering, first-match device selection — are verified here.

pub mod diagnostics;
pub mod error;
pub mod instance;
pub mod pipeline;
pub mod selector;
pub mod surface;
pub mod teardown;
