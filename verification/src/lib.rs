//! Verified core of the StarryOS adapter for the Rockchip NPU driver.
//!
//! The library holds the decisions of the adapter: how ioctl requests are
//! routed, how the DRM ioctl records are read from and written to the
//! kernel-side copy of the user argument, how string fields are handed back to
//! user space, how errors travel between the VFS and the NPU service, which
//! device nodes are published, and in which order the NPU power domains come
//! up. The platform glue that performs I/O lives outside the library.

pub mod error;
pub mod ioctl;
pub mod abi;
pub mod records;
pub mod drm;
pub mod card1;
pub mod devfs;
pub mod power;
pub mod irq;
pub mod waiter;
pub mod request;
