//! Queries AMD GPU identity and runtime telemetry through the kernel
//! DRM/amdgpu interface.
//!
//! Discovery walks the PCI bus entries bound to the amdgpu driver, picks the
//! first device, resolves its render node, and builds an [`adapter::AmdGpu`]
//! from a driver session opened on that node. The adapter exposes immutable
//! identity fields and an optional telemetry view that shares the same
//! session; telemetry reads degrade to zero instead of failing.

pub mod adapter;
pub mod discovery;
pub mod errors;
pub mod model;

mod drv;
