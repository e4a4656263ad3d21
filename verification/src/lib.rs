//! The platform-independent part of the Syphon bindings: pixel-format
//! codes, error reporting, the names Syphon registers in the Objective-C
//! runtime, server discovery and selection, the client's connection protocol
//! as a state machine, Metal device selection, the IOSurface pool, the state
//! of the wgpu receivers, and the planning of wgpu frame transfers
//! (publishing, read-back, and the BGRA to RGBA conversion shader with its
//! sizes and uniforms). The caller makes the Objective-C, Metal and wgpu
//! calls: it performs the actions these functions decide on and reports
//! back what happened.

use vstd::prelude::*;

pub mod client;
pub mod directory;
pub mod error;
pub mod input_fast;
pub mod metal_device;
pub mod runtime;
pub mod server;
pub mod surface_pool;
pub mod utils;
pub mod wgpu_input;
pub mod wgpu_output;

pub use client::{ConnectAction, ConnectEvent, ConnectMachine, ServerQuery};
pub use directory::{ServerInfo, SyphonServerDirectory};
pub use error::SyphonError;
pub use metal_device::{recommended_high_performance_device, MetalDeviceInfo};
pub use surface_pool::{BlitHelper, IOSurfacePool, MetalInterop};
pub use utils::fourcc;
pub use wgpu_input::{SyphonWgpuInput, SyphonWgpuInputOptimized};

verus! {

/// Check if Syphon is available on this system.
///
/// Syphon is available exactly when the Objective-C runtime knows the class
/// `SyphonServer` ([`runtime::SERVER_CLASS`]). `class_found` is the answer of that class lookup (always
/// `false` off macOS, where the runtime does not exist).
pub fn is_available(class_found: bool) -> (available: bool)
    ensures
        available == class_found,
{
    class_found
}

} // verus!
