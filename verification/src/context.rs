//! The device context: the handles chosen once at startup and kept until
//! shutdown. Handles are opaque driver identifiers, carried as plain
//! integers; the shell that talks to the driver owns the function pointers.

use vstd::prelude::*;

verus! {

/// The two queue family indices resolved at startup. Both must exist or
/// initialization fails; they may be equal.
#[derive(Debug, Clone, Copy, PartialEq, Eq, Structural)]
pub struct QueueFamilyIndices {
    pub graphics: u32,
    pub present: u32,
}

/// The queue handles fetched from the device, one per chosen family.
#[derive(Debug, Clone, Copy, PartialEq, Eq, Structural)]
pub struct QueueFamilies {
    pub graphics_queue: u64,
    pub present_queue: u64,
}

/// Everything the device context owns: created once, destroyed last, in
/// strict reverse-creation order. `memory_type_flags` holds the property
/// flags of each memory type the physical device reports, in index order.
pub struct Context {
    pub instance: u64,
    pub debugger: u64,
    pub physical_device: u64,
    pub device: u64,
    pub queue_family_indices: QueueFamilyIndices,
    pub queue_families: QueueFamilies,
    pub surface: u64,
    pub command_pool: u64,
    pub memory_type_flags: Vec<u32>,
}

} // verus!
