//! Errors of mapping a block, and how the device's own errors become them.
use vstd::prelude::*;
use gpu_alloc_types::{DeviceMapError, OutOfMemory};

verus! {

/// The device's error for a failed map call; its variants carry no data.
#[verifier::external_type_specification]
pub struct ExDeviceMapError(DeviceMapError);

/// The device's error for exhausted memory; its variants carry no data.
#[verifier::external_type_specification]
pub struct ExOutOfMemory(OutOfMemory);

/// Why a block could not be mapped, read or written.
#[derive(PartialEq, Eq, Structural, Clone, Copy, Debug)]
pub enum MapError {
    /// Device memory is exhausted.
    OutOfDeviceMemory,
    /// Host memory is exhausted.
    OutOfHostMemory,
    /// The block's memory cannot be made visible to the host.
    NonHostVisible,
    /// The device failed to map the memory for reasons of its own.
    MapFailed,
    /// The block is mapped already, or a map of it is under way.
    AlreadyMapped,
}

/// The error a failed device map call becomes.
pub open spec fn from_device_map_error(e: DeviceMapError) -> MapError {
    match e {
        DeviceMapError::OutOfDeviceMemory => MapError::OutOfDeviceMemory,
        DeviceMapError::OutOfHostMemory => MapError::OutOfHostMemory,
        DeviceMapError::MapFailed => MapError::MapFailed,
    }
}

/// The error a failed flush or invalidate becomes.
pub open spec fn from_out_of_memory(e: OutOfMemory) -> MapError {
    match e {
        OutOfMemory::OutOfDeviceMemory => MapError::OutOfDeviceMemory,
        OutOfMemory::OutOfHostMemory => MapError::OutOfHostMemory,
    }
}

impl From<DeviceMapError> for MapError {
    fn from(e: DeviceMapError) -> (r: MapError) {
        match e {
            DeviceMapError::OutOfDeviceMemory => MapError::OutOfDeviceMemory,
            DeviceMapError::OutOfHostMemory => MapError::OutOfHostMemory,
            DeviceMapError::MapFailed => MapError::MapFailed,
        }
    }
}

impl vstd::std_specs::convert::FromSpecImpl<DeviceMapError> for MapError {
    open spec fn obeys_from_spec() -> bool {
        true
    }

    open spec fn from_spec(e: DeviceMapError) -> MapError {
        from_device_map_error(e)
    }
}

impl From<OutOfMemory> for MapError {
    fn from(e: OutOfMemory) -> (r: MapError) {
        match e {
            OutOfMemory::OutOfDeviceMemory => MapError::OutOfDeviceMemory,
            OutOfMemory::OutOfHostMemory => MapError::OutOfHostMemory,
        }
    }
}

impl vstd::std_specs::convert::FromSpecImpl<OutOfMemory> for MapError {
    open spec fn obeys_from_spec() -> bool {
        true
    }

    open spec fn from_spec(e: OutOfMemory) -> MapError {
        from_out_of_memory(e)
    }
}

} // verus!
