//! The error taxonomy: a driver-reported result code, or a textual cause of
//! the library's own.

use vstd::prelude::*;
use vstd::string::StringExecFns;

verus! {

/// A result code as the driver reports it: `SUCCESS` is zero, the other
/// codes are the driver's 32-bit values (the error codes are negative as
/// signed numbers and wrap accordingly).
pub const SUCCESS: u32 = 0;

pub const NOT_READY: u32 = 1;
pub const TIMEOUT: u32 = 2;
pub const EVENT_SET: u32 = 3;
pub const EVENT_RESET: u32 = 4;
pub const INCOMPLETE: u32 = 5;
pub const ERROR_OUT_OF_HOST_MEMORY: u32 = 4294967295;
pub const ERROR_OUT_OF_DEVICE_MEMORY: u32 = 4294967294;
pub const ERROR_INITIALIZATION_FAILED: u32 = 4294967293;
pub const ERROR_DEVICE_LOST: u32 = 4294967292;
pub const ERROR_MEMORY_MAP_FAILED: u32 = 4294967291;
pub const ERROR_LAYER_NOT_PRESENT: u32 = 4294967290;
pub const ERROR_EXTENSION_NOT_PRESENT: u32 = 4294967289;
pub const ERROR_FEATURE_NOT_PRESENT: u32 = 4294967288;
pub const ERROR_INCOMPATIBLE_DRIVER: u32 = 4294967287;
pub const ERROR_TOO_MANY_OBJECTS: u32 = 4294967286;
pub const ERROR_FORMAT_NOT_SUPPORTED: u32 = 4294967285;
pub const ERROR_SURFACE_LOST_KHR: u32 = 3294967296;
pub const ERROR_NATIVE_WINDOW_IN_USE_KHR: u32 = 3294967295;
pub const SUBOPTIMAL_KHR: u32 = 1000001003;
pub const ERROR_OUT_OF_DATE_KHR: u32 = 3294966292;
pub const ERROR_INCOMPATIBLE_DISPLAY_KHR: u32 = 3294964295;
pub const ERROR_VALIDATION_FAILED_EXT: u32 = 3294956295;
pub const ERROR_INVALID_SHADER_NV: u32 = 3294955296;
pub const ERROR_OUT_OF_POOL_MEMORY_KHR: u32 = 3294898296;
pub const ERROR_FULL_SCREEN_EXCLUSIVE_MODE_LOST_EXT: u32 = 3294712296;

#[derive(Debug)]
pub enum Error {
    VulkanError(u32),
    Other(String),
}

/// The error the windowed front end reports to its caller.
#[derive(Debug)]
pub enum GameError {
    VulkanError(String),
}

/// An error code is kept only when it is not `SUCCESS`.
pub fn maybe_vulkan_error(error_code: u32) -> (r: Result<(), Error>)
    ensures
        error_code == SUCCESS <==> r is Ok,
        error_code != SUCCESS ==> r == Result::<(), Error>::Err(Error::VulkanError(error_code)),
{
    if error_code != SUCCESS {
        Err(Error::VulkanError(error_code))
    } else {
        Ok(())
    }
}

pub fn to_other(err: String) -> (r: Error)
    ensures
        r == Error::Other(err),
{
    Error::Other(err)
}

pub fn to_vulkan(error_result: u32) -> (r: Error)
    ensures
        r == Error::VulkanError(error_result),
{
    Error::VulkanError(error_result)
}

/// The name of a driver result code.
pub open spec fn spec_vulkan_error_name(code: u32) -> Seq<char> {
    if code == NOT_READY {
        "NOT_READY"@
    } else if code == TIMEOUT {
        "TIMEOUT"@
    } else if code == EVENT_SET {
        "EVENT_SET"@
    } else if code == EVENT_RESET {
        "EVENT_RESET"@
    } else if code == INCOMPLETE {
        "INCOMPLETE"@
    } else if code == ERROR_OUT_OF_HOST_MEMORY {
        "ERROR_OUT_OF_HOST_MEMORY"@
    } else if code == ERROR_OUT_OF_DEVICE_MEMORY {
        "ERROR_OUT_OF_DEVICE_MEMORY"@
    } else if code == ERROR_INITIALIZATION_FAILED {
        "ERROR_INITIALIZATION_FAILED"@
    } else if code == ERROR_DEVICE_LOST {
        "ERROR_DEVICE_LOST"@
    } else if code == ERROR_MEMORY_MAP_FAILED {
        "ERROR_MEMORY_MAP_FAILED"@
    } else if code == ERROR_LAYER_NOT_PRESENT {
        "ERROR_LAYER_NOT_PRESENT"@
    } else if code == ERROR_EXTENSION_NOT_PRESENT {
        "ERROR_EXTENSION_NOT_PRESENT"@
    } else if code == ERROR_FEATURE_NOT_PRESENT {
        "ERROR_FEATURE_NOT_PRESENT"@
    } else if code == ERROR_INCOMPATIBLE_DRIVER {
        "ERROR_INCOMPATIBLE_DRIVER"@
    } else if code == ERROR_TOO_MANY_OBJECTS {
        "ERROR_TOO_MANY_OBJECTS"@
    } else if code == ERROR_FORMAT_NOT_SUPPORTED {
        "ERROR_FORMAT_NOT_SUPPORTED"@
    } else if code == ERROR_SURFACE_LOST_KHR {
        "ERROR_SURFACE_LOST_KHR"@
    } else if code == ERROR_NATIVE_WINDOW_IN_USE_KHR {
        "ERROR_NATIVE_WINDOW_IN_USE_KHR"@
    } else if code == SUBOPTIMAL_KHR {
        "SUBOPTIMAL_KHR"@
    } else if code == ERROR_OUT_OF_DATE_KHR {
        "ERROR_OUT_OF_DATE_KHR"@
    } else if code == ERROR_INCOMPATIBLE_DISPLAY_KHR {
        "ERROR_INCOMPATIBLE_DISPLAY_KHR"@
    } else if code == ERROR_VALIDATION_FAILED_EXT {
        "ERROR_VALIDATION_FAILED_EXT"@
    } else if code == ERROR_INVALID_SHADER_NV {
        "ERROR_INVALID_SHADER_NV"@
    } else if code == ERROR_OUT_OF_POOL_MEMORY_KHR {
        "ERROR_OUT_OF_POOL_MEMORY_KHR"@
    } else if code == ERROR_FULL_SCREEN_EXCLUSIVE_MODE_LOST_EXT {
        "ERROR_FULL_SCREEN_EXCLUSIVE_MODE_LOST_EXT"@
    } else {
        "unknown vulkan error"@
    }
}

/// Names a driver result code.
pub fn vulkan_error_name(code: u32) -> (name: &'static str)
    ensures
        name@ == spec_vulkan_error_name(code),
{
    if code == NOT_READY {
        "NOT_READY"
    } else if code == TIMEOUT {
        "TIMEOUT"
    } else if code == EVENT_SET {
        "EVENT_SET"
    } else if code == EVENT_RESET {
        "EVENT_RESET"
    } else if code == INCOMPLETE {
        "INCOMPLETE"
    } else if code == ERROR_OUT_OF_HOST_MEMORY {
        "ERROR_OUT_OF_HOST_MEMORY"
    } else if code == ERROR_OUT_OF_DEVICE_MEMORY {
        "ERROR_OUT_OF_DEVICE_MEMORY"
    } else if code == ERROR_INITIALIZATION_FAILED {
        "ERROR_INITIALIZATION_FAILED"
    } else if code == ERROR_DEVICE_LOST {
        "ERROR_DEVICE_LOST"
    } else if code == ERROR_MEMORY_MAP_FAILED {
        "ERROR_MEMORY_MAP_FAILED"
    } else if code == ERROR_LAYER_NOT_PRESENT {
        "ERROR_LAYER_NOT_PRESENT"
    } else if code == ERROR_EXTENSION_NOT_PRESENT {
        "ERROR_EXTENSION_NOT_PRESENT"
    } else if code == ERROR_FEATURE_NOT_PRESENT {
        "ERROR_FEATURE_NOT_PRESENT"
    } else if code == ERROR_INCOMPATIBLE_DRIVER {
        "ERROR_INCOMPATIBLE_DRIVER"
    } else if code == ERROR_TOO_MANY_OBJECTS {
        "ERROR_TOO_MANY_OBJECTS"
    } else if code == ERROR_FORMAT_NOT_SUPPORTED {
        "ERROR_FORMAT_NOT_SUPPORTED"
    } else if code == ERROR_SURFACE_LOST_KHR {
        "ERROR_SURFACE_LOST_KHR"
    } else if code == ERROR_NATIVE_WINDOW_IN_USE_KHR {
        "ERROR_NATIVE_WINDOW_IN_USE_KHR"
    } else if code == SUBOPTIMAL_KHR {
        "SUBOPTIMAL_KHR"
    } else if code == ERROR_OUT_OF_DATE_KHR {
        "ERROR_OUT_OF_DATE_KHR"
    } else if code == ERROR_INCOMPATIBLE_DISPLAY_KHR {
        "ERROR_INCOMPATIBLE_DISPLAY_KHR"
    } else if code == ERROR_VALIDATION_FAILED_EXT {
        "ERROR_VALIDATION_FAILED_EXT"
    } else if code == ERROR_INVALID_SHADER_NV {
        "ERROR_INVALID_SHADER_NV"
    } else if code == ERROR_OUT_OF_POOL_MEMORY_KHR {
        "ERROR_OUT_OF_POOL_MEMORY_KHR"
    } else if code == ERROR_FULL_SCREEN_EXCLUSIVE_MODE_LOST_EXT {
        "ERROR_FULL_SCREEN_EXCLUSIVE_MODE_LOST_EXT"
    } else {
        "unknown vulkan error"
    }
}

impl Error {
    /// The error rendered as text, as a maintainer would read it in a log.
    pub fn describe(&self) -> (s: String)
        ensures
            self matches Error::VulkanError(code) ==> s@ == "Vulkan error: "@
                + spec_vulkan_error_name(*code),
            self matches Error::Other(text) ==> s@ == "Other error: "@ + text@,
    {
        match self {
            Error::VulkanError(code) => {
                String::from_str("Vulkan error: ").concat(vulkan_error_name(*code))
            },
            Error::Other(text) => { String::from_str("Other error: ").concat(text.as_str()) },
        }
    }
}

} // verus!
