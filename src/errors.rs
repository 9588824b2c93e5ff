use vstd::prelude::*;

verus! {

/// No physical device can be used: enumeration failed, or no enumerated
/// device meets the engine's requirements.
#[derive(Debug, Clone, Copy, PartialEq, Eq, Structural)]
pub enum DeviceError {
    NoPhysicalDeviceFound,
}

/// Why the API instance could not be brought up.
#[derive(Debug, PartialEq, Eq)]
pub enum InstanceCreationError {
    /// The graphics library could not be loaded from the configured path.
    EntryInvalidLocation { path: String, msg: String },
    /// The validation layer the engine requires is not installed.
    ValidationCheck,
}

} // verus!
