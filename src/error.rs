use vstd::prelude::*;

verus! {

/// An error that can occur while orchestrating an update.
#[derive(Clone, Debug)]
#[non_exhaustive]
pub enum Error {
    /// A device is already mounted at a mountpoint.
    AlreadyMounted(String, String),
    /// A device is not yet mounted.
    DeviceNotMounted(String),
    /// A block device is a base device (partition number 0).
    IsBaseDevice(String),
    /// A block device is not compatible (not a filesystem).
    IncompatibleBlockDevice(String),
    /// A filesystem is not one of the compatible filesystems.
    IncompatibleFilesystem(String),
    /// A device path is invalid.
    InvalidDevicePath(String),
    /// Information on an update bundle could not be retrieved: path and reason.
    BundleInfo(String, String),
    /// A bundle path is invalid.
    BundlePath(String),
    /// A bundle version is invalid: version text, bundle path and reason.
    BundleVersion(String, String, String),
    /// A slot version is invalid: version text, slot name and reason.
    SlotVersion(String, String, String),
    /// A configuration option is missing or malformed.
    Config(String),
    /// No compatible update bundle is found.
    NoUpdateBundle,
    /// Bytes could not be decoded as a string.
    String(String),
    /// There is more than one override bundle.
    TooManyOverrides(Vec<String>),
    /// Unmounting a filesystem failed.
    UnmountFailed(String),
    /// Installing an update bundle failed.
    UpdateFailed(String),
    /// A request was made in a state that does not accept it.
    WrongState(String),
    /// A search was requested while the machine is not idle.
    AccessDenied(String),
    /// Initialization failed.
    Init(String),
    /// Any other error.
    Default(String),
}

} // verus!
