//! The launch configuration of a VM and its consistency rules.
use vstd::prelude::*;

verus! {

/// An open file descriptor, as inherited by the crosvm process.
pub type RawFd = i32;

/// A disk image to pass to crosvm for a VM.
#[derive(Clone, Copy, Debug, PartialEq, Eq, Structural)]
pub struct DiskFile {
    /// Descriptor of the open image file.
    pub image: RawFd,
    pub writable: bool,
}

/// Configuration for a VM to run with crosvm. Images are given as open descriptors.
#[derive(Debug)]
pub struct CrosvmConfig {
    /// The CID assigned to the VM for vsock communication.
    pub cid: u32,
    pub bootloader: Option<RawFd>,
    pub kernel: Option<RawFd>,
    pub initrd: Option<RawFd>,
    pub disks: Vec<DiskFile>,
    pub params: Option<String>,
    pub protected: bool,
    /// Memory size in MiB; absent lets crosvm choose.
    pub memory_mib: Option<u32>,
    /// Descriptor that receives the console output; absent discards it.
    pub log_fd: Option<RawFd>,
    /// Descriptors that must stay open in the crosvm process without being named by argument.
    pub indirect_files: Vec<RawFd>,
}

/// Why a configuration was refused.
#[derive(Clone, Copy, Debug, PartialEq, Eq, Structural)]
pub enum ConfigError {
    /// Neither a bootloader nor a kernel image was given.
    MissingImage,
    /// A bootloader was given together with a kernel or an initial ramdisk.
    ConflictingImages,
}

impl ConfigError {
    /// A description of the error.
    pub fn message(&self) -> (r: &'static str)
        ensures
            *self == ConfigError::MissingImage ==> r@ == "VM must have either a bootloader or a kernel image."@,
            *self == ConfigError::ConflictingImages ==> r@ == "Can't have both bootloader and kernel/initrd image."@,
    {
        match self {
            ConfigError::MissingImage => "VM must have either a bootloader or a kernel image.",
            ConfigError::ConflictingImages => "Can't have both bootloader and kernel/initrd image.",
        }
    }
}

/// The error, if any, that a configuration breaks first.
pub open spec fn config_error(c: CrosvmConfig) -> Option<ConfigError> {
    if c.bootloader is None && c.kernel is None {
        Some(ConfigError::MissingImage)
    } else if c.bootloader is Some && (c.kernel is Some || c.initrd is Some) {
        Some(ConfigError::ConflictingImages)
    } else {
        None
    }
}

/// Exactly one of bootloader and kernel is set, and a bootloader comes alone.
pub open spec fn config_valid(c: CrosvmConfig) -> bool {
    config_error(c) is None
}

/// Ensures that the configuration has a valid combination of fields set, or returns the first
/// rule that it breaks.
pub fn validate_config(config: &CrosvmConfig) -> (r: Result<(), ConfigError>)
    ensures
        r is Ok <==> config_valid(*config),
        r matches Err(e) ==> config_error(*config) == Some(e),
{
    if config.bootloader.is_none() && config.kernel.is_none() {
        return Err(ConfigError::MissingImage);
    }
    if config.bootloader.is_some() && (config.kernel.is_some() || config.initrd.is_some()) {
        return Err(ConfigError::ConflictingImages);
    }
    Ok(())
}

/// A valid configuration has exactly one of a bootloader and a kernel.
pub proof fn lemma_valid_has_one_image(c: CrosvmConfig)
    requires
        config_valid(c),
    ensures
        c.bootloader is Some <==> c.kernel is None,
        c.bootloader is Some ==> c.initrd is None,
{
}

} // verus!
