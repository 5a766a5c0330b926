use vstd::prelude::*;

verus! {

/// Declares `std::io::Error` to the verifier as an opaque type so that it
/// can be carried inside `V2PError`. Nothing is assumed about its values.
#[verifier::external_type_specification]
#[verifier::external_body]
pub struct ExIoError(std::io::Error);

/// A failure to translate a virtual address to a physical address.
#[derive(Debug)]
pub enum V2PError {
    /// Error reading from the pagemap file or other related I/O errors.
    IoError(std::io::Error),
    /// A virtual address is not mapped to a physical address.
    UnmappedAddress,
    /// Error related to the hypervisor, e.g., if using a
    /// virtualization-based strategy.
    HypervisorError(String),
    /// A generic error, for cases not covered above.
    Other(String),
}

impl From<std::io::Error> for V2PError {
    fn from(err: std::io::Error) -> Self {
        V2PError::IoError(err)
    }
}

impl vstd::std_specs::convert::FromSpecImpl<std::io::Error> for V2PError {
    open spec fn obeys_from_spec() -> bool {
        true
    }

    open spec fn from_spec(err: std::io::Error) -> Self {
        V2PError::IoError(err)
    }
}

} // verus!
