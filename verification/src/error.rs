use vstd::prelude::*;

verus! {

/// Why a provisioning request was rejected.
///
/// A fleet expansion is atomic: the first error aborts the whole operation and
/// no descriptor is returned.
#[derive(Clone, Copy, Debug, PartialEq, Eq, Structural)]
pub enum ProvisionError {
    /// The port range text was unparsable, or the end port did not exceed the
    /// start port.
    MalformedRange,
    /// A declared port range does not hold exactly one port per requested
    /// instance. `required` is the number of ports the range holds; `declared`
    /// is the requested instance count.
    CardinalityMismatch { required: u32, declared: u32 },
    /// The service identity was rejected by the service manager's label syntax.
    InvalidIdentity,
    /// A custom EVM network selection was missing one of its three mandatory
    /// fields.
    IncompleteCustomNetwork,
}

} // verus!
