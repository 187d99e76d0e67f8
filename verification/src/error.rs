//! Errors surfaced by the assembly before the node starts.

use vstd::prelude::*;

verus! {

/// A pre-start assembly failure, surfaced to the outer process as text.
#[derive(Debug)]
pub enum AssemblyError {
    /// The light-client role is rejected at phase-2 entry, before any
    /// resource is built.
    LightUnsupported,
    /// A service-layer failure, carried as its descriptive text.
    Service(String),
}

impl AssemblyError {
    /// The descriptive text of this failure.
    pub fn message(&self) -> (r: &str)
        ensures
            *self is LightUnsupported ==> r@ == "Light client not supported!"@,
            *self matches AssemblyError::Service(m) ==> r@ == m@,
    {
        match self {
            AssemblyError::LightUnsupported => "Light client not supported!",
            AssemblyError::Service(m) => m.as_str(),
        }
    }
}

/// A failure of the relay-chain full-node factory, as the factory reports
/// it: either a service-layer error of its own, or some other variant that
/// only its rendered text survives.
#[derive(Debug)]
pub enum RelayChainError {
    /// The factory's own service-layer error; passed through unchanged.
    Sub(AssemblyError),
    /// Any other variant, already rendered to text.
    Other(String),
}

/// Maps a relay-chain factory failure into an [`AssemblyError`]: the
/// service-layer variant passes through transparently, every other variant
/// is kept only as its text.
pub fn map_relay_chain_error(e: RelayChainError) -> (r: AssemblyError)
    ensures
        e matches RelayChainError::Sub(inner) ==> r == inner,
        e matches RelayChainError::Other(text) ==> r matches AssemblyError::Service(m) && m@ == text@,
{
    match e {
        RelayChainError::Sub(inner) => inner,
        RelayChainError::Other(text) => AssemblyError::Service(text),
    }
}

} // verus!
