use vstd::prelude::*;

use super::{PhysicalAddress, V2PError, VirtualAddress};

verus! {

/// A strategy that asks the hosting hypervisor for a virtual-to-physical
/// translation. The query itself is a placeholder: no hypervisor interface
/// is wired up, so every translation deterministically reports that it is
/// not implemented.
pub struct HypervisorStrategy;

impl HypervisorStrategy {
    pub fn new() -> (strategy: Self)
        ensures
            strategy == (HypervisorStrategy {}),
    {
        HypervisorStrategy
    }

    pub fn translate_to_physical(&self, virt_addr: VirtualAddress) -> (result: Result<
        PhysicalAddress,
        V2PError,
    >)
        ensures
            result matches Err(V2PError::Other(message)) && message@
                == "Hypervisor translation not implemented"@,
    {
        match query_hypervisor(virt_addr) {
            Ok(phys_addr) => Ok(phys_addr),
            Err(err) => Err(err),
        }
    }
}

/// A placeholder for the hypervisor query; a real deployment would replace
/// it with the hypervisor software's own calling convention.
fn query_hypervisor(_virt_addr: VirtualAddress) -> (result: Result<PhysicalAddress, V2PError>)
    ensures
        result matches Err(V2PError::Other(message)) && message@
            == "Hypervisor translation not implemented"@,
{
    Err(V2PError::Other("Hypervisor translation not implemented".to_owned()))
}

} // verus!
