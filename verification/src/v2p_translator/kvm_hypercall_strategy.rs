use vstd::prelude::*;

use crate::physical_translation::kvm_hypercall_translator::check_translation_result;

use super::{PhysicalAddress, V2PError, VirtualAddress};

verus! {

/// Resolves a virtual address by issuing a privileged call into the hosting
/// hypervisor, under the hypercall interface's fixed calling convention.
pub struct KvmHypercallStrategy;

impl KvmHypercallStrategy {
    /// Constructs the production strategy, wired to the privileged-call path.
    pub fn new() -> (strategy: Self)
        ensures
            strategy == (KvmHypercallStrategy {}),
    {
        KvmHypercallStrategy
    }

    /// Constructs a strategy that resolves through `translate_fn` instead of
    /// the privileged call: the seam for injecting a stand-in translation
    /// function in tests or on hosts with their own calling convention.
    pub fn with_translate_fn<F: Fn(VirtualAddress) -> Result<PhysicalAddress, V2PError>>(
        translate_fn: F,
    ) -> (strategy: InjectedHypercallStrategy<F>)
        ensures
            strategy.translate_fn_spec() == translate_fn,
    {
        InjectedHypercallStrategy { translate_fn }
    }

    pub fn translate_to_physical(&self, virt_addr: VirtualAddress) -> (result: Result<
        PhysicalAddress,
        V2PError,
    >)
        ensures
            result matches Err(V2PError::Other(message)) && message@ == "unsupported platform"@,
    {
        check_translation_result(real_hypercall(virt_addr))
    }
}

/// A strategy whose translation function was injected through
/// `KvmHypercallStrategy::with_translate_fn`; the zero-sentinel convention
/// of the hypercall interface is still applied to its answers.
pub struct InjectedHypercallStrategy<F> where F: Fn(
    VirtualAddress,
) -> Result<PhysicalAddress, V2PError> {
    translate_fn: F,
}

impl<F: Fn(VirtualAddress) -> Result<PhysicalAddress, V2PError>> InjectedHypercallStrategy<F> {
    /// The injected translation function.
    pub closed spec fn translate_fn_spec(&self) -> F {
        self.translate_fn
    }

    pub fn translate_to_physical(&self, virt_addr: VirtualAddress) -> (result: Result<
        PhysicalAddress,
        V2PError,
    >)
        requires
            call_requires(self.translate_fn_spec(), (virt_addr,)),
        ensures
            match result {
                Ok(addr) => addr != 0 && call_ensures(
                    self.translate_fn_spec(),
                    (virt_addr,),
                    Ok(addr),
                ),
                Err(err) => call_ensures(self.translate_fn_spec(), (virt_addr,), Err(err)) || (err
                    matches V2PError::HypervisorError(message) && message@
                    == "Hypervisor translation failed"@ && call_ensures(
                    self.translate_fn_spec(),
                    (virt_addr,),
                    Ok(0u64),
                )),
            },
    {
        check_translation_result((self.translate_fn)(virt_addr))
    }
}

/// The privileged-call path of the KVM strategy.
///
/// Issuing the actual privileged instruction takes inline assembly, which
/// verified code cannot contain, so this build of the path deterministically
/// reports an unsupported platform; a host-specific caller may instead inject
/// its own translation function through `with_translate_fn`.
fn real_hypercall(_virt_addr: VirtualAddress) -> (result: Result<PhysicalAddress, V2PError>)
    ensures
        result matches Err(V2PError::Other(message)) && message@ == "unsupported platform"@,
{
    Err(V2PError::Other("unsupported platform".to_owned()))
}

} // verus!
