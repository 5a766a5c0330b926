use vstd::prelude::*;

use crate::config::models::HypercallConfig;
use super::{PhysicalAddress, V2PError, VirtualAddress};
use super::translator::VirtualToPhysicalTranslator;

verus! {

/// The privileged-call path of the KVM strategy.
///
/// Issuing the actual privileged instruction takes inline assembly, which
/// verified code cannot contain, so this build of the path deterministically
/// reports an unsupported platform; a host-specific caller may instead inject
/// its own translation function through `with_translate_fn`.
fn real_hypercall(_virt_addr: VirtualAddress) -> (result: Result<PhysicalAddress, V2PError>)
    ensures
        result matches Err(V2PError::Other(message)) && message@ == "unsupported platform"@,
{
    Err(V2PError::Other("unsupported platform".to_owned()))
}

/// Applies the hypervisor calling convention's failure sentinel: a zero
/// physical address means the hypervisor could not or would not translate,
/// and is reported as a `HypervisorError`. Every other answer is passed
/// through unchanged.
pub fn check_translation_result(result: Result<PhysicalAddress, V2PError>) -> (checked: Result<
    PhysicalAddress,
    V2PError,
>)
    ensures
        result == Ok::<PhysicalAddress, V2PError>(0u64) ==> (checked matches Err(
            V2PError::HypervisorError(message),
        ) && message@ == "Hypervisor translation failed"@),
        result matches Ok(addr) && addr != 0 ==> checked == result,
        result matches Err(_) ==> checked == result,
{
    match result {
        Ok(0u64) => Err(V2PError::HypervisorError("Hypervisor translation failed".to_owned())),
        Ok(addr) => Ok(addr),
        Err(err) => Err(err),
    }
}

/// Resolves a virtual address by issuing a privileged call into the hosting
/// hypervisor designated by a `HypercallConfig`.
pub struct KvmHypercallStrategy {
    pub config: HypercallConfig,
}

impl KvmHypercallStrategy {
    /// Constructs the production strategy, wired to the privileged-call path.
    pub fn new(hc_config: HypercallConfig) -> (strategy: Self)
        ensures
            strategy.config == hc_config,
    {
        KvmHypercallStrategy { config: hc_config }
    }

    /// Constructs a strategy that resolves through `translate_fn` instead of
    /// the privileged call: the seam for injecting a stand-in translation
    /// function in tests or on hosts with their own calling convention.
    pub fn with_translate_fn<F: Fn(VirtualAddress) -> Result<PhysicalAddress, V2PError>>(
        translate_fn: F,
    ) -> (strategy: InjectedHypercallStrategy<F>)
        ensures
            strategy.translate_fn_spec() == translate_fn,
            strategy.config_spec().hypercall_number == 0,
    {
        InjectedHypercallStrategy { translate_fn, config: HypercallConfig { hypercall_number: 0 } }
    }
}

impl VirtualToPhysicalTranslator for KvmHypercallStrategy {
    open spec fn to_physical_req(&self, virtual_address: VirtualAddress) -> bool {
        true
    }

    open spec fn to_physical_post(
        &self,
        virtual_address: VirtualAddress,
        result: Result<PhysicalAddress, V2PError>,
    ) -> bool {
        result matches Err(V2PError::Other(message)) && message@ == "unsupported platform"@
    }

    fn to_physical(&self, virtual_address: VirtualAddress) -> (result: Result<
        PhysicalAddress,
        V2PError,
    >) {
        check_translation_result(real_hypercall(virtual_address))
    }
}

/// A KVM strategy whose translation function was injected through
/// `KvmHypercallStrategy::with_translate_fn`; the zero-sentinel convention
/// of the hypercall interface is still applied to its answers.
pub struct InjectedHypercallStrategy<F> where F: Fn(
    VirtualAddress,
) -> Result<PhysicalAddress, V2PError> {
    translate_fn: F,
    pub config: HypercallConfig,
}

impl<F: Fn(VirtualAddress) -> Result<PhysicalAddress, V2PError>> InjectedHypercallStrategy<F> {
    /// The injected translation function.
    pub closed spec fn translate_fn_spec(&self) -> F {
        self.translate_fn
    }

    /// The configuration carried along with the injected function.
    pub closed spec fn config_spec(&self) -> HypercallConfig {
        self.config
    }
}

impl<F: Fn(VirtualAddress) -> Result<PhysicalAddress, V2PError>> VirtualToPhysicalTranslator for InjectedHypercallStrategy<
    F,
> {
    open spec fn to_physical_req(&self, virtual_address: VirtualAddress) -> bool {
        call_requires(self.translate_fn_spec(), (virtual_address,))
    }

    open spec fn to_physical_post(
        &self,
        virtual_address: VirtualAddress,
        result: Result<PhysicalAddress, V2PError>,
    ) -> bool {
        match result {
            Ok(addr) => addr != 0 && call_ensures(
                self.translate_fn_spec(),
                (virtual_address,),
                Ok(addr),
            ),
            Err(err) => call_ensures(self.translate_fn_spec(), (virtual_address,), Err(err)) || (err
                matches V2PError::HypervisorError(message) && message@
                == "Hypervisor translation failed"@ && call_ensures(
                self.translate_fn_spec(),
                (virtual_address,),
                Ok(0u64),
            )),
        }
    }

    fn to_physical(&self, virtual_address: VirtualAddress) -> (result: Result<
        PhysicalAddress,
        V2PError,
    >) {
        check_translation_result((self.translate_fn)(virtual_address))
    }
}

} // verus!
