//! The VMXON region.
use vstd::prelude::*;
use crate::error::HypervisorError;
use crate::vmcs::{vmcs_revision, Vmcs};

verus! {

/// The region a processor needs to enter VMX operation: a revision
/// identifier followed by data in a format of the processor's own.
pub struct Vmxon {
    pub revision_id: u32,
    pub data: [u8; 4092],
}

impl Vmxon {
    /// Prepares a zeroed region at `physical_address` for VMXON: the address
    /// must be valid, and the region takes the processor's revision
    /// identifier.
    pub fn setup(vmxon_region: &mut Vmxon, physical_address: u64, vmx_basic: u64) -> (r: Result<
        (),
        HypervisorError,
    >)
        ensures
            physical_address == 0 ==> r == Err::<(), HypervisorError>(
                HypervisorError::VirtualToPhysicalAddressFailed,
            ) && final(vmxon_region).revision_id == old(vmxon_region).revision_id,
            physical_address != 0 ==> r == Ok::<(), HypervisorError>(())
                && final(vmxon_region).revision_id == vmcs_revision(vmx_basic),
            final(vmxon_region).data == old(vmxon_region).data,
    {
        if physical_address == 0 {
            return Err(HypervisorError::VirtualToPhysicalAddressFailed);
        }
        vmxon_region.revision_id = Vmcs::get_vmcs_revision_id(vmx_basic);
        Ok(())
    }
}

} // verus!
