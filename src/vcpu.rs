//! Per-processor virtualization state.
use vstd::prelude::*;
use crate::context::GuestRegisters;
use crate::error::HypervisorError;
use crate::vmcs::{vmcs_revision, Vmcs};
use crate::vmx::{
    extends, failure_of, follows_plan, issued_since, launch_plan, lemma_only_load_at_two,
    session_writes, Vmx, VmxCpu, VmxInstructions, VmxSetup,
};
use crate::vmxon::Vmxon;

verus! {

/// One logical processor and whether it has been virtualized.
pub struct Vcpu {
    /// The index of the processor.
    index: u32,
    /// Whether the processor is virtualized or not.
    is_virtualized: bool,
}

impl Vcpu {
    pub closed spec fn spec_id(&self) -> u32 {
        self.index
    }

    pub closed spec fn spec_is_virtualized(&self) -> bool {
        self.is_virtualized
    }

    pub fn new(index: u32) -> (r: Result<Self, HypervisorError>)
        ensures
            r is Ok,
            r.unwrap().spec_id() == index,
            !r.unwrap().spec_is_virtualized(),
    {
        Ok(Self { index, is_virtualized: false })
    }

    /// Virtualizes the processor: builds a VMX session from `setup` and runs
    /// its launch plan on `cpu` up to the launch of the guest. A processor
    /// that is already virtualized is left alone, and no instruction is
    /// issued. The processor counts as virtualized only once the launch
    /// succeeded, so a failed attempt may be made again.
    pub fn virtualize_cpu<H: VmxInstructions>(
        &mut self,
        cpu: &mut VmxCpu<H>,
        setup: &VmxSetup,
        vmxon_region: &mut Vmxon,
        vmcs_region: &mut Vmcs,
        guest_registers: &mut GuestRegisters,
    ) -> (r: Result<(), HypervisorError>)
        ensures
            final(self).spec_id() == old(self).spec_id(),
            old(self).spec_is_virtualized() ==> {
                &&& r == Ok::<(), HypervisorError>(())
                &&& final(self).spec_is_virtualized()
                &&& final(cpu).log() == old(cpu).log()
                &&& final(vmxon_region).revision_id == old(vmxon_region).revision_id
                &&& final(vmcs_region).revision_id == old(vmcs_region).revision_id
                &&& *final(guest_registers) == *old(guest_registers)
            },
            !old(self).spec_is_virtualized() ==> (final(self).spec_is_virtualized() <==> r is Ok),
            !old(self).spec_is_virtualized() && (setup.vmxon_address == 0 || setup.vmcs_address
                == 0) ==> r == Err::<(), HypervisorError>(
                HypervisorError::VirtualToPhysicalAddressFailed,
            ) && final(cpu).log() == old(cpu).log() && final(vmcs_region).revision_id == old(vmcs_region).revision_id,
            !old(self).spec_is_virtualized() && setup.vmxon_address != 0 && setup.vmcs_address
                != 0 ==> {
                let issued = issued_since(old(cpu).log(), final(cpu).log());
                let plan = launch_plan(
                    setup.vmxon_address,
                    setup.vmcs_address,
                    session_writes(*setup),
                );
                &&& extends(old(cpu).log(), final(cpu).log())
                &&& follows_plan(issued, plan)
                &&& r is Ok <==> issued.last().succeeded
                &&& r is Ok ==> issued.len() == plan.len()
                &&& r is Err ==> r->Err_0 == failure_of(issued.last().instruction)
                &&& r == Err::<(), HypervisorError>(HypervisorError::VMPTRLDFailed) ==> issued.len()
                    == 3
                &&& final(vmxon_region).revision_id == vmcs_revision(setup.capabilities.basic)
                &&& issued.len() >= 2 ==> final(vmcs_region).revision_id == vmcs_revision(
                    setup.capabilities.basic,
                )
                &&& final(guest_registers).saved_from(setup.context)
            },
            final(vmxon_region).data == old(vmxon_region).data,
            final(vmcs_region).abort_indicator == old(vmcs_region).abort_indicator,
            final(vmcs_region).reserved == old(vmcs_region).reserved,
    {
        if self.is_virtualized {
            return Ok(());
        }
        let mut vmx = match Vmx::new(setup, vmxon_region, guest_registers) {
            Ok(vmx) => vmx,
            Err(e) => {
                return Err(e);
            },
        };
        let ghost log0 = cpu.log();
        let result = vmx.run(cpu, vmcs_region);
        proof {
            let issued = issued_since(log0, cpu.log());
            let plan = launch_plan(setup.vmxon_address, setup.vmcs_address, session_writes(*setup));
            if result == Err::<(), HypervisorError>(HypervisorError::VMPTRLDFailed) {
                lemma_only_load_at_two(setup.vmxon_address, setup.vmcs_address, session_writes(*setup), issued.len() - 1);
            }
        }
        if result.is_ok() {
            self.is_virtualized = true;
        }
        result
    }

    /// Gets the index of the current logical/virtual processor.
    pub fn id(&self) -> (r: u32)
        ensures
            r == self.spec_id(),
    {
        self.index
    }

    pub fn is_virtualized(&self) -> (r: bool)
        ensures
            r == self.spec_is_virtualized(),
    {
        self.is_virtualized
    }
}

} // verus!
