//! Capability-constrained computation of the VMX control fields.
use vstd::prelude::*;

verus! {

/// The five categories of VMX controls.
#[derive(Debug, Clone, Copy, PartialEq, Eq, Structural)]
pub enum VmxControl {
    PinBased,
    ProcessorBased,
    ProcessorBased2,
    VmExit,
    VmEntry,
}

/// Bit 55 of IA32_VMX_BASIC: the processor reports the TRUE capability MSRs.
pub const VMX_BASIC_TRUE_CONTROLS: u64 = 0x0080_0000_0000_0000;

/// The capability MSRs of the processor, as read by the host.
///
/// Each control capability holds the allowed-0 settings (bits that must be
/// one) in its low half and the allowed-1 settings (bits that may be one) in
/// its high half.
#[derive(Debug, Clone, Copy, PartialEq, Eq, Structural)]
pub struct VmxCapabilities {
    /// IA32_VMX_BASIC.
    pub basic: u64,
    /// IA32_VMX_PINBASED_CTLS.
    pub pinbased: u64,
    /// IA32_VMX_PROCBASED_CTLS.
    pub procbased: u64,
    /// IA32_VMX_PROCBASED_CTLS2 (there is no TRUE variant).
    pub procbased2: u64,
    /// IA32_VMX_EXIT_CTLS.
    pub exit: u64,
    /// IA32_VMX_ENTRY_CTLS.
    pub entry: u64,
    /// IA32_VMX_TRUE_PINBASED_CTLS.
    pub true_pinbased: u64,
    /// IA32_VMX_TRUE_PROCBASED_CTLS.
    pub true_procbased: u64,
    /// IA32_VMX_TRUE_EXIT_CTLS.
    pub true_exit: u64,
    /// IA32_VMX_TRUE_ENTRY_CTLS.
    pub true_entry: u64,
}

/// Bits the processor forces to one.
pub open spec fn mandatory_ones(capability: u64) -> u64 {
    capability & 0xFFFF_FFFF
}

/// Bits the processor lets be one.
pub open spec fn allowed_ones(capability: u64) -> u64 {
    capability >> 32u64
}

/// The hardware-permitted refinement of a requested control value.
pub open spec fn adjusted(capability: u64, requested: u64) -> u64 {
    (requested | mandatory_ones(capability)) & allowed_ones(capability)
}

impl VmxCapabilities {
    pub open spec fn spec_true_controls(self) -> bool {
        self.basic & VMX_BASIC_TRUE_CONTROLS != 0
    }

    /// The capability MSR that governs a category.
    pub open spec fn spec_capability(self, control: VmxControl) -> u64 {
        match control {
            VmxControl::PinBased => if self.spec_true_controls() {
                self.true_pinbased
            } else {
                self.pinbased
            },
            VmxControl::ProcessorBased => if self.spec_true_controls() {
                self.true_procbased
            } else {
                self.procbased
            },
            VmxControl::ProcessorBased2 => self.procbased2,
            VmxControl::VmExit => if self.spec_true_controls() {
                self.true_exit
            } else {
                self.exit
            },
            VmxControl::VmEntry => if self.spec_true_controls() {
                self.true_entry
            } else {
                self.entry
            },
        }
    }

    pub fn capability(&self, control: VmxControl) -> (r: u64)
        ensures
            r == self.spec_capability(control),
    {
        let true_controls = self.basic & VMX_BASIC_TRUE_CONTROLS != 0;
        match control {
            VmxControl::PinBased => if true_controls {
                self.true_pinbased
            } else {
                self.pinbased
            },
            VmxControl::ProcessorBased => if true_controls {
                self.true_procbased
            } else {
                self.procbased
            },
            VmxControl::ProcessorBased2 => self.procbased2,
            VmxControl::VmExit => if true_controls {
                self.true_exit
            } else {
                self.exit
            },
            VmxControl::VmEntry => if true_controls {
                self.true_entry
            } else {
                self.entry
            },
        }
    }
}

/// Computes the value of a control field that the processor accepts: every
/// bit it mandates is set, every bit it does not support is cleared.
pub fn adjust_vmx_controls(caps: &VmxCapabilities, control: VmxControl, requested: u64) -> (r: u64)
    ensures
        r == adjusted(caps.spec_capability(control), requested),
{
    let capability = caps.capability(control);
    let mandatory = capability & 0xFFFF_FFFF;
    let allowed = capability >> 32u64;
    (requested | mandatory) & allowed
}

/// An adjusted control value never holds a bit outside the allowed ones,
/// always keeps every requested bit that is allowed, and, where the processor
/// reports consistent capabilities (every mandatory bit allowed), holds every
/// mandatory bit.
pub proof fn lemma_adjust_respects_capabilities(capability: u64, requested: u64)
    requires
        mandatory_ones(capability) & !allowed_ones(capability) == 0,
    ensures
        adjusted(capability, requested) & !allowed_ones(capability) == 0,
        mandatory_ones(capability) & !adjusted(capability, requested) == 0,
        (requested & allowed_ones(capability)) & !adjusted(capability, requested) == 0,
{
    let m = capability & 0xFFFF_FFFF;
    let a = capability >> 32u64;
    assert((requested | m) & a & !a == 0) by (bit_vector);
    assert(m & !a == 0 ==> m & !((requested | m) & a) == 0) by (bit_vector);
    assert((requested & a) & !((requested | m) & a) == 0) by (bit_vector);
}

} // verus!
