//! Plain-value snapshots of the processor state that the VMCS is built from.
use vstd::prelude::*;

verus! {

/// One 128-bit vector register.
#[derive(Debug, Clone, Copy, PartialEq, Eq, Structural)]
pub struct M128 {
    pub low: u64,
    pub high: u64,
}

/// The captured execution context of the processor at the point it is
/// virtualized: the register file as the capture routine saw it.
#[derive(Debug, Clone, Copy)]
pub struct Context {
    pub rax: u64,
    pub rbx: u64,
    pub rcx: u64,
    pub rdx: u64,
    pub rsi: u64,
    pub rdi: u64,
    pub rbp: u64,
    pub rsp: u64,
    pub r8: u64,
    pub r9: u64,
    pub r10: u64,
    pub r11: u64,
    pub r12: u64,
    pub r13: u64,
    pub r14: u64,
    pub r15: u64,
    pub rip: u64,
    pub eflags: u32,
    pub dr7: u64,
    pub seg_cs: u16,
    pub seg_ss: u16,
    pub seg_ds: u16,
    pub seg_es: u16,
    pub seg_fs: u16,
    pub seg_gs: u16,
    pub xmm: [M128; 16],
}

/// Processor state that the captured context does not hold: control
/// registers, the LDTR and TR selectors, and model-specific registers.
#[derive(Debug, Clone, Copy, PartialEq, Eq, Structural)]
pub struct ProcessorState {
    pub cr0: u64,
    pub cr3: u64,
    pub cr4: u64,
    pub ldtr: u16,
    pub tr: u16,
    /// IA32_FS_BASE.
    pub fs_base: u64,
    /// IA32_GS_BASE.
    pub gs_base: u64,
    /// IA32_DEBUGCTL.
    pub debugctl: u64,
    /// IA32_SYSENTER_CS.
    pub sysenter_cs: u64,
    /// IA32_SYSENTER_ESP.
    pub sysenter_esp: u64,
    /// IA32_SYSENTER_EIP.
    pub sysenter_eip: u64,
}

/// A segment as resolved from its descriptor.
#[derive(Debug, Clone, Copy, PartialEq, Eq, Structural)]
pub struct SegmentDescriptor {
    pub base_address: u64,
    pub segment_limit: u32,
    pub access_rights: u32,
}

/// The descriptor tables of one role (guest or host), with the segments that
/// the processor has loaded already resolved against the GDT.
#[derive(Debug, Clone, Copy, PartialEq, Eq, Structural)]
pub struct DescriptorTables {
    pub gdtr_base: u64,
    pub gdtr_limit: u16,
    pub idtr_base: u64,
    pub idtr_limit: u16,
    pub es: SegmentDescriptor,
    pub cs: SegmentDescriptor,
    pub ss: SegmentDescriptor,
    pub ds: SegmentDescriptor,
    pub fs: SegmentDescriptor,
    pub gs: SegmentDescriptor,
    pub ldtr: SegmentDescriptor,
    pub tr: SegmentDescriptor,
}

/// The software save area for the registers that the VMCS does not hold.
#[derive(Debug, Clone, Copy)]
pub struct GuestRegisters {
    pub rax: u64,
    pub rbx: u64,
    pub rcx: u64,
    pub rdx: u64,
    pub rdi: u64,
    pub rsi: u64,
    pub rbp: u64,
    pub r8: u64,
    pub r9: u64,
    pub r10: u64,
    pub r11: u64,
    pub r12: u64,
    pub r13: u64,
    pub r14: u64,
    pub r15: u64,
    pub xmm: [M128; 16],
}

impl GuestRegisters {
    /// The save area holds exactly the registers of `context` that the VMCS
    /// has no field for.
    pub open spec fn saved_from(self, context: Context) -> bool {
        &&& self.rax == context.rax
        &&& self.rbx == context.rbx
        &&& self.rcx == context.rcx
        &&& self.rdx == context.rdx
        &&& self.rdi == context.rdi
        &&& self.rsi == context.rsi
        &&& self.rbp == context.rbp
        &&& self.r8 == context.r8
        &&& self.r9 == context.r9
        &&& self.r10 == context.r10
        &&& self.r11 == context.r11
        &&& self.r12 == context.r12
        &&& self.r13 == context.r13
        &&& self.r14 == context.r14
        &&& self.r15 == context.r15
        &&& self.xmm == context.xmm
    }

    /// Copies the general-purpose and vector registers of `context` into the
    /// save area.
    pub fn save_from(&mut self, context: &Context)
        ensures
            final(self).saved_from(*context),
    {
        self.xmm = context.xmm;
        self.rax = context.rax;
        self.rbx = context.rbx;
        self.rcx = context.rcx;
        self.rdx = context.rdx;
        self.rdi = context.rdi;
        self.rsi = context.rsi;
        self.rbp = context.rbp;
        self.r8 = context.r8;
        self.r9 = context.r9;
        self.r10 = context.r10;
        self.r11 = context.r11;
        self.r12 = context.r12;
        self.r13 = context.r13;
        self.r14 = context.r14;
        self.r15 = context.r15;
    }
}

} // verus!
