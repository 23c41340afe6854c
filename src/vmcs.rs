//! The VMCS region and the values written into its guest-state, host-state
//! and control areas.
use vstd::prelude::*;
use crate::context::{Context, DescriptorTables, GuestRegisters, ProcessorState};
use crate::controls::{adjust_vmx_controls, adjusted, VmxCapabilities, VmxControl};
use crate::error::HypervisorError;
use crate::vmx::{current_vmcs_of, extends, issued_since, Instruction, VmxCpu, VmxInstructions};
use crate::field::{
    CONTROL_CR0_READ_SHADOW, CONTROL_CR4_READ_SHADOW, CONTROL_MSR_BITMAPS_ADDR_FULL,
    CONTROL_PINBASED_EXEC_CONTROLS, CONTROL_PRIMARY_PROCBASED_EXEC_CONTROLS,
    CONTROL_SECONDARY_PROCBASED_EXEC_CONTROLS, CONTROL_VMENTRY_CONTROLS,
    CONTROL_VMEXIT_CONTROLS, ENTRY_IA32E_MODE_GUEST, EXIT_HOST_ADDRESS_SPACE_SIZE, GUEST_CR0,
    GUEST_CR3, GUEST_CR4, GUEST_CS_ACCESS_RIGHTS, GUEST_CS_BASE, GUEST_CS_LIMIT,
    GUEST_CS_SELECTOR, GUEST_DR7, GUEST_DS_ACCESS_RIGHTS, GUEST_DS_BASE, GUEST_DS_LIMIT,
    GUEST_DS_SELECTOR, GUEST_ES_ACCESS_RIGHTS, GUEST_ES_BASE, GUEST_ES_LIMIT, GUEST_ES_SELECTOR,
    GUEST_FS_ACCESS_RIGHTS, GUEST_FS_BASE, GUEST_FS_LIMIT, GUEST_FS_SELECTOR, GUEST_GDTR_BASE,
    GUEST_GDTR_LIMIT, GUEST_GS_ACCESS_RIGHTS, GUEST_GS_BASE, GUEST_GS_LIMIT, GUEST_GS_SELECTOR,
    GUEST_IA32_DEBUGCTL_FULL, GUEST_IA32_SYSENTER_CS, GUEST_IA32_SYSENTER_EIP,
    GUEST_IA32_SYSENTER_ESP, GUEST_IDTR_BASE, GUEST_IDTR_LIMIT, GUEST_LDTR_ACCESS_RIGHTS,
    GUEST_LDTR_BASE, GUEST_LDTR_LIMIT, GUEST_LDTR_SELECTOR, GUEST_LINK_PTR_FULL, GUEST_RFLAGS,
    GUEST_RIP, GUEST_RSP, GUEST_SS_ACCESS_RIGHTS, GUEST_SS_BASE, GUEST_SS_LIMIT,
    GUEST_SS_SELECTOR, GUEST_TR_ACCESS_RIGHTS, GUEST_TR_BASE, GUEST_TR_LIMIT, GUEST_TR_SELECTOR,
    HOST_CR0, HOST_CR3, HOST_CR4, HOST_CS_SELECTOR, HOST_DS_SELECTOR, HOST_ES_SELECTOR,
    HOST_FS_BASE, HOST_FS_SELECTOR, HOST_GDTR_BASE, HOST_GS_BASE, HOST_GS_SELECTOR,
    HOST_IA32_SYSENTER_CS, HOST_IA32_SYSENTER_EIP, HOST_IA32_SYSENTER_ESP, HOST_IDTR_BASE,
    HOST_RIP, HOST_RSP, HOST_SS_SELECTOR, HOST_TR_BASE, HOST_TR_SELECTOR,
    PRIMARY_SECONDARY_CONTROLS, PRIMARY_USE_MSR_BITMAPS, SECONDARY_ENABLE_INVPCID,
    SECONDARY_ENABLE_RDTSCP, SECONDARY_ENABLE_XSAVES_XRSTORS,
};

verus! {

/// Value of the VMCS link pointer when no shadow VMCS is linked.
pub const VMCS_LINK_NOT_IN_USE: u64 = 0xFFFF_FFFF_FFFF_FFFF;

/// Host selectors must have RPL 0 and must not reference the LDT.
pub const HOST_SELECTOR_MASK: u16 = 0xFFF8;

/// Requested pin-based controls: none beyond what the processor mandates.
pub const PINBASED_BASELINE: u64 = 0;

/// Requested primary processor-based controls.
pub const PRIMARY_BASELINE: u64 = PRIMARY_SECONDARY_CONTROLS | PRIMARY_USE_MSR_BITMAPS;

/// Requested secondary processor-based controls.
pub const SECONDARY_BASELINE: u64 = SECONDARY_ENABLE_RDTSCP | SECONDARY_ENABLE_XSAVES_XRSTORS
    | SECONDARY_ENABLE_INVPCID;

/// Requested VM-entry controls: the guest runs in 64-bit mode.
pub const ENTRY_BASELINE: u64 = ENTRY_IA32E_MODE_GUEST;

/// Requested VM-exit controls: the host runs in a 64-bit address space.
pub const EXIT_BASELINE: u64 = EXIT_HOST_ADDRESS_SPACE_SIZE;

/// One VMWRITE: a field encoding and the value stored in it.
#[derive(Debug, Clone, Copy, PartialEq, Eq, Structural)]
pub struct VmcsWrite {
    pub field: u32,
    pub value: u64,
}

/// What a VMREAD of `field` returns after `writes` were applied in order:
/// the value of the last write to that field, if any.
pub open spec fn read_field(writes: Seq<VmcsWrite>, field: u32) -> Option<u64>
    decreases writes.len(),
{
    if writes.len() == 0 {
        None
    } else if writes.last().field == field {
        Some(writes.last().value)
    } else {
        read_field(writes.drop_last(), field)
    }
}

/// The writes go to strictly increasing field encodings, so no field is
/// written twice.
pub open spec fn ascending(writes: Seq<VmcsWrite>) -> bool {
    forall|i: int, j: int| 0 <= i < j < writes.len() ==> writes[i].field < writes[j].field
}

/// Reading back any field of a list of writes to distinct fields yields the
/// value that was written to it.
pub proof fn lemma_ascending_read_back(writes: Seq<VmcsWrite>)
    requires
        ascending(writes),
    ensures
        forall|i: int|
            0 <= i < writes.len() ==> #[trigger] read_field(writes, writes[i].field) == Some(
                writes[i].value,
            ),
    decreases writes.len(),
{
    if writes.len() > 0 {
        let rest = writes.drop_last();
        assert(ascending(rest));
        lemma_ascending_read_back(rest);
        assert forall|i: int| 0 <= i < writes.len() implies #[trigger] read_field(
            writes,
            writes[i].field,
        ) == Some(writes[i].value) by {
            if i < writes.len() - 1 {
                assert(rest[i] == writes[i]);
                assert(writes[i].field < writes[writes.len() - 1].field);
                assert(read_field(rest, rest[i].field) == Some(rest[i].value));
            }
        }
    }
}

fn push_write(writes: &mut Vec<VmcsWrite>, field: u32, value: u64)
    requires
        ascending(old(writes)@),
        old(writes)@.len() == 0 || old(writes)@.last().field < field,
    ensures
        final(writes)@ == old(writes)@.push(VmcsWrite { field, value }),
        ascending(final(writes)@),
{
    writes.push(VmcsWrite { field, value });
}

/// The guest-state area built from the captured context, the processor state
/// and the guest's descriptor tables.
pub open spec fn guest_state_writes(
    context: Context,
    processor: ProcessorState,
    tables: DescriptorTables,
) -> Seq<VmcsWrite> {
    Seq::empty()
        .push(VmcsWrite { field: GUEST_ES_SELECTOR, value: context.seg_es as u64 })
        .push(VmcsWrite { field: GUEST_CS_SELECTOR, value: context.seg_cs as u64 })
        .push(VmcsWrite { field: GUEST_SS_SELECTOR, value: context.seg_ss as u64 })
        .push(VmcsWrite { field: GUEST_DS_SELECTOR, value: context.seg_ds as u64 })
        .push(VmcsWrite { field: GUEST_FS_SELECTOR, value: context.seg_fs as u64 })
        .push(VmcsWrite { field: GUEST_GS_SELECTOR, value: context.seg_gs as u64 })
        .push(VmcsWrite { field: GUEST_LDTR_SELECTOR, value: processor.ldtr as u64 })
        .push(VmcsWrite { field: GUEST_TR_SELECTOR, value: processor.tr as u64 })
        .push(VmcsWrite { field: GUEST_LINK_PTR_FULL, value: VMCS_LINK_NOT_IN_USE })
        .push(VmcsWrite { field: GUEST_IA32_DEBUGCTL_FULL, value: processor.debugctl })
        .push(VmcsWrite { field: GUEST_ES_LIMIT, value: tables.es.segment_limit as u64 })
        .push(VmcsWrite { field: GUEST_CS_LIMIT, value: tables.cs.segment_limit as u64 })
        .push(VmcsWrite { field: GUEST_SS_LIMIT, value: tables.ss.segment_limit as u64 })
        .push(VmcsWrite { field: GUEST_DS_LIMIT, value: tables.ds.segment_limit as u64 })
        .push(VmcsWrite { field: GUEST_FS_LIMIT, value: tables.fs.segment_limit as u64 })
        .push(VmcsWrite { field: GUEST_GS_LIMIT, value: tables.gs.segment_limit as u64 })
        .push(VmcsWrite { field: GUEST_LDTR_LIMIT, value: tables.ldtr.segment_limit as u64 })
        .push(VmcsWrite { field: GUEST_TR_LIMIT, value: tables.tr.segment_limit as u64 })
        .push(VmcsWrite { field: GUEST_GDTR_LIMIT, value: tables.gdtr_limit as u64 })
        .push(VmcsWrite { field: GUEST_IDTR_LIMIT, value: tables.idtr_limit as u64 })
        .push(VmcsWrite { field: GUEST_ES_ACCESS_RIGHTS, value: tables.es.access_rights as u64 })
        .push(VmcsWrite { field: GUEST_CS_ACCESS_RIGHTS, value: tables.cs.access_rights as u64 })
        .push(VmcsWrite { field: GUEST_SS_ACCESS_RIGHTS, value: tables.ss.access_rights as u64 })
        .push(VmcsWrite { field: GUEST_DS_ACCESS_RIGHTS, value: tables.ds.access_rights as u64 })
        .push(VmcsWrite { field: GUEST_FS_ACCESS_RIGHTS, value: tables.fs.access_rights as u64 })
        .push(VmcsWrite { field: GUEST_GS_ACCESS_RIGHTS, value: tables.gs.access_rights as u64 })
        .push(VmcsWrite { field: GUEST_LDTR_ACCESS_RIGHTS, value: tables.ldtr.access_rights as u64 })
        .push(VmcsWrite { field: GUEST_TR_ACCESS_RIGHTS, value: tables.tr.access_rights as u64 })
        .push(VmcsWrite { field: GUEST_IA32_SYSENTER_CS, value: processor.sysenter_cs })
        .push(VmcsWrite { field: GUEST_CR0, value: processor.cr0 })
        .push(VmcsWrite { field: GUEST_CR3, value: processor.cr3 })
        .push(VmcsWrite { field: GUEST_CR4, value: processor.cr4 })
        .push(VmcsWrite { field: GUEST_ES_BASE, value: tables.es.base_address })
        .push(VmcsWrite { field: GUEST_CS_BASE, value: tables.cs.base_address })
        .push(VmcsWrite { field: GUEST_SS_BASE, value: tables.ss.base_address })
        .push(VmcsWrite { field: GUEST_DS_BASE, value: tables.ds.base_address })
        .push(VmcsWrite { field: GUEST_FS_BASE, value: processor.fs_base })
        .push(VmcsWrite { field: GUEST_GS_BASE, value: processor.gs_base })
        .push(VmcsWrite { field: GUEST_LDTR_BASE, value: tables.ldtr.base_address })
        .push(VmcsWrite { field: GUEST_TR_BASE, value: tables.tr.base_address })
        .push(VmcsWrite { field: GUEST_GDTR_BASE, value: tables.gdtr_base })
        .push(VmcsWrite { field: GUEST_IDTR_BASE, value: tables.idtr_base })
        .push(VmcsWrite { field: GUEST_DR7, value: context.dr7 })
        .push(VmcsWrite { field: GUEST_RSP, value: context.rsp })
        .push(VmcsWrite { field: GUEST_RIP, value: context.rip })
        .push(VmcsWrite { field: GUEST_RFLAGS, value: context.eflags as u64 })
        .push(VmcsWrite { field: GUEST_IA32_SYSENTER_ESP, value: processor.sysenter_esp })
        .push(VmcsWrite { field: GUEST_IA32_SYSENTER_EIP, value: processor.sysenter_eip })
}

/// The host-state area built from the captured context, the processor state
/// and the host's descriptor tables. Host RSP and RIP are not part of it: they
/// are set where the entry code knows its own stack and resume address.
pub open spec fn host_state_writes(
    context: Context,
    processor: ProcessorState,
    tables: DescriptorTables,
) -> Seq<VmcsWrite> {
    Seq::empty()
        .push(VmcsWrite { field: HOST_ES_SELECTOR, value: (context.seg_es & HOST_SELECTOR_MASK) as u64 })
        .push(VmcsWrite { field: HOST_CS_SELECTOR, value: (context.seg_cs & HOST_SELECTOR_MASK) as u64 })
        .push(VmcsWrite { field: HOST_SS_SELECTOR, value: (context.seg_ss & HOST_SELECTOR_MASK) as u64 })
        .push(VmcsWrite { field: HOST_DS_SELECTOR, value: (context.seg_ds & HOST_SELECTOR_MASK) as u64 })
        .push(VmcsWrite { field: HOST_FS_SELECTOR, value: (context.seg_fs & HOST_SELECTOR_MASK) as u64 })
        .push(VmcsWrite { field: HOST_GS_SELECTOR, value: (context.seg_gs & HOST_SELECTOR_MASK) as u64 })
        .push(VmcsWrite { field: HOST_TR_SELECTOR, value: (processor.tr & HOST_SELECTOR_MASK) as u64 })
        .push(VmcsWrite { field: HOST_IA32_SYSENTER_CS, value: processor.sysenter_cs })
        .push(VmcsWrite { field: HOST_CR0, value: processor.cr0 })
        .push(VmcsWrite { field: HOST_CR3, value: processor.cr3 })
        .push(VmcsWrite { field: HOST_CR4, value: processor.cr4 })
        .push(VmcsWrite { field: HOST_FS_BASE, value: processor.fs_base })
        .push(VmcsWrite { field: HOST_GS_BASE, value: processor.gs_base })
        .push(VmcsWrite { field: HOST_TR_BASE, value: tables.tr.base_address })
        .push(VmcsWrite { field: HOST_GDTR_BASE, value: tables.gdtr_base })
        .push(VmcsWrite { field: HOST_IDTR_BASE, value: tables.idtr_base })
        .push(VmcsWrite { field: HOST_IA32_SYSENTER_ESP, value: processor.sysenter_esp })
        .push(VmcsWrite { field: HOST_IA32_SYSENTER_EIP, value: processor.sysenter_eip })
}

/// The control fields: each category adjusted from its baseline against the
/// processor's capabilities, the CR0/CR4 read shadows and the MSR bitmap.
pub open spec fn control_writes(
    caps: VmxCapabilities,
    processor: ProcessorState,
    msr_bitmap_address: u64,
) -> Seq<VmcsWrite> {
    Seq::empty()
        .push(VmcsWrite { field: CONTROL_MSR_BITMAPS_ADDR_FULL, value: msr_bitmap_address })
        .push(VmcsWrite { field: CONTROL_PINBASED_EXEC_CONTROLS, value: adjusted(caps.spec_capability(VmxControl::PinBased), PINBASED_BASELINE) })
        .push(VmcsWrite { field: CONTROL_PRIMARY_PROCBASED_EXEC_CONTROLS, value: adjusted(caps.spec_capability(VmxControl::ProcessorBased), PRIMARY_BASELINE) })
        .push(VmcsWrite { field: CONTROL_VMEXIT_CONTROLS, value: adjusted(caps.spec_capability(VmxControl::VmExit), EXIT_BASELINE) })
        .push(VmcsWrite { field: CONTROL_VMENTRY_CONTROLS, value: adjusted(caps.spec_capability(VmxControl::VmEntry), ENTRY_BASELINE) })
        .push(VmcsWrite { field: CONTROL_SECONDARY_PROCBASED_EXEC_CONTROLS, value: adjusted(caps.spec_capability(VmxControl::ProcessorBased2), SECONDARY_BASELINE) })
        .push(VmcsWrite { field: CONTROL_CR0_READ_SHADOW, value: processor.cr0 })
        .push(VmcsWrite { field: CONTROL_CR4_READ_SHADOW, value: processor.cr4 })
}

/// The fields a diagnostic snapshot of the VMCS shows, in order: the
/// guest-state area, the host-state area (host RSP and RIP included), then
/// the control fields.
pub open spec fn diagnostic_field_list() -> Seq<u32> {
    Seq::empty()
        .push(GUEST_CR0)
        .push(GUEST_CR3)
        .push(GUEST_CR4)
        .push(GUEST_DR7)
        .push(GUEST_RSP)
        .push(GUEST_RIP)
        .push(GUEST_RFLAGS)
        .push(GUEST_CS_SELECTOR)
        .push(GUEST_SS_SELECTOR)
        .push(GUEST_DS_SELECTOR)
        .push(GUEST_ES_SELECTOR)
        .push(GUEST_FS_SELECTOR)
        .push(GUEST_GS_SELECTOR)
        .push(GUEST_LDTR_SELECTOR)
        .push(GUEST_TR_SELECTOR)
        .push(GUEST_CS_BASE)
        .push(GUEST_SS_BASE)
        .push(GUEST_DS_BASE)
        .push(GUEST_ES_BASE)
        .push(GUEST_FS_BASE)
        .push(GUEST_GS_BASE)
        .push(GUEST_LDTR_BASE)
        .push(GUEST_TR_BASE)
        .push(GUEST_CS_LIMIT)
        .push(GUEST_SS_LIMIT)
        .push(GUEST_DS_LIMIT)
        .push(GUEST_ES_LIMIT)
        .push(GUEST_FS_LIMIT)
        .push(GUEST_GS_LIMIT)
        .push(GUEST_LDTR_LIMIT)
        .push(GUEST_TR_LIMIT)
        .push(GUEST_CS_ACCESS_RIGHTS)
        .push(GUEST_SS_ACCESS_RIGHTS)
        .push(GUEST_DS_ACCESS_RIGHTS)
        .push(GUEST_ES_ACCESS_RIGHTS)
        .push(GUEST_FS_ACCESS_RIGHTS)
        .push(GUEST_GS_ACCESS_RIGHTS)
        .push(GUEST_LDTR_ACCESS_RIGHTS)
        .push(GUEST_TR_ACCESS_RIGHTS)
        .push(GUEST_GDTR_BASE)
        .push(GUEST_IDTR_BASE)
        .push(GUEST_GDTR_LIMIT)
        .push(GUEST_IDTR_LIMIT)
        .push(GUEST_IA32_DEBUGCTL_FULL)
        .push(GUEST_IA32_SYSENTER_CS)
        .push(GUEST_IA32_SYSENTER_ESP)
        .push(GUEST_IA32_SYSENTER_EIP)
        .push(GUEST_LINK_PTR_FULL)
        .push(HOST_CR0)
        .push(HOST_CR3)
        .push(HOST_CR4)
        .push(HOST_RSP)
        .push(HOST_RIP)
        .push(HOST_CS_SELECTOR)
        .push(HOST_SS_SELECTOR)
        .push(HOST_DS_SELECTOR)
        .push(HOST_ES_SELECTOR)
        .push(HOST_FS_SELECTOR)
        .push(HOST_GS_SELECTOR)
        .push(HOST_TR_SELECTOR)
        .push(HOST_FS_BASE)
        .push(HOST_GS_BASE)
        .push(HOST_TR_BASE)
        .push(HOST_GDTR_BASE)
        .push(HOST_IDTR_BASE)
        .push(HOST_IA32_SYSENTER_CS)
        .push(HOST_IA32_SYSENTER_ESP)
        .push(HOST_IA32_SYSENTER_EIP)
        .push(CONTROL_PRIMARY_PROCBASED_EXEC_CONTROLS)
        .push(CONTROL_SECONDARY_PROCBASED_EXEC_CONTROLS)
        .push(CONTROL_VMENTRY_CONTROLS)
        .push(CONTROL_VMEXIT_CONTROLS)
        .push(CONTROL_PINBASED_EXEC_CONTROLS)
        .push(CONTROL_CR0_READ_SHADOW)
        .push(CONTROL_CR4_READ_SHADOW)
        .push(CONTROL_MSR_BITMAPS_ADDR_FULL)
}

/// The revision identifier that IA32_VMX_BASIC reports, bit 31 clear.
pub open spec fn vmcs_revision(vmx_basic: u64) -> u32 {
    (vmx_basic as u32) & 0x7FFF_FFFF
}

/// A host selector with the RPL and table-indicator bits masked off has
/// those three bits clear, and keeps every other bit of the selector.
pub proof fn lemma_host_selector_masked(selector: u16)
    ensures
        ((selector & HOST_SELECTOR_MASK) as u64) & 7 == 0,
        ((selector & HOST_SELECTOR_MASK) as u64) == (selector as u64) & !7u64,
{
    assert(((selector & 0xFFF8u16) as u64) & 7 == 0) by (bit_vector);
    assert(((selector & 0xFFF8u16) as u64) == (selector as u64) & !7u64) by (bit_vector);
}

/// Relies on bitfield's `BitMut::set_bit` for `u32`: setting a bit to `false`
/// clears that bit and leaves the others as they were.
#[verifier::external_body]
fn bit_cleared(value: u32, bit: usize) -> (r: u32)
    requires
        bit < 32,
    ensures
        r == value & !(1u32 << bit),
{
    let mut v = value;
    bitfield::BitMut::set_bit(&mut v, bit, false);
    v
}

/// The region that holds one VMCS: a revision identifier, an abort indicator
/// the processor writes, and data in a format of the processor's own.
pub struct Vmcs {
    pub revision_id: u32,
    pub abort_indicator: u32,
    pub reserved: [u8; 4088],
}

impl Vmcs {
    /// Builds the host-state area of the VMCS. Every host selector is written
    /// with its low three bits cleared.
    pub fn setup_host_registers_state(
        context: &Context,
        processor: &ProcessorState,
        tables: &DescriptorTables,
    ) -> (r: Vec<VmcsWrite>)
        ensures
            r@ == host_state_writes(*context, *processor, *tables),
            ascending(r@),
            forall|i: int|
                0 <= i < r@.len() ==> #[trigger] read_field(r@, r@[i].field) == Some(r@[i].value),
            read_field(r@, HOST_ES_SELECTOR) == Some((context.seg_es & HOST_SELECTOR_MASK) as u64),
            read_field(r@, HOST_CS_SELECTOR) == Some((context.seg_cs & HOST_SELECTOR_MASK) as u64),
            read_field(r@, HOST_SS_SELECTOR) == Some((context.seg_ss & HOST_SELECTOR_MASK) as u64),
            read_field(r@, HOST_DS_SELECTOR) == Some((context.seg_ds & HOST_SELECTOR_MASK) as u64),
            read_field(r@, HOST_FS_SELECTOR) == Some((context.seg_fs & HOST_SELECTOR_MASK) as u64),
            read_field(r@, HOST_GS_SELECTOR) == Some((context.seg_gs & HOST_SELECTOR_MASK) as u64),
            read_field(r@, HOST_TR_SELECTOR) == Some((processor.tr & HOST_SELECTOR_MASK) as u64),
    {
        let mut writes: Vec<VmcsWrite> = Vec::new();
        push_write(&mut writes, HOST_ES_SELECTOR, (context.seg_es & HOST_SELECTOR_MASK) as u64);
        push_write(&mut writes, HOST_CS_SELECTOR, (context.seg_cs & HOST_SELECTOR_MASK) as u64);
        push_write(&mut writes, HOST_SS_SELECTOR, (context.seg_ss & HOST_SELECTOR_MASK) as u64);
        push_write(&mut writes, HOST_DS_SELECTOR, (context.seg_ds & HOST_SELECTOR_MASK) as u64);
        push_write(&mut writes, HOST_FS_SELECTOR, (context.seg_fs & HOST_SELECTOR_MASK) as u64);
        push_write(&mut writes, HOST_GS_SELECTOR, (context.seg_gs & HOST_SELECTOR_MASK) as u64);
        push_write(&mut writes, HOST_TR_SELECTOR, (processor.tr & HOST_SELECTOR_MASK) as u64);
        push_write(&mut writes, HOST_IA32_SYSENTER_CS, processor.sysenter_cs);
        push_write(&mut writes, HOST_CR0, processor.cr0);
        push_write(&mut writes, HOST_CR3, processor.cr3);
        push_write(&mut writes, HOST_CR4, processor.cr4);
        push_write(&mut writes, HOST_FS_BASE, processor.fs_base);
        push_write(&mut writes, HOST_GS_BASE, processor.gs_base);
        push_write(&mut writes, HOST_TR_BASE, tables.tr.base_address);
        push_write(&mut writes, HOST_GDTR_BASE, tables.gdtr_base);
        push_write(&mut writes, HOST_IDTR_BASE, tables.idtr_base);
        push_write(&mut writes, HOST_IA32_SYSENTER_ESP, processor.sysenter_esp);
        push_write(&mut writes, HOST_IA32_SYSENTER_EIP, processor.sysenter_eip);
        proof {
            lemma_ascending_read_back(writes@);
            assert(writes@[0].field == HOST_ES_SELECTOR);
            assert(writes@[1].field == HOST_CS_SELECTOR);
            assert(writes@[2].field == HOST_SS_SELECTOR);
            assert(writes@[3].field == HOST_DS_SELECTOR);
            assert(writes@[4].field == HOST_FS_SELECTOR);
            assert(writes@[5].field == HOST_GS_SELECTOR);
            assert(writes@[6].field == HOST_TR_SELECTOR);
        }
        writes
    }

    /// Builds the control fields of the VMCS.
    pub fn setup_vmcs_control_fields(
        caps: &VmxCapabilities,
        processor: &ProcessorState,
        msr_bitmap_address: u64,
    ) -> (r: Vec<VmcsWrite>)
        ensures
            r@ == control_writes(*caps, *processor, msr_bitmap_address),
            ascending(r@),
            forall|i: int|
                0 <= i < r@.len() ==> #[trigger] read_field(r@, r@[i].field) == Some(r@[i].value),
    {
        let mut writes: Vec<VmcsWrite> = Vec::new();
        push_write(&mut writes, CONTROL_MSR_BITMAPS_ADDR_FULL, msr_bitmap_address);
        let value = adjust_vmx_controls(caps, VmxControl::PinBased, PINBASED_BASELINE);
        push_write(&mut writes, CONTROL_PINBASED_EXEC_CONTROLS, value);
        let value = adjust_vmx_controls(caps, VmxControl::ProcessorBased, PRIMARY_BASELINE);
        push_write(&mut writes, CONTROL_PRIMARY_PROCBASED_EXEC_CONTROLS, value);
        let value = adjust_vmx_controls(caps, VmxControl::VmExit, EXIT_BASELINE);
        push_write(&mut writes, CONTROL_VMEXIT_CONTROLS, value);
        let value = adjust_vmx_controls(caps, VmxControl::VmEntry, ENTRY_BASELINE);
        push_write(&mut writes, CONTROL_VMENTRY_CONTROLS, value);
        let value = adjust_vmx_controls(caps, VmxControl::ProcessorBased2, SECONDARY_BASELINE);
        push_write(&mut writes, CONTROL_SECONDARY_PROCBASED_EXEC_CONTROLS, value);
        push_write(&mut writes, CONTROL_CR0_READ_SHADOW, processor.cr0);
        push_write(&mut writes, CONTROL_CR4_READ_SHADOW, processor.cr4);
        proof {
            lemma_ascending_read_back(writes@);
        }
        writes
    }

    /// The fields a diagnostic snapshot of the VMCS reads.
    pub fn diagnostic_fields() -> (r: Vec<u32>)
        ensures
            r@ == diagnostic_field_list(),
    {
        let mut fields: Vec<u32> = Vec::new();
        fields.push(GUEST_CR0);
        fields.push(GUEST_CR3);
        fields.push(GUEST_CR4);
        fields.push(GUEST_DR7);
        fields.push(GUEST_RSP);
        fields.push(GUEST_RIP);
        fields.push(GUEST_RFLAGS);
        fields.push(GUEST_CS_SELECTOR);
        fields.push(GUEST_SS_SELECTOR);
        fields.push(GUEST_DS_SELECTOR);
        fields.push(GUEST_ES_SELECTOR);
        fields.push(GUEST_FS_SELECTOR);
        fields.push(GUEST_GS_SELECTOR);
        fields.push(GUEST_LDTR_SELECTOR);
        fields.push(GUEST_TR_SELECTOR);
        fields.push(GUEST_CS_BASE);
        fields.push(GUEST_SS_BASE);
        fields.push(GUEST_DS_BASE);
        fields.push(GUEST_ES_BASE);
        fields.push(GUEST_FS_BASE);
        fields.push(GUEST_GS_BASE);
        fields.push(GUEST_LDTR_BASE);
        fields.push(GUEST_TR_BASE);
        fields.push(GUEST_CS_LIMIT);
        fields.push(GUEST_SS_LIMIT);
        fields.push(GUEST_DS_LIMIT);
        fields.push(GUEST_ES_LIMIT);
        fields.push(GUEST_FS_LIMIT);
        fields.push(GUEST_GS_LIMIT);
        fields.push(GUEST_LDTR_LIMIT);
        fields.push(GUEST_TR_LIMIT);
        fields.push(GUEST_CS_ACCESS_RIGHTS);
        fields.push(GUEST_SS_ACCESS_RIGHTS);
        fields.push(GUEST_DS_ACCESS_RIGHTS);
        fields.push(GUEST_ES_ACCESS_RIGHTS);
        fields.push(GUEST_FS_ACCESS_RIGHTS);
        fields.push(GUEST_GS_ACCESS_RIGHTS);
        fields.push(GUEST_LDTR_ACCESS_RIGHTS);
        fields.push(GUEST_TR_ACCESS_RIGHTS);
        fields.push(GUEST_GDTR_BASE);
        fields.push(GUEST_IDTR_BASE);
        fields.push(GUEST_GDTR_LIMIT);
        fields.push(GUEST_IDTR_LIMIT);
        fields.push(GUEST_IA32_DEBUGCTL_FULL);
        fields.push(GUEST_IA32_SYSENTER_CS);
        fields.push(GUEST_IA32_SYSENTER_ESP);
        fields.push(GUEST_IA32_SYSENTER_EIP);
        fields.push(GUEST_LINK_PTR_FULL);
        fields.push(HOST_CR0);
        fields.push(HOST_CR3);
        fields.push(HOST_CR4);
        fields.push(HOST_RSP);
        fields.push(HOST_RIP);
        fields.push(HOST_CS_SELECTOR);
        fields.push(HOST_SS_SELECTOR);
        fields.push(HOST_DS_SELECTOR);
        fields.push(HOST_ES_SELECTOR);
        fields.push(HOST_FS_SELECTOR);
        fields.push(HOST_GS_SELECTOR);
        fields.push(HOST_TR_SELECTOR);
        fields.push(HOST_FS_BASE);
        fields.push(HOST_GS_BASE);
        fields.push(HOST_TR_BASE);
        fields.push(HOST_GDTR_BASE);
        fields.push(HOST_IDTR_BASE);
        fields.push(HOST_IA32_SYSENTER_CS);
        fields.push(HOST_IA32_SYSENTER_ESP);
        fields.push(HOST_IA32_SYSENTER_EIP);
        fields.push(CONTROL_PRIMARY_PROCBASED_EXEC_CONTROLS);
        fields.push(CONTROL_SECONDARY_PROCBASED_EXEC_CONTROLS);
        fields.push(CONTROL_VMENTRY_CONTROLS);
        fields.push(CONTROL_VMEXIT_CONTROLS);
        fields.push(CONTROL_PINBASED_EXEC_CONTROLS);
        fields.push(CONTROL_CR0_READ_SHADOW);
        fields.push(CONTROL_CR4_READ_SHADOW);
        fields.push(CONTROL_MSR_BITMAPS_ADDR_FULL);
        fields
    }

    /// The VMCS revision identifier from the value of IA32_VMX_BASIC.
    pub fn get_vmcs_revision_id(vmx_basic: u64) -> (r: u32)
        ensures
            r == vmcs_revision(vmx_basic),
    {
        (vmx_basic as u32) & 0x7FFF_FFFF
    }

    /// Makes the zeroed region at `physical_address` the current VMCS of the
    /// processor: the address must be valid; the region takes the
    /// processor's revision identifier with bit 31 (shadow VMCS) clear; then
    /// VMCLEAR and, once that succeeded, VMPTRLD of that address are issued
    /// on `cpu`. A failure of either is reported with its own kind.
    pub fn setup<H: VmxInstructions>(
        vmcs_region: &mut Vmcs,
        cpu: &mut VmxCpu<H>,
        physical_address: u64,
        vmx_basic: u64,
    ) -> (r: Result<(), HypervisorError>)
        ensures
            physical_address == 0 ==> {
                &&& r == Err::<(), HypervisorError>(
                    HypervisorError::VirtualToPhysicalAddressFailed,
                )
                &&& final(cpu).log() == old(cpu).log()
                &&& final(vmcs_region).revision_id == old(vmcs_region).revision_id
            },
            physical_address != 0 ==> {
                let issued = issued_since(old(cpu).log(), final(cpu).log());
                &&& extends(old(cpu).log(), final(cpu).log())
                &&& final(vmcs_region).revision_id == vmcs_revision(vmx_basic)
                &&& issued.len() >= 1
                &&& issued[0].instruction == Instruction::Vmclear { address: physical_address }
                &&& !issued[0].succeeded ==> issued.len() == 1 && r == Err::<(), HypervisorError>(
                    HypervisorError::VMCLEARFailed,
                )
                &&& issued[0].succeeded ==> {
                    &&& issued.len() == 2
                    &&& issued[1].instruction == Instruction::Vmptrld { address: physical_address }
                    &&& r is Ok <==> issued[1].succeeded
                    &&& !issued[1].succeeded ==> r == Err::<(), HypervisorError>(
                        HypervisorError::VMPTRLDFailed,
                    )
                }
            },
            r is Ok ==> current_vmcs_of(final(cpu).log()) == Some(physical_address),
            final(vmcs_region).abort_indicator == old(vmcs_region).abort_indicator,
            final(vmcs_region).reserved == old(vmcs_region).reserved,
    {
        if physical_address == 0 {
            return Err(HypervisorError::VirtualToPhysicalAddressFailed);
        }
        let revision = vmx_basic as u32;
        let cleared = bit_cleared(revision, 31);
        assert(cleared == vmcs_revision(vmx_basic)) by (bit_vector)
            requires
                revision == vmx_basic as u32,
                cleared == revision & !(1u32 << 31usize),
        ;
        vmcs_region.revision_id = cleared;
        let ghost log0 = cpu.log();
        let clear = cpu.execute(Instruction::Vmclear { address: physical_address });
        proof {
            assert(log0.subrange(0, log0.len() as int) =~= log0);
            assert(cpu.log().subrange(0, log0.len() as int) =~= log0);
            assert(issued_since(log0, cpu.log()) =~= seq![clear]);
        }
        if !clear.succeeded {
            return Err(HypervisorError::VMCLEARFailed);
        }
        proof {
            assert(cpu.log()[cpu.log().len() - 1] == clear);
        }
        let load = cpu.execute(Instruction::Vmptrld { address: physical_address });
        proof {
            assert(cpu.log().subrange(0, log0.len() as int) =~= log0);
            assert(issued_since(log0, cpu.log()) =~= seq![clear].push(load));
            assert(cpu.log().drop_last() =~= log0.push(clear));
        }
        if !load.succeeded {
            return Err(HypervisorError::VMPTRLDFailed);
        }
        Ok(())
    }

    /// Builds the guest-state area of the VMCS from the captured context, and
    /// saves the registers that the VMCS has no field for.
    pub fn setup_guest_registers_state(
        context: &Context,
        processor: &ProcessorState,
        tables: &DescriptorTables,
        guest_registers: &mut GuestRegisters,
    ) -> (r: Vec<VmcsWrite>)
        ensures
            r@ == guest_state_writes(*context, *processor, *tables),
            ascending(r@),
            forall|i: int|
                0 <= i < r@.len() ==> #[trigger] read_field(r@, r@[i].field) == Some(r@[i].value),
            final(guest_registers).saved_from(*context),
    {
        let mut writes: Vec<VmcsWrite> = Vec::new();
        push_write(&mut writes, GUEST_ES_SELECTOR, context.seg_es as u64);
        push_write(&mut writes, GUEST_CS_SELECTOR, context.seg_cs as u64);
        push_write(&mut writes, GUEST_SS_SELECTOR, context.seg_ss as u64);
        push_write(&mut writes, GUEST_DS_SELECTOR, context.seg_ds as u64);
        push_write(&mut writes, GUEST_FS_SELECTOR, context.seg_fs as u64);
        push_write(&mut writes, GUEST_GS_SELECTOR, context.seg_gs as u64);
        push_write(&mut writes, GUEST_LDTR_SELECTOR, processor.ldtr as u64);
        push_write(&mut writes, GUEST_TR_SELECTOR, processor.tr as u64);
        push_write(&mut writes, GUEST_LINK_PTR_FULL, VMCS_LINK_NOT_IN_USE);
        push_write(&mut writes, GUEST_IA32_DEBUGCTL_FULL, processor.debugctl);
        push_write(&mut writes, GUEST_ES_LIMIT, tables.es.segment_limit as u64);
        push_write(&mut writes, GUEST_CS_LIMIT, tables.cs.segment_limit as u64);
        push_write(&mut writes, GUEST_SS_LIMIT, tables.ss.segment_limit as u64);
        push_write(&mut writes, GUEST_DS_LIMIT, tables.ds.segment_limit as u64);
        push_write(&mut writes, GUEST_FS_LIMIT, tables.fs.segment_limit as u64);
        push_write(&mut writes, GUEST_GS_LIMIT, tables.gs.segment_limit as u64);
        push_write(&mut writes, GUEST_LDTR_LIMIT, tables.ldtr.segment_limit as u64);
        push_write(&mut writes, GUEST_TR_LIMIT, tables.tr.segment_limit as u64);
        push_write(&mut writes, GUEST_GDTR_LIMIT, tables.gdtr_limit as u64);
        push_write(&mut writes, GUEST_IDTR_LIMIT, tables.idtr_limit as u64);
        push_write(&mut writes, GUEST_ES_ACCESS_RIGHTS, tables.es.access_rights as u64);
        push_write(&mut writes, GUEST_CS_ACCESS_RIGHTS, tables.cs.access_rights as u64);
        push_write(&mut writes, GUEST_SS_ACCESS_RIGHTS, tables.ss.access_rights as u64);
        push_write(&mut writes, GUEST_DS_ACCESS_RIGHTS, tables.ds.access_rights as u64);
        push_write(&mut writes, GUEST_FS_ACCESS_RIGHTS, tables.fs.access_rights as u64);
        push_write(&mut writes, GUEST_GS_ACCESS_RIGHTS, tables.gs.access_rights as u64);
        push_write(&mut writes, GUEST_LDTR_ACCESS_RIGHTS, tables.ldtr.access_rights as u64);
        push_write(&mut writes, GUEST_TR_ACCESS_RIGHTS, tables.tr.access_rights as u64);
        push_write(&mut writes, GUEST_IA32_SYSENTER_CS, processor.sysenter_cs);
        push_write(&mut writes, GUEST_CR0, processor.cr0);
        push_write(&mut writes, GUEST_CR3, processor.cr3);
        push_write(&mut writes, GUEST_CR4, processor.cr4);
        push_write(&mut writes, GUEST_ES_BASE, tables.es.base_address);
        push_write(&mut writes, GUEST_CS_BASE, tables.cs.base_address);
        push_write(&mut writes, GUEST_SS_BASE, tables.ss.base_address);
        push_write(&mut writes, GUEST_DS_BASE, tables.ds.base_address);
        push_write(&mut writes, GUEST_FS_BASE, processor.fs_base);
        push_write(&mut writes, GUEST_GS_BASE, processor.gs_base);
        push_write(&mut writes, GUEST_LDTR_BASE, tables.ldtr.base_address);
        push_write(&mut writes, GUEST_TR_BASE, tables.tr.base_address);
        push_write(&mut writes, GUEST_GDTR_BASE, tables.gdtr_base);
        push_write(&mut writes, GUEST_IDTR_BASE, tables.idtr_base);
        push_write(&mut writes, GUEST_DR7, context.dr7);
        push_write(&mut writes, GUEST_RSP, context.rsp);
        push_write(&mut writes, GUEST_RIP, context.rip);
        push_write(&mut writes, GUEST_RFLAGS, context.eflags as u64);
        push_write(&mut writes, GUEST_IA32_SYSENTER_ESP, processor.sysenter_esp);
        push_write(&mut writes, GUEST_IA32_SYSENTER_EIP, processor.sysenter_eip);
        guest_registers.save_from(context);
        proof {
            lemma_ascending_read_back(writes@);
        }
        writes
    }
}

} // verus!
