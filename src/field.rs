//! Encodings of the VMCS fields that this crate reads and writes.
use vstd::prelude::*;

verus! {

// Guest-state area.
pub const GUEST_ES_SELECTOR: u32 = 0x0800;
pub const GUEST_CS_SELECTOR: u32 = 0x0802;
pub const GUEST_SS_SELECTOR: u32 = 0x0804;
pub const GUEST_DS_SELECTOR: u32 = 0x0806;
pub const GUEST_FS_SELECTOR: u32 = 0x0808;
pub const GUEST_GS_SELECTOR: u32 = 0x080a;
pub const GUEST_LDTR_SELECTOR: u32 = 0x080c;
pub const GUEST_TR_SELECTOR: u32 = 0x080e;
pub const GUEST_LINK_PTR_FULL: u32 = 0x2800;
pub const GUEST_IA32_DEBUGCTL_FULL: u32 = 0x2802;
pub const GUEST_ES_LIMIT: u32 = 0x4800;
pub const GUEST_CS_LIMIT: u32 = 0x4802;
pub const GUEST_SS_LIMIT: u32 = 0x4804;
pub const GUEST_DS_LIMIT: u32 = 0x4806;
pub const GUEST_FS_LIMIT: u32 = 0x4808;
pub const GUEST_GS_LIMIT: u32 = 0x480a;
pub const GUEST_LDTR_LIMIT: u32 = 0x480c;
pub const GUEST_TR_LIMIT: u32 = 0x480e;
pub const GUEST_GDTR_LIMIT: u32 = 0x4810;
pub const GUEST_IDTR_LIMIT: u32 = 0x4812;
pub const GUEST_ES_ACCESS_RIGHTS: u32 = 0x4814;
pub const GUEST_CS_ACCESS_RIGHTS: u32 = 0x4816;
pub const GUEST_SS_ACCESS_RIGHTS: u32 = 0x4818;
pub const GUEST_DS_ACCESS_RIGHTS: u32 = 0x481a;
pub const GUEST_FS_ACCESS_RIGHTS: u32 = 0x481c;
pub const GUEST_GS_ACCESS_RIGHTS: u32 = 0x481e;
pub const GUEST_LDTR_ACCESS_RIGHTS: u32 = 0x4820;
pub const GUEST_TR_ACCESS_RIGHTS: u32 = 0x4822;
pub const GUEST_IA32_SYSENTER_CS: u32 = 0x482a;
pub const GUEST_CR0: u32 = 0x6800;
pub const GUEST_CR3: u32 = 0x6802;
pub const GUEST_CR4: u32 = 0x6804;
pub const GUEST_ES_BASE: u32 = 0x6806;
pub const GUEST_CS_BASE: u32 = 0x6808;
pub const GUEST_SS_BASE: u32 = 0x680a;
pub const GUEST_DS_BASE: u32 = 0x680c;
pub const GUEST_FS_BASE: u32 = 0x680e;
pub const GUEST_GS_BASE: u32 = 0x6810;
pub const GUEST_LDTR_BASE: u32 = 0x6812;
pub const GUEST_TR_BASE: u32 = 0x6814;
pub const GUEST_GDTR_BASE: u32 = 0x6816;
pub const GUEST_IDTR_BASE: u32 = 0x6818;
pub const GUEST_DR7: u32 = 0x681a;
pub const GUEST_RSP: u32 = 0x681c;
pub const GUEST_RIP: u32 = 0x681e;
pub const GUEST_RFLAGS: u32 = 0x6820;
pub const GUEST_IA32_SYSENTER_ESP: u32 = 0x6824;
pub const GUEST_IA32_SYSENTER_EIP: u32 = 0x6826;

// Host-state area.
pub const HOST_ES_SELECTOR: u32 = 0x0c00;
pub const HOST_CS_SELECTOR: u32 = 0x0c02;
pub const HOST_SS_SELECTOR: u32 = 0x0c04;
pub const HOST_DS_SELECTOR: u32 = 0x0c06;
pub const HOST_FS_SELECTOR: u32 = 0x0c08;
pub const HOST_GS_SELECTOR: u32 = 0x0c0a;
pub const HOST_TR_SELECTOR: u32 = 0x0c0c;
pub const HOST_IA32_SYSENTER_CS: u32 = 0x4c00;
pub const HOST_CR0: u32 = 0x6c00;
pub const HOST_CR3: u32 = 0x6c02;
pub const HOST_CR4: u32 = 0x6c04;
pub const HOST_FS_BASE: u32 = 0x6c06;
pub const HOST_GS_BASE: u32 = 0x6c08;
pub const HOST_TR_BASE: u32 = 0x6c0a;
pub const HOST_GDTR_BASE: u32 = 0x6c0c;
pub const HOST_IDTR_BASE: u32 = 0x6c0e;
pub const HOST_IA32_SYSENTER_ESP: u32 = 0x6c10;
pub const HOST_IA32_SYSENTER_EIP: u32 = 0x6c12;
pub const HOST_RSP: u32 = 0x6c14;
pub const HOST_RIP: u32 = 0x6c16;

// Control fields.
pub const CONTROL_MSR_BITMAPS_ADDR_FULL: u32 = 0x2004;
pub const CONTROL_PINBASED_EXEC_CONTROLS: u32 = 0x4000;
pub const CONTROL_PRIMARY_PROCBASED_EXEC_CONTROLS: u32 = 0x4002;
pub const CONTROL_VMEXIT_CONTROLS: u32 = 0x400c;
pub const CONTROL_VMENTRY_CONTROLS: u32 = 0x4012;
pub const CONTROL_SECONDARY_PROCBASED_EXEC_CONTROLS: u32 = 0x401e;
pub const CONTROL_CR0_READ_SHADOW: u32 = 0x6004;
pub const CONTROL_CR4_READ_SHADOW: u32 = 0x6006;

// Bits of the control fields.
pub const PRIMARY_USE_MSR_BITMAPS: u64 = 0x1000_0000;
pub const PRIMARY_SECONDARY_CONTROLS: u64 = 0x8000_0000;
pub const SECONDARY_ENABLE_RDTSCP: u64 = 0x8;
pub const SECONDARY_ENABLE_INVPCID: u64 = 0x1000;
pub const SECONDARY_ENABLE_XSAVES_XRSTORS: u64 = 0x10_0000;
pub const ENTRY_IA32E_MODE_GUEST: u64 = 0x200;
pub const EXIT_HOST_ADDRESS_SPACE_SIZE: u64 = 0x200;

} // verus!
