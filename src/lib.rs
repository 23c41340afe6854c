//! VMX enablement and VMCS lifecycle for one logical processor.

pub mod context;
pub mod controls;
pub mod error;
pub mod field;
pub mod vmcs;
pub mod vmx;
pub mod vmxon;
pub mod vcpu;
