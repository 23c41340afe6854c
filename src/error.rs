use vstd::prelude::*;

verus! {

/// One kind per hardware step that can fail.
#[derive(Debug, Clone, Copy, PartialEq, Eq, Structural)]
pub enum HypervisorError {
    CPUUnsupported,
    VMXUnsupported,
    VMXBIOSLock,
    MemoryAllocationFailed,
    VirtualToPhysicalAddressFailed,
    VMXONFailed,
    VMXOFFFailed,
    VMCLEARFailed,
    VMPTRLDFailed,
    VMREADFailed,
    VMWRITEFailed,
    VMLAUNCHFailed,
    ProcessorSwitchFailed,
    VcpuIsNone,
}

} // verus!
