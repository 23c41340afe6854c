use std::collections::HashMap;

use hypervisor::context::{
    Context, DescriptorTables, GuestRegisters, M128, ProcessorState, SegmentDescriptor,
};
use hypervisor::controls::VmxCapabilities;
use hypervisor::error::HypervisorError;
use hypervisor::field::{
    CONTROL_CR0_READ_SHADOW, CONTROL_MSR_BITMAPS_ADDR_FULL, CONTROL_PINBASED_EXEC_CONTROLS,
    CONTROL_PRIMARY_PROCBASED_EXEC_CONTROLS, GUEST_CR3, GUEST_CS_SELECTOR, GUEST_RIP, GUEST_RSP,
};
use hypervisor::vcpu::Vcpu;
use hypervisor::vmcs::Vmcs;
use hypervisor::vmx::{read_fields, Instruction, Stage, Vmx, VmxCpu, VmxInstructions, VmxSetup};
use hypervisor::vmxon::Vmxon;

#[derive(Default)]
struct MockCpu {
    log: Vec<Instruction>,
    vmcs: HashMap<u32, u64>,
    fail_vmxon: bool,
    fail_vmclear: bool,
    fail_vmptrld: bool,
    fail_vmwrite_at: Option<usize>,
    fail_vmlaunch: bool,
    vmwrites: usize,
    vmreads: usize,
}

impl VmxInstructions for MockCpu {
    fn vmxon(&mut self, address: u64) -> bool {
        self.log.push(Instruction::Vmxon { address });
        !self.fail_vmxon
    }

    fn vmclear(&mut self, address: u64) -> bool {
        self.log.push(Instruction::Vmclear { address });
        !self.fail_vmclear
    }

    fn vmptrld(&mut self, address: u64) -> bool {
        self.log.push(Instruction::Vmptrld { address });
        !self.fail_vmptrld
    }

    fn vmread(&mut self, field: u32) -> Option<u64> {
        self.vmreads += 1;
        self.vmcs.get(&field).copied()
    }

    fn vmwrite(&mut self, field: u32, value: u64) -> bool {
        self.log.push(Instruction::Vmwrite { field, value });
        let index = self.vmwrites;
        self.vmwrites += 1;
        if self.fail_vmwrite_at == Some(index) {
            return false;
        }
        self.vmcs.insert(field, value);
        true
    }

    fn vmlaunch(&mut self) -> bool {
        self.log.push(Instruction::Vmlaunch);
        !self.fail_vmlaunch
    }
}

fn segment(n: u64) -> SegmentDescriptor {
    SegmentDescriptor { base_address: 0x1_0000 * n, segment_limit: 0xFFFF, access_rights: 0x93 }
}

fn fixture_setup() -> VmxSetup {
    let mut xmm = [M128 { low: 0, high: 0 }; 16];
    for (i, lane) in xmm.iter_mut().enumerate() {
        *lane = M128 { low: i as u64, high: 100 + i as u64 };
    }
    let context = Context {
        rax: 1,
        rbx: 2,
        rcx: 3,
        rdx: 4,
        rsi: 5,
        rdi: 6,
        rbp: 7,
        rsp: 0x2000,
        r8: 8,
        r9: 9,
        r10: 10,
        r11: 11,
        r12: 12,
        r13: 13,
        r14: 14,
        r15: 15,
        rip: 0x1000,
        eflags: 0x202,
        dr7: 0x400,
        seg_cs: 0x10,
        seg_ss: 0x18,
        seg_ds: 0x2B,
        seg_es: 0x2B,
        seg_fs: 0x53,
        seg_gs: 0x2B,
        xmm,
    };
    let processor = ProcessorState {
        cr0: 0x8005_0033,
        cr3: 0x3000,
        cr4: 0x0037_06F8,
        ldtr: 0,
        tr: 0x40,
        fs_base: 0xFFFF_F800_0000_1000,
        gs_base: 0xFFFF_F800_0000_2000,
        debugctl: 0,
        sysenter_cs: 0x10,
        sysenter_esp: 0xFFFF_F800_0000_3000,
        sysenter_eip: 0xFFFF_F800_0000_4000,
    };
    let tables = DescriptorTables {
        gdtr_base: 0xFFFF_F800_0000_5000,
        gdtr_limit: 0x57,
        idtr_base: 0xFFFF_F800_0000_6000,
        idtr_limit: 0xFFF,
        es: segment(1),
        cs: segment(2),
        ss: segment(3),
        ds: segment(4),
        fs: segment(5),
        gs: segment(6),
        ldtr: segment(7),
        tr: segment(8),
    };
    let capabilities = VmxCapabilities {
        basic: 0x00DA_0400_0000_0004,
        pinbased: 0x0000_007F_0000_0016,
        procbased: 0xFFF9_FFFE_0401_E172,
        procbased2: 0x00F3_FFFF_0000_0000,
        exit: 0x01FF_FFFF_0003_6DFF,
        entry: 0x0003_FFFF_0000_11FF,
        true_pinbased: 0x0000_007F_0000_0016,
        true_procbased: 0xFFF9_FFFE_0400_6172,
        true_exit: 0x01FF_FFFF_0003_6DFB,
        true_entry: 0x0003_FFFF_0000_11FB,
    };
    VmxSetup {
        context,
        processor,
        guest_tables: tables,
        host_tables: tables,
        capabilities,
        vmxon_address: 0x10_0000,
        vmcs_address: 0x20_0000,
        msr_bitmap_address: 0x30_0000,
    }
}

fn regions() -> (Box<Vmxon>, Box<Vmcs>, GuestRegisters) {
    let vmxon = Box::new(Vmxon { revision_id: 0, data: [0; 4092] });
    let vmcs = Box::new(Vmcs { revision_id: 0, abort_indicator: 0, reserved: [0; 4088] });
    let registers = GuestRegisters {
        rax: 0,
        rbx: 0,
        rcx: 0,
        rdx: 0,
        rdi: 0,
        rsi: 0,
        rbp: 0,
        r8: 0,
        r9: 0,
        r10: 0,
        r11: 0,
        r12: 0,
        r13: 0,
        r14: 0,
        r15: 0,
        xmm: [M128 { low: 0, high: 0 }; 16],
    };
    (vmxon, vmcs, registers)
}

fn virtualize(cpu: &mut VmxCpu<MockCpu>, vcpu: &mut Vcpu, setup: &VmxSetup) -> Result<(), HypervisorError> {
    let (mut vmxon, mut vmcs, mut registers) = regions();
    vcpu.virtualize_cpu(cpu, setup, &mut vmxon, &mut vmcs, &mut registers)
}

#[test]
fn end_to_end_virtualization_sequence() {
    let setup = fixture_setup();
    let mut vcpu = Vcpu::new(0).unwrap();
    let mut cpu = VmxCpu::new(MockCpu::default());
    let (mut vmxon, mut vmcs, mut registers) = regions();
    let result = vcpu.virtualize_cpu(&mut cpu, &setup, &mut vmxon, &mut vmcs, &mut registers);
    assert_eq!(result, Ok(()));
    assert!(vcpu.is_virtualized());
    assert_eq!(vcpu.id(), 0);

    assert_eq!(cpu.hw().log[0], Instruction::Vmxon { address: 0x10_0000 });
    assert_eq!(cpu.hw().log[1], Instruction::Vmclear { address: 0x20_0000 });
    assert_eq!(cpu.hw().log[2], Instruction::Vmptrld { address: 0x20_0000 });
    assert_eq!(*cpu.hw().log.last().unwrap(), Instruction::Vmlaunch);
    let writes = &cpu.hw().log[3..cpu.hw().log.len() - 1];
    assert!(writes.iter().all(|i| matches!(i, Instruction::Vmwrite { .. })));
    // Bits 11:10 of an encoding give the area: 2 guest, 3 host, 0 control.
    let guest = writes
        .iter()
        .filter(|i| matches!(i, Instruction::Vmwrite { field, .. } if (field >> 10) & 3 == 2))
        .count();
    assert!(guest >= 15);
    let host = writes
        .iter()
        .filter(|i| matches!(i, Instruction::Vmwrite { field, .. } if (field >> 10) & 3 == 3))
        .count();
    assert!(host >= 10);
    let controls = writes
        .iter()
        .filter(|i| matches!(i, Instruction::Vmwrite { field, .. } if (field >> 10) & 3 == 0))
        .count();
    assert!(controls >= 5);
    assert_eq!(writes.len(), 48 + 18 + 8);

    assert_eq!(cpu.hw().vmcs.get(&GUEST_RIP), Some(&0x1000));
    assert_eq!(cpu.hw().vmcs.get(&GUEST_RSP), Some(&0x2000));
    assert_eq!(cpu.hw().vmcs.get(&GUEST_CR3), Some(&0x3000));

    assert_eq!(vmcs.revision_id, 4);
    assert_eq!(vmxon.revision_id, 4);
    assert_eq!(registers.rax, 1);
    assert_eq!(registers.r15, 15);
    assert_eq!(registers.xmm[7], M128 { low: 7, high: 107 });
}

#[test]
fn virtualize_twice_executes_nothing_more() {
    let setup = fixture_setup();
    let mut vcpu = Vcpu::new(3).unwrap();
    let mut cpu = VmxCpu::new(MockCpu::default());
    assert_eq!(virtualize(&mut cpu, &mut vcpu, &setup), Ok(()));
    let count = cpu.hw().log.len();
    assert!(count > 0);
    assert_eq!(virtualize(&mut cpu, &mut vcpu, &setup), Ok(()));
    assert_eq!(cpu.hw().log.len(), count);
    assert!(vcpu.is_virtualized());
    assert_eq!(vcpu.id(), 3);
}

#[test]
fn failed_vmptrld_stops_the_session() {
    let setup = fixture_setup();
    let mut vcpu = Vcpu::new(0).unwrap();
    let mut cpu = VmxCpu::new(MockCpu { fail_vmptrld: true, ..MockCpu::default() });
    assert_eq!(virtualize(&mut cpu, &mut vcpu, &setup), Err(HypervisorError::VMPTRLDFailed));
    assert_eq!(
        cpu.hw().log,
        vec![
            Instruction::Vmxon { address: 0x10_0000 },
            Instruction::Vmclear { address: 0x20_0000 },
            Instruction::Vmptrld { address: 0x20_0000 },
        ]
    );
    assert!(cpu.hw().vmcs.is_empty());
    assert!(!vcpu.is_virtualized());
}

#[test]
fn failed_vmxon_is_reported() {
    let setup = fixture_setup();
    let mut vcpu = Vcpu::new(0).unwrap();
    let mut cpu = VmxCpu::new(MockCpu { fail_vmxon: true, ..MockCpu::default() });
    assert_eq!(virtualize(&mut cpu, &mut vcpu, &setup), Err(HypervisorError::VMXONFailed));
    assert_eq!(cpu.hw().log.len(), 1);
    assert!(!vcpu.is_virtualized());
}

#[test]
fn failed_vmclear_is_reported() {
    let setup = fixture_setup();
    let mut vcpu = Vcpu::new(0).unwrap();
    let mut cpu = VmxCpu::new(MockCpu { fail_vmclear: true, ..MockCpu::default() });
    assert_eq!(virtualize(&mut cpu, &mut vcpu, &setup), Err(HypervisorError::VMCLEARFailed));
    assert_eq!(cpu.hw().log.len(), 2);
    assert!(!vcpu.is_virtualized());
}

#[test]
fn failed_vmwrite_is_reported() {
    let setup = fixture_setup();
    let mut vcpu = Vcpu::new(0).unwrap();
    let mut cpu = VmxCpu::new(MockCpu { fail_vmwrite_at: Some(5), ..MockCpu::default() });
    assert_eq!(virtualize(&mut cpu, &mut vcpu, &setup), Err(HypervisorError::VMWRITEFailed));
    assert_eq!(cpu.hw().log.len(), 3 + 6);
    assert!(!cpu.hw().log.contains(&Instruction::Vmlaunch));
    assert!(!vcpu.is_virtualized());
}

#[test]
fn failed_vmlaunch_is_reported_and_may_be_retried() {
    let setup = fixture_setup();
    let mut vcpu = Vcpu::new(1).unwrap();
    let mut cpu = VmxCpu::new(MockCpu { fail_vmlaunch: true, ..MockCpu::default() });
    assert_eq!(virtualize(&mut cpu, &mut vcpu, &setup), Err(HypervisorError::VMLAUNCHFailed));
    assert!(!vcpu.is_virtualized());
    let mut cpu = VmxCpu::new(MockCpu::default());
    assert_eq!(virtualize(&mut cpu, &mut vcpu, &setup), Ok(()));
    assert!(vcpu.is_virtualized());
}

#[test]
fn null_physical_address_is_rejected_before_any_instruction() {
    let mut setup = fixture_setup();
    setup.vmcs_address = 0;
    let mut vcpu = Vcpu::new(0).unwrap();
    let mut cpu = VmxCpu::new(MockCpu::default());
    assert_eq!(
        virtualize(&mut cpu, &mut vcpu, &setup),
        Err(HypervisorError::VirtualToPhysicalAddressFailed)
    );
    assert!(cpu.hw().log.is_empty());
    let mut setup = fixture_setup();
    setup.vmxon_address = 0;
    assert_eq!(
        virtualize(&mut cpu, &mut vcpu, &setup),
        Err(HypervisorError::VirtualToPhysicalAddressFailed)
    );
    assert!(cpu.hw().log.is_empty());
    assert!(!vcpu.is_virtualized());
}

#[test]
fn new_vcpu_is_not_virtualized() {
    let vcpu = Vcpu::new(7).unwrap();
    assert_eq!(vcpu.id(), 7);
    assert!(!vcpu.is_virtualized());
}

#[test]
fn session_steps_through_its_stages() {
    let setup = fixture_setup();
    let (mut vmxon, mut vmcs, mut registers) = regions();
    let mut vmx = Vmx::new(&setup, &mut vmxon, &mut registers).unwrap();
    assert_eq!(vmx.stage, Stage::Uninitialized);
    assert_eq!(vmx.next_instruction(), Some(Instruction::Vmxon { address: 0x10_0000 }));
    vmx.complete(true);
    assert_eq!(vmx.stage, Stage::VmxEnabled);
    assert_eq!(vmx.next_instruction(), Some(Instruction::Vmclear { address: 0x20_0000 }));
    vmx.complete(true);
    assert_eq!(vmx.stage, Stage::VmcsCleared);
    assert_eq!(vmx.next_instruction(), Some(Instruction::Vmptrld { address: 0x20_0000 }));
    vmx.complete(true);
    assert_eq!(vmx.stage, Stage::VmcsActive);
    assert!(matches!(vmx.next_instruction(), Some(Instruction::Vmwrite { .. })));
    vmx.complete(false);
    assert_eq!(vmx.stage, Stage::Failed(HypervisorError::VMWRITEFailed));
    assert_eq!(vmx.next_instruction(), None);
}

#[test]
fn read_fields_snapshots_the_current_vmcs() {
    let setup = fixture_setup();
    let mut vcpu = Vcpu::new(0).unwrap();
    let mut cpu = VmxCpu::new(MockCpu::default());
    assert_eq!(virtualize(&mut cpu, &mut vcpu, &setup), Ok(()));
    let fields = vec![GUEST_RIP, GUEST_CS_SELECTOR, 0x6C16];
    let issued = cpu.hw().log.len();
    let readings = read_fields(&mut cpu, &fields);
    assert_eq!(cpu.hw().log.len(), issued);
    assert_eq!(cpu.hw().vmreads, 3);
    assert_eq!(readings.len(), 3);
    assert_eq!(readings[0].field, GUEST_RIP);
    assert_eq!(readings[0].value, Some(0x1000));
    assert_eq!(readings[1].value, Some(0x10));
    assert_eq!(readings[2].value, None);
}

#[test]
fn control_fields_reach_the_vmcs() {
    let setup = fixture_setup();
    let mut vcpu = Vcpu::new(0).unwrap();
    let mut cpu = VmxCpu::new(MockCpu::default());
    assert_eq!(virtualize(&mut cpu, &mut vcpu, &setup), Ok(()));
    assert_eq!(cpu.hw().vmcs.get(&CONTROL_MSR_BITMAPS_ADDR_FULL), Some(&0x30_0000));
    assert_eq!(cpu.hw().vmcs.get(&CONTROL_CR0_READ_SHADOW), Some(&0x8005_0033));
    // basic bit 55 is set: the TRUE capability MSRs govern.
    assert_eq!(cpu.hw().vmcs.get(&CONTROL_PINBASED_EXEC_CONTROLS), Some(&0x16));
    assert_eq!(
        cpu.hw().vmcs.get(&CONTROL_PRIMARY_PROCBASED_EXEC_CONTROLS),
        Some(&((0x9000_0000u64 | 0x0400_6172) & 0xFFF9_FFFE))
    );
}

fn fresh_vmcs(revision_id: u32) -> Box<Vmcs> {
    Box::new(Vmcs { revision_id, abort_indicator: 0, reserved: [0; 4088] })
}

#[test]
fn vmcs_setup_clears_then_loads() {
    let mut region = fresh_vmcs(0);
    let mut cpu = VmxCpu::new(MockCpu::default());
    assert_eq!(Vmcs::setup(&mut region, &mut cpu, 0x20_0000, 0x00DA_0400_8000_0004), Ok(()));
    assert_eq!(region.revision_id, 4);
    assert_eq!(
        cpu.hw().log,
        vec![Instruction::Vmclear { address: 0x20_0000 }, Instruction::Vmptrld { address: 0x20_0000 }]
    );
    let mut cpu = VmxCpu::new(MockCpu::default());
    assert_eq!(Vmcs::setup(&mut region, &mut cpu, 0x20_0000, 0xFFFF_FFFF), Ok(()));
    assert_eq!(region.revision_id, 0x7FFF_FFFF);
}

#[test]
fn vmcs_setup_reports_failed_clear() {
    let mut region = fresh_vmcs(0);
    let mut cpu = VmxCpu::new(MockCpu { fail_vmclear: true, ..MockCpu::default() });
    assert_eq!(Vmcs::setup(&mut region, &mut cpu, 0x20_0000, 4), Err(HypervisorError::VMCLEARFailed));
    assert_eq!(cpu.hw().log, vec![Instruction::Vmclear { address: 0x20_0000 }]);
}

#[test]
fn vmcs_setup_reports_failed_load() {
    let mut region = fresh_vmcs(0);
    let mut cpu = VmxCpu::new(MockCpu { fail_vmptrld: true, ..MockCpu::default() });
    assert_eq!(Vmcs::setup(&mut region, &mut cpu, 0x20_0000, 4), Err(HypervisorError::VMPTRLDFailed));
    assert_eq!(
        cpu.hw().log,
        vec![Instruction::Vmclear { address: 0x20_0000 }, Instruction::Vmptrld { address: 0x20_0000 }]
    );
}

#[test]
fn vmcs_setup_rejects_null_address() {
    let mut region = fresh_vmcs(9);
    let mut cpu = VmxCpu::new(MockCpu::default());
    assert_eq!(
        Vmcs::setup(&mut region, &mut cpu, 0, 0x12),
        Err(HypervisorError::VirtualToPhysicalAddressFailed)
    );
    assert_eq!(region.revision_id, 9);
    assert!(cpu.hw().log.is_empty());
}
