//! The VMX session of one processor: VMXON, VMCLEAR, VMPTRLD, the VMWRITEs
//! of the guest, host and control areas, then VMLAUNCH, in that order.
//!
//! The session decides which instruction comes next and what an outcome
//! means; executing the instructions is left to an implementation of
//! [`VmxInstructions`], reached only through [`VmxCpu`], which records every
//! instruction it issues.
use vstd::prelude::*;
use crate::context::{Context, DescriptorTables, GuestRegisters, ProcessorState};
use crate::controls::VmxCapabilities;
use crate::error::HypervisorError;
use crate::vmcs::{
    control_writes, guest_state_writes, host_state_writes, vmcs_revision, Vmcs, VmcsWrite,
};
use crate::vmxon::Vmxon;

verus! {

/// One privileged VMX instruction with its operands.
#[derive(Debug, Clone, Copy, PartialEq, Eq, Structural)]
pub enum Instruction {
    Vmxon { address: u64 },
    Vmclear { address: u64 },
    Vmptrld { address: u64 },
    Vmread { field: u32 },
    Vmwrite { field: u32, value: u64 },
    Vmlaunch,
}

/// The privileged VMX instructions, each reporting whether it succeeded.
pub trait VmxInstructions {
    fn vmxon(&mut self, address: u64) -> bool;

    fn vmclear(&mut self, address: u64) -> bool;

    fn vmptrld(&mut self, address: u64) -> bool;

    fn vmread(&mut self, field: u32) -> Option<u64>;

    fn vmwrite(&mut self, field: u32, value: u64) -> bool;

    fn vmlaunch(&mut self) -> bool;
}

/// One instruction as it was issued: whether it succeeded, and for a VMREAD
/// the value it returned.
#[derive(Debug, Clone, Copy, PartialEq, Eq, Structural)]
pub struct Issued {
    pub instruction: Instruction,
    pub succeeded: bool,
    pub value: Option<u64>,
}

/// The instruction layer of one processor. Every instruction reaches the
/// underlying implementation through [`VmxCpu::execute`], which records it
/// in the log.
pub struct VmxCpu<H: VmxInstructions> {
    hw: H,
    log: Ghost<Seq<Issued>>,
}

impl<H: VmxInstructions> VmxCpu<H> {
    /// The instructions issued so far, oldest first.
    pub closed spec fn log(&self) -> Seq<Issued> {
        self.log@
    }

    /// A VMCLEAR of `address` has succeeded on this processor.
    pub open spec fn cleared(&self, address: u64) -> bool {
        exists|i: int|
            0 <= i < self.log().len() && #[trigger] self.log()[i] == (Issued {
                instruction: Instruction::Vmclear { address },
                succeeded: true,
                value: None,
            })
    }

    pub fn new(hw: H) -> (r: Self)
        ensures
            r.log() == Seq::<Issued>::empty(),
    {
        VmxCpu { hw, log: Ghost(Seq::empty()) }
    }

    pub closed spec fn spec_hw(&self) -> H {
        self.hw
    }

    /// The underlying implementation.
    pub fn hw(&self) -> (r: &H)
        ensures
            *r == self.spec_hw(),
    {
        &self.hw
    }

    /// Issues one instruction. A VMCS is loaded only once it was cleared.
    pub fn execute(&mut self, instruction: Instruction) -> (r: Issued)
        requires
            instruction matches Instruction::Vmptrld { address } ==> old(self).cleared(address),
        ensures
            r.instruction == instruction,
            final(self).log() == old(self).log().push(r),
            instruction is Vmread ==> r.succeeded == r.value is Some,
            !(instruction is Vmread) ==> r.value is None,
    {
        let (succeeded, value) = match instruction {
            Instruction::Vmxon { address } => (self.hw.vmxon(address), None),
            Instruction::Vmclear { address } => (self.hw.vmclear(address), None),
            Instruction::Vmptrld { address } => (self.hw.vmptrld(address), None),
            Instruction::Vmread { field } => {
                let v = self.hw.vmread(field);
                (v.is_some(), v)
            },
            Instruction::Vmwrite { field, value } => (self.hw.vmwrite(field, value), None),
            Instruction::Vmlaunch => (self.hw.vmlaunch(), None),
        };
        let issued = Issued { instruction, succeeded, value };
        self.log = Ghost(self.log@.push(issued));
        issued
    }
}

/// The VMCS that is current after the instructions of `log`, if any: the
/// last one loaded, unless it was cleared since.
pub open spec fn current_vmcs_of(log: Seq<Issued>) -> Option<u64>
    decreases log.len(),
{
    if log.len() == 0 {
        None
    } else {
        let before = current_vmcs_of(log.drop_last());
        if !log.last().succeeded {
            before
        } else {
            match log.last().instruction {
                Instruction::Vmptrld { address } => Some(address),
                Instruction::Vmclear { address } => if before == Some(address) {
                    None
                } else {
                    before
                },
                _ => before,
            }
        }
    }
}

/// Where a session stands.
#[derive(Debug, Clone, Copy, PartialEq, Eq, Structural)]
pub enum Stage {
    /// Nothing executed yet.
    Uninitialized,
    /// VMXON succeeded.
    VmxEnabled,
    /// VMCLEAR of the VMCS succeeded.
    VmcsCleared,
    /// VMPTRLD succeeded: the VMCS is current, and fields are being written.
    VmcsActive,
    /// VMLAUNCH succeeded.
    Launched,
    /// An instruction failed; nothing more is executed.
    Failed(HypervisorError),
}

/// The error kind that reports a failure of `instruction`.
pub open spec fn failure_of(instruction: Instruction) -> HypervisorError {
    match instruction {
        Instruction::Vmxon { .. } => HypervisorError::VMXONFailed,
        Instruction::Vmclear { .. } => HypervisorError::VMCLEARFailed,
        Instruction::Vmptrld { .. } => HypervisorError::VMPTRLDFailed,
        Instruction::Vmread { .. } => HypervisorError::VMREADFailed,
        Instruction::Vmwrite { .. } => HypervisorError::VMWRITEFailed,
        Instruction::Vmlaunch => HypervisorError::VMLAUNCHFailed,
    }
}

/// Everything a session is built from, as plain values.
#[derive(Debug, Clone, Copy)]
pub struct VmxSetup {
    pub context: Context,
    pub processor: ProcessorState,
    pub guest_tables: DescriptorTables,
    pub host_tables: DescriptorTables,
    pub capabilities: VmxCapabilities,
    /// Physical address of the VMXON region.
    pub vmxon_address: u64,
    /// Physical address of the VMCS region.
    pub vmcs_address: u64,
    /// Physical address of the MSR bitmap.
    pub msr_bitmap_address: u64,
}

/// The VMWRITEs of a session, in order: guest area, host area, controls.
pub open spec fn session_writes(setup: VmxSetup) -> Seq<VmcsWrite> {
    guest_state_writes(setup.context, setup.processor, setup.guest_tables) + host_state_writes(
        setup.context,
        setup.processor,
        setup.host_tables,
    ) + control_writes(setup.capabilities, setup.processor, setup.msr_bitmap_address)
}

/// A VMX session on one processor.
pub struct Vmx {
    pub vmxon_address: u64,
    pub vmcs_address: u64,
    /// IA32_VMX_BASIC, which gives the VMCS revision identifier.
    pub vmx_basic: u64,
    /// The fields to write once the VMCS is current.
    pub writes: Vec<VmcsWrite>,
    /// How many of `writes` have succeeded.
    pub written: usize,
    pub stage: Stage,
}

impl Vmx {
    pub open spec fn wf(self) -> bool {
        &&& self.written <= self.writes.len()
        &&& (self.stage == Stage::Uninitialized || self.stage == Stage::VmxEnabled || self.stage
            == Stage::VmcsCleared) ==> self.written == 0
        &&& self.stage == Stage::Launched ==> self.written == self.writes.len()
    }

    /// The instruction the session executes next, if it is not finished.
    pub open spec fn pending(self) -> Option<Instruction> {
        match self.stage {
            Stage::Uninitialized => Some(Instruction::Vmxon { address: self.vmxon_address }),
            Stage::VmxEnabled => Some(Instruction::Vmclear { address: self.vmcs_address }),
            Stage::VmcsCleared => Some(Instruction::Vmptrld { address: self.vmcs_address }),
            Stage::VmcsActive => if self.written < self.writes.len() {
                Some(
                    Instruction::Vmwrite {
                        field: self.writes@[self.written as int].field,
                        value: self.writes@[self.written as int].value,
                    },
                )
            } else {
                Some(Instruction::Vmlaunch)
            },
            _ => None,
        }
    }

    /// The stage that follows the outcome of the pending instruction.
    pub open spec fn stage_after(self, succeeded: bool) -> Stage {
        if !succeeded {
            Stage::Failed(failure_of(self.pending().unwrap()))
        } else {
            match self.stage {
                Stage::Uninitialized => Stage::VmxEnabled,
                Stage::VmxEnabled => Stage::VmcsCleared,
                Stage::VmcsCleared => Stage::VmcsActive,
                Stage::VmcsActive => if self.written < self.writes.len() {
                    Stage::VmcsActive
                } else {
                    Stage::Launched
                },
                other => other,
            }
        }
    }

    /// The session once the pending instruction has reported its outcome.
    pub open spec fn after(self, succeeded: bool) -> Vmx {
        Vmx {
            stage: self.stage_after(succeeded),
            written: if succeeded && self.stage == Stage::VmcsActive && self.written
                < self.writes.len() {
                (self.written + 1) as usize
            } else {
                self.written
            },
            ..self
        }
    }

    /// How many instructions remain at most.
    pub open spec fn remaining(self) -> nat {
        match self.stage {
            Stage::Uninitialized => (self.writes.len() + 4) as nat,
            Stage::VmxEnabled => (self.writes.len() + 3) as nat,
            Stage::VmcsCleared => (self.writes.len() + 2) as nat,
            Stage::VmcsActive => (self.writes.len() - self.written + 1) as nat,
            _ => 0,
        }
    }

    /// The instructions the session executes from here on when every one of
    /// them succeeds.
    pub open spec fn trace(self) -> Seq<Instruction>
        decreases self.remaining(),
    {
        if self.wf() && self.pending() is Some {
            seq![self.pending().unwrap()] + self.after(true).trace()
        } else {
            Seq::empty()
        }
    }

    /// Builds a session: checks both region addresses, prepares the VMXON
    /// region, computes every field the VMCS will hold, and saves the
    /// registers the VMCS has no field for. No instruction is executed.
    pub fn new(
        setup: &VmxSetup,
        vmxon_region: &mut Vmxon,
        guest_registers: &mut GuestRegisters,
    ) -> (r: Result<Vmx, HypervisorError>)
        ensures
            setup.vmxon_address == 0 || setup.vmcs_address == 0 ==> r == Err::<
                Vmx,
                HypervisorError,
            >(HypervisorError::VirtualToPhysicalAddressFailed),
            setup.vmxon_address != 0 && setup.vmcs_address != 0 ==> r is Ok,
            r is Ok ==> {
                let s = r.unwrap();
                &&& s.wf()
                &&& s.stage == Stage::Uninitialized
                &&& s.written == 0
                &&& s.vmxon_address == setup.vmxon_address
                &&& s.vmcs_address == setup.vmcs_address
                &&& s.vmx_basic == setup.capabilities.basic
                &&& s.writes@ == session_writes(*setup)
                &&& final(vmxon_region).revision_id == vmcs_revision(setup.capabilities.basic)
                &&& final(guest_registers).saved_from(setup.context)
            },
            r is Err ==> final(vmxon_region).revision_id == old(vmxon_region).revision_id,
            final(vmxon_region).data == old(vmxon_region).data,
    {
        let basic = setup.capabilities.basic;
        if setup.vmcs_address == 0 {
            return Err(HypervisorError::VirtualToPhysicalAddressFailed);
        }
        match Vmxon::setup(vmxon_region, setup.vmxon_address, basic) {
            Ok(()) => {},
            Err(e) => {
                return Err(e);
            },
        }
        let mut writes = Vmcs::setup_guest_registers_state(
            &setup.context,
            &setup.processor,
            &setup.guest_tables,
            guest_registers,
        );
        let mut host = Vmcs::setup_host_registers_state(
            &setup.context,
            &setup.processor,
            &setup.host_tables,
        );
        let mut controls = Vmcs::setup_vmcs_control_fields(
            &setup.capabilities,
            &setup.processor,
            setup.msr_bitmap_address,
        );
        writes.append(&mut host);
        writes.append(&mut controls);
        Ok(
            Vmx {
                vmxon_address: setup.vmxon_address,
                vmcs_address: setup.vmcs_address,
                vmx_basic: basic,
                writes,
                written: 0,
                stage: Stage::Uninitialized,
            },
        )
    }

    /// The instruction to execute next; `None` once the session has launched
    /// the guest or failed.
    pub fn next_instruction(&self) -> (r: Option<Instruction>)
        requires
            self.wf(),
        ensures
            r == self.pending(),
    {
        match self.stage {
            Stage::Uninitialized => Some(Instruction::Vmxon { address: self.vmxon_address }),
            Stage::VmxEnabled => Some(Instruction::Vmclear { address: self.vmcs_address }),
            Stage::VmcsCleared => Some(Instruction::Vmptrld { address: self.vmcs_address }),
            Stage::VmcsActive => if self.written < self.writes.len() {
                let w = self.writes[self.written];
                Some(Instruction::Vmwrite { field: w.field, value: w.value })
            } else {
                Some(Instruction::Vmlaunch)
            },
            _ => None,
        }
    }

    /// Records the outcome of VMXON.
    pub fn vmxon_completed(&mut self, succeeded: bool)
        requires
            old(self).wf(),
            old(self).stage == Stage::Uninitialized,
        ensures
            *final(self) == old(self).after(succeeded),
    {
        self.stage = if succeeded {
            Stage::VmxEnabled
        } else {
            Stage::Failed(HypervisorError::VMXONFailed)
        };
    }

    /// Records the outcome of VMCLEAR; only a session in VMX operation clears.
    pub fn clear_completed(&mut self, succeeded: bool)
        requires
            old(self).wf(),
            old(self).stage == Stage::VmxEnabled,
        ensures
            *final(self) == old(self).after(succeeded),
    {
        self.stage = if succeeded {
            Stage::VmcsCleared
        } else {
            Stage::Failed(HypervisorError::VMCLEARFailed)
        };
    }

    /// Records the outcome of VMPTRLD; a VMCS is loaded only once it was
    /// cleared.
    pub fn load_completed(&mut self, succeeded: bool)
        requires
            old(self).wf(),
            old(self).stage == Stage::VmcsCleared,
        ensures
            *final(self) == old(self).after(succeeded),
    {
        self.stage = if succeeded {
            Stage::VmcsActive
        } else {
            Stage::Failed(HypervisorError::VMPTRLDFailed)
        };
    }

    /// Records the outcome of the pending VMWRITE; fields are written only
    /// into the current VMCS.
    pub fn write_completed(&mut self, succeeded: bool)
        requires
            old(self).wf(),
            old(self).stage == Stage::VmcsActive,
            old(self).written < old(self).writes.len(),
        ensures
            *final(self) == old(self).after(succeeded),
    {
        if succeeded {
            self.written = self.written + 1;
        } else {
            self.stage = Stage::Failed(HypervisorError::VMWRITEFailed);
        }
    }

    /// Records the outcome of VMLAUNCH; the guest is launched only once every
    /// field has been written.
    pub fn launch_completed(&mut self, succeeded: bool)
        requires
            old(self).wf(),
            old(self).stage == Stage::VmcsActive,
            old(self).written == old(self).writes.len(),
        ensures
            *final(self) == old(self).after(succeeded),
    {
        self.stage = if succeeded {
            Stage::Launched
        } else {
            Stage::Failed(HypervisorError::VMLAUNCHFailed)
        };
    }

    /// Records the outcome of the pending instruction.
    pub fn complete(&mut self, succeeded: bool)
        requires
            old(self).wf(),
            old(self).pending() is Some,
        ensures
            *final(self) == old(self).after(succeeded),
            final(self).wf(),
    {
        match self.stage {
            Stage::Uninitialized => self.vmxon_completed(succeeded),
            Stage::VmxEnabled => self.clear_completed(succeeded),
            Stage::VmcsCleared => self.load_completed(succeeded),
            Stage::VmcsActive => if self.written < self.writes.len() {
                self.write_completed(succeeded)
            } else {
                self.launch_completed(succeeded)
            },
            _ => {},
        }
    }

    /// The session after `n` instructions of its launch plan have succeeded,
    /// starting fresh.
    pub open spec fn fresh_at(self, n: int) -> Vmx {
        Vmx {
            stage: if n == 0 {
                Stage::Uninitialized
            } else if n == 1 {
                Stage::VmxEnabled
            } else if n == 2 {
                Stage::VmcsCleared
            } else if n <= self.writes.len() + 3 {
                Stage::VmcsActive
            } else {
                Stage::Launched
            },
            written: if n <= 3 {
                0
            } else if n <= self.writes.len() + 3 {
                (n - 3) as usize
            } else {
                self.writes.len()
            },
            ..self
        }
    }

    /// Executes the launch plan of a fresh session on `cpu`, one instruction
    /// after the other, until the guest is launched or an instruction fails.
    /// Exactly the instructions of the plan up to that point reach `cpu`.
    /// After VMXON, the VMCS region is set up and made current by
    /// [`Vmcs::setup`].
    pub fn run<H: VmxInstructions>(&mut self, cpu: &mut VmxCpu<H>, vmcs_region: &mut Vmcs) -> (r:
        Result<(), HypervisorError>)
        requires
            old(self).wf(),
            old(self).stage == Stage::Uninitialized,
            old(self).vmcs_address != 0,
        ensures
            issued_since(old(cpu).log(), final(cpu).log()).len() >= 2 ==> final(vmcs_region).revision_id == vmcs_revision(old(self).vmx_basic),
            issued_since(old(cpu).log(), final(cpu).log()).len() < 2 ==> final(vmcs_region).revision_id == old(vmcs_region).revision_id,
            final(vmcs_region).abort_indicator == old(vmcs_region).abort_indicator,
            final(vmcs_region).reserved == old(vmcs_region).reserved,
            final(self).wf(),
            final(self).pending() is None,
            final(self).vmxon_address == old(self).vmxon_address,
            final(self).vmcs_address == old(self).vmcs_address,
            final(self).writes == old(self).writes,
            extends(old(cpu).log(), final(cpu).log()),
            follows_plan(
                issued_since(old(cpu).log(), final(cpu).log()),
                launch_plan(old(self).vmxon_address, old(self).vmcs_address, old(self).writes@),
            ),
            r is Ok <==> issued_since(old(cpu).log(), final(cpu).log()).last().succeeded,
            r is Ok ==> final(self).stage == Stage::Launched,
            r is Err ==> final(self).stage == Stage::Failed(r->Err_0) && r->Err_0 == failure_of(
                issued_since(old(cpu).log(), final(cpu).log()).last().instruction,
            ),
    {
        let ghost s0 = *self;
        let ghost log0 = cpu.log();
        let ghost plan = launch_plan(s0.vmxon_address, s0.vmcs_address, s0.writes@);
        proof {
            lemma_fresh_step(s0, 0);
            assert(s0.fresh_at(0) == s0);
            assert(issued_since(log0, cpu.log()) =~= Seq::<Issued>::empty());
            assert(log0.subrange(0, log0.len() as int) =~= log0);
        }
        loop
            invariant
                self.wf(),
                s0.wf(),
                s0.stage == Stage::Uninitialized,
                plan == launch_plan(s0.vmxon_address, s0.vmcs_address, s0.writes@),
                self.vmxon_address == s0.vmxon_address,
                self.vmcs_address == s0.vmcs_address,
                self.writes == s0.writes,
                extends(log0, cpu.log()),
                issued_since(log0, cpu.log()).len() <= plan.len(),
                forall|k: int|
                    0 <= k < issued_since(log0, cpu.log()).len() ==> #[trigger] issued_since(
                        log0,
                        cpu.log(),
                    )[k].instruction == plan[k],
                forall|k: int|
                    0 <= k < issued_since(log0, cpu.log()).len() - 1 ==> #[trigger] issued_since(
                        log0,
                        cpu.log(),
                    )[k].succeeded,
                issued_since(log0, cpu.log()).len() == 0 || issued_since(
                    log0,
                    cpu.log(),
                ).last().succeeded ==> *self == s0.fresh_at(
                    issued_since(log0, cpu.log()).len() as int,
                ),
                issued_since(log0, cpu.log()).len() > 0 && !issued_since(
                    log0,
                    cpu.log(),
                ).last().succeeded ==> self.stage == Stage::Failed(
                    failure_of(issued_since(log0, cpu.log()).last().instruction),
                ),
                self.stage == Stage::VmcsCleared ==> cpu.cleared(self.vmcs_address),
                self.vmx_basic == s0.vmx_basic,
                s0.vmcs_address != 0,
                issued_since(log0, cpu.log()).len() >= 2 ==> vmcs_region.revision_id
                    == vmcs_revision(s0.vmx_basic),
                issued_since(log0, cpu.log()).len() < 2 ==> vmcs_region.revision_id == old(vmcs_region).revision_id,
                vmcs_region.abort_indicator == old(vmcs_region).abort_indicator,
                vmcs_region.reserved == old(vmcs_region).reserved,
            ensures
                self.pending() is None,
            decreases self.remaining(),
        {
            let ghost n = issued_since(log0, cpu.log()).len() as int;
            if self.stage == Stage::VmxEnabled {
                proof {
                    lemma_fresh_step(s0, n);
                    lemma_fresh_step(s0, n + 1);
                }
                let ghost log_before = cpu.log();
                let loaded = Vmcs::setup(vmcs_region, cpu, self.vmcs_address, self.vmx_basic);
                proof {
                    let prior = issued_since(log0, log_before);
                    let step = issued_since(log_before, cpu.log());
                    assert(cpu.log() =~= log_before + step);
                    assert(issued_since(log0, cpu.log()) =~= prior + step);
                    assert(cpu.log().subrange(0, log0.len() as int) =~= log0);
                }
                match loaded {
                    Ok(()) => {
                        self.complete(true);
                        self.complete(true);
                        proof {
                            lemma_fresh_step(s0, n + 2);
                        }
                    },
                    Err(HypervisorError::VMCLEARFailed) => {
                        self.complete(false);
                    },
                    Err(_) => {
                        self.complete(true);
                        self.complete(false);
                    },
                }
                continue ;
            }
            match self.next_instruction() {
                Some(instruction) => {
                    proof {
                        lemma_fresh_step(s0, n);
                    }
                    let ghost log_before = cpu.log();
                    let issued = cpu.execute(instruction);
                    self.complete(issued.succeeded);
                    proof {
                        let prior = issued_since(log0, log_before);
                        assert(issued_since(log0, cpu.log()) =~= prior.push(issued));
                        assert(cpu.log().subrange(0, log0.len() as int) =~= log0);
                        if self.stage == Stage::VmcsCleared {
                            assert(cpu.log()[cpu.log().len() - 1] == issued);
                        }
                        if issued.succeeded {
                            lemma_fresh_step(s0, n + 1);
                        }
                    }
                },
                None => {
                    break ;
                },
            }
        }
        proof {
            let n = issued_since(log0, cpu.log()).len() as int;
            if n < plan.len() && (n == 0 || issued_since(log0, cpu.log()).last().succeeded) {
                lemma_fresh_step(s0, n);
            }
            lemma_fresh_step(s0, 0);
        }
        match self.stage {
            Stage::Failed(e) => Err(e),
            _ => Ok(()),
        }
    }
}

/// The value a VMREAD returned for one field, or `None` where it failed.
#[derive(Debug, Clone, Copy, PartialEq, Eq, Structural)]
pub struct FieldReading {
    pub field: u32,
    pub value: Option<u64>,
}

/// A diagnostic snapshot of the current VMCS: one VMREAD per field, in the
/// order given, and nothing else. Each reading holds what its VMREAD
/// returned.
pub fn read_fields<H: VmxInstructions>(cpu: &mut VmxCpu<H>, fields: &Vec<u32>) -> (r: Vec<
    FieldReading,
>)
    ensures
        r@.len() == fields@.len(),
        extends(old(cpu).log(), final(cpu).log()),
        issued_since(old(cpu).log(), final(cpu).log()).len() == fields@.len(),
        forall|i: int|
            0 <= i < r@.len() ==> #[trigger] r@[i].field == fields@[i] && issued_since(
                old(cpu).log(),
                final(cpu).log(),
            )[i] == (Issued {
                instruction: Instruction::Vmread { field: fields@[i] },
                succeeded: r@[i].value is Some,
                value: r@[i].value,
            }),
{
    let ghost log0 = cpu.log();
    proof {
        assert(log0.subrange(0, log0.len() as int) =~= log0);
    }
    let mut readings: Vec<FieldReading> = Vec::new();
    let mut i: usize = 0;
    while i < fields.len()
        invariant
            i <= fields@.len(),
            readings@.len() == i,
            extends(log0, cpu.log()),
            issued_since(log0, cpu.log()).len() == i,
            forall|k: int|
                0 <= k < i ==> #[trigger] readings@[k].field == fields@[k] && issued_since(
                    log0,
                    cpu.log(),
                )[k] == (Issued {
                    instruction: Instruction::Vmread { field: fields@[k] },
                    succeeded: readings@[k].value is Some,
                    value: readings@[k].value,
                }),
        decreases fields@.len() - i,
    {
        let field = fields[i];
        let ghost log_before = cpu.log();
        let issued = cpu.execute(Instruction::Vmread { field });
        readings.push(FieldReading { field, value: issued.value });
        proof {
            assert(issued_since(log0, cpu.log()) =~= issued_since(log0, log_before).push(issued));
            assert(cpu.log().subrange(0, log0.len() as int) =~= log0);
            assert forall|k: int| 0 <= k < i + 1 implies #[trigger] readings@[k].field == fields@[k]
                && issued_since(log0, cpu.log())[k] == (Issued {
                instruction: Instruction::Vmread { field: fields@[k] },
                succeeded: readings@[k].value is Some,
                value: readings@[k].value,
            }) by {
                if k < i {
                    assert(issued_since(log0, cpu.log())[k] == issued_since(log0, log_before)[k]);
                }
            }
        }
        i = i + 1;
    }
    readings
}

/// `after` is `before` with more entries appended.
pub open spec fn extends(before: Seq<Issued>, after: Seq<Issued>) -> bool {
    before.len() <= after.len() && after.subrange(0, before.len() as int) == before
}

/// What was issued after `before`, up to `after`.
pub open spec fn issued_since(before: Seq<Issued>, after: Seq<Issued>) -> Seq<Issued> {
    after.subrange(before.len() as int, after.len() as int)
}

/// The instructions that launch a guest, in order: VMXON on the VMXON
/// region, VMCLEAR and VMPTRLD on the VMCS, one VMWRITE per field, VMLAUNCH.
pub open spec fn launch_plan(vmxon_address: u64, vmcs_address: u64, writes: Seq<VmcsWrite>) -> Seq<
    Instruction,
> {
    Seq::empty().push(Instruction::Vmxon { address: vmxon_address }).push(
        Instruction::Vmclear { address: vmcs_address },
    ).push(Instruction::Vmptrld { address: vmcs_address }) + write_instructions(writes)
        + Seq::empty().push(Instruction::Vmlaunch)
}

/// `issued` carried out the start of `plan`, instruction by instruction,
/// every one but the last succeeding, and stopped only at a failure or at
/// the end of the plan.
pub open spec fn follows_plan(issued: Seq<Issued>, plan: Seq<Instruction>) -> bool {
    &&& 0 < issued.len() <= plan.len()
    &&& forall|k: int| 0 <= k < issued.len() ==> #[trigger] issued[k].instruction == plan[k]
    &&& forall|k: int| 0 <= k < issued.len() - 1 ==> #[trigger] issued[k].succeeded
    &&& issued.last().succeeded ==> issued.len() == plan.len()
}

/// The launch plan of a session built from `setup`: VMXON of the VMXON
/// region, VMCLEAR then VMPTRLD of the same VMCS, the 48 guest-state
/// writes, the 18 host-state writes, the 8 control-field writes, then
/// VMLAUNCH.
pub proof fn lemma_launch_plan_shape(setup: VmxSetup)
    ensures
        ({
            let plan = launch_plan(setup.vmxon_address, setup.vmcs_address, session_writes(setup));
            let guest = guest_state_writes(setup.context, setup.processor, setup.guest_tables);
            let host = host_state_writes(setup.context, setup.processor, setup.host_tables);
            let controls = control_writes(
                setup.capabilities,
                setup.processor,
                setup.msr_bitmap_address,
            );
            &&& guest.len() == 48 && host.len() == 18 && controls.len() == 8
            &&& plan.len() == 78
            &&& plan[0] == Instruction::Vmxon { address: setup.vmxon_address }
            &&& plan[1] == Instruction::Vmclear { address: setup.vmcs_address }
            &&& plan[2] == Instruction::Vmptrld { address: setup.vmcs_address }
            &&& forall|k: int|
                3 <= k < 51 ==> #[trigger] plan[k] == (Instruction::Vmwrite {
                    field: guest[k - 3].field,
                    value: guest[k - 3].value,
                })
            &&& forall|k: int|
                51 <= k < 69 ==> #[trigger] plan[k] == (Instruction::Vmwrite {
                    field: host[k - 51].field,
                    value: host[k - 51].value,
                })
            &&& forall|k: int|
                69 <= k < 77 ==> #[trigger] plan[k] == (Instruction::Vmwrite {
                    field: controls[k - 69].field,
                    value: controls[k - 69].value,
                })
            &&& plan[77] == Instruction::Vmlaunch
        }),
{
    let plan = launch_plan(setup.vmxon_address, setup.vmcs_address, session_writes(setup));
    let guest = guest_state_writes(setup.context, setup.processor, setup.guest_tables);
    let host = host_state_writes(setup.context, setup.processor, setup.host_tables);
    let controls = control_writes(setup.capabilities, setup.processor, setup.msr_bitmap_address);
    let writes = session_writes(setup);
    let w = write_instructions(writes);
    assert(writes.len() == 74);
    assert forall|k: int| 3 <= k < 77 implies #[trigger] plan[k] == w[k - 3] by {}
    assert forall|k: int| 0 <= k < 48 implies #[trigger] writes[k] == guest[k] by {}
    assert forall|k: int| 48 <= k < 66 implies #[trigger] writes[k] == host[k - 48] by {}
    assert forall|k: int| 66 <= k < 74 implies #[trigger] writes[k] == controls[k - 66] by {}
}

/// In a launch plan, the one VMPTRLD comes third.
pub proof fn lemma_only_load_at_two(
    vmxon_address: u64,
    vmcs_address: u64,
    writes: Seq<VmcsWrite>,
    k: int,
)
    requires
        0 <= k < launch_plan(vmxon_address, vmcs_address, writes).len(),
        failure_of(launch_plan(vmxon_address, vmcs_address, writes)[k])
            == HypervisorError::VMPTRLDFailed,
    ensures
        k == 2,
{
    let plan = launch_plan(vmxon_address, vmcs_address, writes);
    let w = write_instructions(writes);
    if 3 <= k < writes.len() + 3 {
        assert(plan[k] == w[k - 3]);
    }
}

proof fn lemma_fresh_step(s: Vmx, n: int)
    requires
        s.wf(),
        s.stage == Stage::Uninitialized,
        0 <= n <= launch_plan(s.vmxon_address, s.vmcs_address, s.writes@).len(),
    ensures
        s.fresh_at(0) == s,
        s.fresh_at(n).wf(),
        n == launch_plan(s.vmxon_address, s.vmcs_address, s.writes@).len() ==> s.fresh_at(
            n,
        ).stage == Stage::Launched,
        n < launch_plan(s.vmxon_address, s.vmcs_address, s.writes@).len() ==> {
            &&& s.fresh_at(n).pending() == Some(
                launch_plan(s.vmxon_address, s.vmcs_address, s.writes@)[n],
            )
            &&& s.fresh_at(n).after(true) == s.fresh_at(n + 1)
            &&& s.fresh_at(n).after(false).stage == Stage::Failed(
                failure_of(launch_plan(s.vmxon_address, s.vmcs_address, s.writes@)[n]),
            )
        },
{
    let plan = launch_plan(s.vmxon_address, s.vmcs_address, s.writes@);
    let w = write_instructions(s.writes@);
    assert(plan.len() == s.writes.len() + 4);
    if 3 <= n < s.writes.len() + 3 {
        assert(plan[n] == w[n - 3]);
    }
}

/// The VMWRITE for each of `writes`, in order.
pub open spec fn write_instructions(writes: Seq<VmcsWrite>) -> Seq<Instruction> {
    writes.map_values(|w: VmcsWrite| Instruction::Vmwrite { field: w.field, value: w.value })
}

proof fn lemma_trace_of_active(s: Vmx)
    requires
        s.wf(),
        s.stage == Stage::VmcsActive,
    ensures
        s.trace() == write_instructions(s.writes@.subrange(s.written as int, s.writes@.len() as int))
            + seq![Instruction::Vmlaunch],
    decreases s.writes@.len() - s.written,
{
    let rest = s.writes@.subrange(s.written as int, s.writes@.len() as int);
    if s.written < s.writes.len() {
        let t = s.after(true);
        lemma_trace_of_active(t);
        let rest_t = t.writes@.subrange(t.written as int, t.writes@.len() as int);
        assert(rest_t =~= rest.drop_first());
        assert(write_instructions(rest) =~= seq![s.pending().unwrap()] + write_instructions(
            rest_t,
        ));
    } else {
        let t = s.after(true);
        assert(t.trace() =~= Seq::empty());
        assert(write_instructions(rest) =~= Seq::empty());
    }
}

/// When every instruction succeeds, a fresh session executes VMXON on its
/// VMXON region, then VMCLEAR and VMPTRLD on its VMCS, then one VMWRITE per
/// field in order, then VMLAUNCH: the VMCS is loaded only after it was
/// cleared, and written only after it was loaded.
pub proof fn lemma_session_order(s: Vmx)
    requires
        s.wf(),
        s.stage == Stage::Uninitialized,
    ensures
        s.trace() == launch_plan(s.vmxon_address, s.vmcs_address, s.writes@),
{
    let s1 = s.after(true);
    let s2 = s1.after(true);
    let s3 = s2.after(true);
    lemma_trace_of_active(s3);
    assert(s3.writes@.subrange(0, s3.writes@.len() as int) =~= s.writes@);
    assert(s2.trace() == seq![Instruction::Vmptrld { address: s.vmcs_address }] + s3.trace());
    assert(s1.trace() == seq![Instruction::Vmclear { address: s.vmcs_address }] + s2.trace());
    assert(s.trace() == seq![Instruction::Vmxon { address: s.vmxon_address }] + s1.trace());
    assert(s.trace() =~= launch_plan(s.vmxon_address, s.vmcs_address, s.writes@));
}

/// A failed instruction ends the session: the failure is reported with the
/// kind of that instruction, and nothing more is executed. In particular a
/// failed VMPTRLD is followed by no VMWRITE and no VMLAUNCH.
pub proof fn lemma_failure_stops(s: Vmx)
    requires
        s.wf(),
        s.pending() is Some,
    ensures
        s.after(false).stage == Stage::Failed(failure_of(s.pending().unwrap())),
        s.after(false).pending() is None,
        s.after(false).trace() == Seq::<Instruction>::empty(),
        s.stage == Stage::VmcsCleared ==> s.after(false).stage == Stage::Failed(
            HypervisorError::VMPTRLDFailed,
        ),
{
}

} // verus!
