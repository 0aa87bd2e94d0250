//! The CPU engine: a two-state fetch/execute machine that performs exactly
//! one microinstruction per `step` call.
//!
//! In the fetching phase the fixed sequence `[ReadOperationCode,
//! DecodeOperation]` runs; decoding installs an addressing microsequence
//! (for non-implicit modes) and an operation microsequence. In the execution
//! phase the addressing sequence runs to completion first, then the
//! operation sequence; when the operation sequence completes, the machine
//! returns to fetching.

use crate::bus::{CpuBus, CpuBusView};
use crate::micro_instructions::{MicroInstruction, MicroInstructionSequence, MicroSeqView};
use crate::operations::Operation;
use crate::registers::{CPUFlag, DecodeError, Registers, RegistersView};
use vstd::prelude::*;

verus! {

/// Which phase the engine is in.
#[derive(Clone, Copy, PartialEq, Eq, Structural, Debug)]
pub enum CPUState {
    Fetching,
    Execution,
}

/// What one microinstruction does to the register file and the bus. The
/// decode microinstruction leaves everything unchanged when the opcode is
/// not in the table; that case is the fatal decode error.
pub open spec fn spec_apply_micro(mi: MicroInstruction, regs: RegistersView, bus: CpuBusView)
    -> (RegistersView, CpuBusView) {
    match mi {
        MicroInstruction::Empty => (regs, bus),
        MicroInstruction::ReadOperationCode => regs.micro_read_operation_code(bus),
        MicroInstruction::DecodeOperation => (regs.micro_decode_operation(), bus),
        MicroInstruction::ImmediateRead => regs.micro_immediate_read(bus),
        MicroInstruction::ReadAdl => regs.micro_read_adl(bus),
        MicroInstruction::ReadAdh => regs.micro_read_adh(bus),
        MicroInstruction::ReadZeroPage => regs.micro_read_zero_page(bus),
        MicroInstruction::ReadAbsolute => regs.micro_read_absolute(bus),
        MicroInstruction::ReadBal => regs.micro_read_bal(bus),
        MicroInstruction::ReadBah => regs.micro_read_bah(bus),
        MicroInstruction::ReadAdlIndirectBal => regs.micro_read_adl_indirect_bal(bus),
        MicroInstruction::ReadAdhIndirectBal => regs.micro_read_adh_indirect_bal(bus),
        MicroInstruction::ReadZeroPageBalX => regs.micro_read_zero_page_bal_x(bus),
        MicroInstruction::ReadZeroPageBalY => regs.micro_read_zero_page_bal_y(bus),
        MicroInstruction::ReadAdlAdhAbsoluteX => regs.micro_read_adl_adh_absolute_x(bus),
        MicroInstruction::ReadAdlAdhAbsoluteY => regs.micro_read_adl_adh_absolute_y(bus),
        MicroInstruction::ReadIal => regs.micro_read_ial(bus),
        MicroInstruction::ReadBalIndirectIal => regs.micro_read_bal_indirect_ial(bus),
        MicroInstruction::ReadBahIndirectIal => regs.micro_read_bah_indirect_ial(bus),
        MicroInstruction::WriteZeroPage => regs.micro_write_zero_page(bus),
        MicroInstruction::WriteZeroPageBalX => regs.micro_write_zero_page_bal_x(bus),
        MicroInstruction::WriteZeroPageBalY => regs.micro_write_zero_page_bal_y(bus),
        MicroInstruction::WriteAbsolute => regs.micro_write_absolute(bus),
        MicroInstruction::ClearCarryFlag => (regs.micro_clear_flag(CPUFlag::CarryBit), bus),
        MicroInstruction::ClearDecimalFlag => (regs.micro_clear_flag(CPUFlag::DecimalMode), bus),
        MicroInstruction::ClearInterruptDisableFlag => (regs.micro_clear_flag(CPUFlag::InterruptDisable), bus),
        MicroInstruction::ClearOverflowFlag => (regs.micro_clear_flag(CPUFlag::Overflow), bus),
        MicroInstruction::SetCarryFlag => (regs.micro_set_flag(CPUFlag::CarryBit), bus),
        MicroInstruction::SetDecimalFlag => (regs.micro_set_flag(CPUFlag::DecimalMode), bus),
        MicroInstruction::SetInterruptDisableFlag => (regs.micro_set_flag(CPUFlag::InterruptDisable), bus),
        MicroInstruction::ShiftLeftAccumulator => (regs.micro_shift_left_accumulator(), bus),
        MicroInstruction::ShiftLeftMemoryBuffer => (regs.micro_shift_left_memory_buffer(), bus),
        MicroInstruction::PushAccumulator => regs.micro_push_accumulator(bus),
        MicroInstruction::PushStatusRegister => regs.micro_push_status_register(bus),
        MicroInstruction::PullAccumulator => regs.micro_pull_accumulator(bus),
        MicroInstruction::PullStatusRegister => regs.micro_pull_status_register(bus),
        MicroInstruction::IncrementMemoryBuffer => (regs.micro_increment_memory_buffer(), bus),
        MicroInstruction::IncrementX => (regs.micro_increment_x(), bus),
        MicroInstruction::IncrementY => (regs.micro_increment_y(), bus),
        MicroInstruction::DecrementMemoryBuffer => (regs.micro_dec_memory_buffer(), bus),
        MicroInstruction::DecrementX => (regs.micro_dec_x(), bus),
        MicroInstruction::DecrementY => (regs.micro_dec_y(), bus),
        MicroInstruction::LoadAccumulator => (regs.micro_load_accumulator(), bus),
        MicroInstruction::LoadX => (regs.micro_load_x(), bus),
        MicroInstruction::LoadY => (regs.micro_load_y(), bus),
        MicroInstruction::StoreAccumulator => (regs.micro_store_accumulator(), bus),
        MicroInstruction::StoreX => (regs.micro_store_x(), bus),
        MicroInstruction::StoreY => (regs.micro_store_y(), bus),
        MicroInstruction::TransferAccumulatorToX => (regs.micro_transfer_acc_to_x(), bus),
        MicroInstruction::TransferAccumulatorToY => (regs.micro_transfer_acc_to_y(), bus),
        MicroInstruction::TransferStackptrToX => (regs.micro_transfer_stackptr_to_x(), bus),
        MicroInstruction::TransferXToAccumulator => (regs.micro_transfer_x_to_acc(), bus),
        MicroInstruction::TransferXToStackptr => (regs.micro_transfer_x_to_stackptr(), bus),
        MicroInstruction::TransferYToAccumulator => (regs.micro_transfer_y_to_acc(), bus),
        MicroInstruction::And => (regs.micro_and(), bus),
        MicroInstruction::Xor => (regs.micro_xor(), bus),
        MicroInstruction::Or => (regs.micro_or(), bus),
    }
}

/// Does executing `mi` on `regs` hit the fatal unknown-opcode condition?
pub open spec fn spec_micro_fails(mi: MicroInstruction, regs: RegistersView) -> bool {
    mi is DecodeOperation && !regs.spec_decodable()
}

/// How many bus accesses one microinstruction performs: one for every
/// memory-touching microinstruction, none for the purely internal ones.
pub open spec fn spec_micro_accesses(mi: MicroInstruction) -> int {
    match mi {
        MicroInstruction::Empty => 0,
        MicroInstruction::ReadOperationCode => 1,
        MicroInstruction::DecodeOperation => 0,
        MicroInstruction::ImmediateRead => 1,
        MicroInstruction::ReadAdl => 1,
        MicroInstruction::ReadAdh => 1,
        MicroInstruction::ReadZeroPage => 1,
        MicroInstruction::ReadAbsolute => 1,
        MicroInstruction::ReadBal => 1,
        MicroInstruction::ReadBah => 1,
        MicroInstruction::ReadAdlIndirectBal => 1,
        MicroInstruction::ReadAdhIndirectBal => 1,
        MicroInstruction::ReadZeroPageBalX => 1,
        MicroInstruction::ReadZeroPageBalY => 1,
        MicroInstruction::ReadAdlAdhAbsoluteX => 1,
        MicroInstruction::ReadAdlAdhAbsoluteY => 1,
        MicroInstruction::ReadIal => 1,
        MicroInstruction::ReadBalIndirectIal => 1,
        MicroInstruction::ReadBahIndirectIal => 1,
        MicroInstruction::WriteZeroPage => 1,
        MicroInstruction::WriteZeroPageBalX => 1,
        MicroInstruction::WriteZeroPageBalY => 1,
        MicroInstruction::WriteAbsolute => 1,
        MicroInstruction::ClearCarryFlag => 0,
        MicroInstruction::ClearDecimalFlag => 0,
        MicroInstruction::ClearInterruptDisableFlag => 0,
        MicroInstruction::ClearOverflowFlag => 0,
        MicroInstruction::SetCarryFlag => 0,
        MicroInstruction::SetDecimalFlag => 0,
        MicroInstruction::SetInterruptDisableFlag => 0,
        MicroInstruction::ShiftLeftAccumulator => 0,
        MicroInstruction::ShiftLeftMemoryBuffer => 0,
        MicroInstruction::PushAccumulator => 1,
        MicroInstruction::PushStatusRegister => 1,
        MicroInstruction::PullAccumulator => 1,
        MicroInstruction::PullStatusRegister => 1,
        MicroInstruction::IncrementMemoryBuffer => 0,
        MicroInstruction::IncrementX => 0,
        MicroInstruction::IncrementY => 0,
        MicroInstruction::DecrementMemoryBuffer => 0,
        MicroInstruction::DecrementX => 0,
        MicroInstruction::DecrementY => 0,
        MicroInstruction::LoadAccumulator => 0,
        MicroInstruction::LoadX => 0,
        MicroInstruction::LoadY => 0,
        MicroInstruction::StoreAccumulator => 0,
        MicroInstruction::StoreX => 0,
        MicroInstruction::StoreY => 0,
        MicroInstruction::TransferAccumulatorToX => 0,
        MicroInstruction::TransferAccumulatorToY => 0,
        MicroInstruction::TransferStackptrToX => 0,
        MicroInstruction::TransferXToAccumulator => 0,
        MicroInstruction::TransferXToStackptr => 0,
        MicroInstruction::TransferYToAccumulator => 0,
        MicroInstruction::And => 0,
        MicroInstruction::Xor => 0,
        MicroInstruction::Or => 0,
    }
}

/// Applying a microinstruction changes the bus access count by exactly the
/// microinstruction's own access count.
pub proof fn lemma_apply_micro_accesses(mi: MicroInstruction, regs: RegistersView, bus: CpuBusView)
    ensures
        spec_apply_micro(mi, regs, bus).1.accesses == bus.accesses + spec_micro_accesses(mi),
        0 <= spec_micro_accesses(mi) <= 1,
{
}

/// Every microinstruction but decode leaves the decoded sequences exactly
/// as they are: only decoding installs new ones.
pub proof fn lemma_apply_micro_decoded_fields(
    mi: MicroInstruction,
    regs: RegistersView,
    bus: CpuBusView,
)
    requires
        mi != MicroInstruction::DecodeOperation,
    ensures
        spec_apply_micro(mi, regs, bus).0.decoded_operation == regs.decoded_operation,
        spec_apply_micro(mi, regs, bus).0.decoded_addressing_mode
            == regs.decoded_addressing_mode,
{
}

/// A successful step keeps the engine invariant (apart from the bus's own
/// well-formedness, which the bus operations preserve themselves).
pub proof fn lemma_step_wf_core(m: CpuView)
    requires
        m.wf(),
        !m.spec_step_fails(),
    ensures
        m.spec_step().wf_core(),
{
    let sel = m.spec_select();
    let mi = sel.current_micro_instruction->Some_0;
    let stepped = m.spec_step();
    if m.state is Fetching {
        if sel.state is Execution {
            // The fetch sequence just completed, so the decode
            // microinstruction ran and installed fresh sequences.
            assert(mi == MicroInstruction::DecodeOperation);
            let op = Operation::spec_decode(sel.registers.operation)->Some_0;
            crate::operations::lemma_sequences_nonempty(op);
            crate::operations::lemma_table_sequences_no_decode(op);
            assert(stepped.wf_core());
        } else {
            assert(mi == MicroInstruction::ReadOperationCode);
            assert(stepped.wf_core());
        }
    } else {
        // Execution: the selected microinstruction comes from a decoded
        // sequence, which never holds the decode microinstruction.
        if m.registers.spec_addressing_active() {
            let s = m.registers.decoded_addressing_mode->Some_0;
            assert(mi == s.sequence[s.idx]);
            assert(mi != MicroInstruction::DecodeOperation);
        } else {
            let s = m.registers.decoded_operation->Some_0;
            assert(mi == s.sequence[s.idx]);
            assert(mi != MicroInstruction::DecodeOperation);
        }
        lemma_apply_micro_decoded_fields(mi, sel.registers, sel.bus);
        assert(sel.registers.wf());
        assert(stepped.wf_core());
    }
}

/// The CPU: the register file, the engine state, and exclusive ownership of
/// the CPU bus.
pub struct CPU {
    pub bus: CpuBus,
    pub registers: Registers,
    pub state: CPUState,
    pub fetching_operation: MicroInstructionSequence,
    pub current_micro_instruction: Option<MicroInstruction>,
}

/// Mathematical model of a `CPU` value.
pub ghost struct CpuView {
    pub bus: CpuBusView,
    pub registers: RegistersView,
    pub state: CPUState,
    pub fetching_operation: MicroSeqView,
    pub current_micro_instruction: Option<MicroInstruction>,
}

impl View for CPU {
    type V = CpuView;

    open spec fn view(&self) -> CpuView {
        CpuView {
            bus: self.bus@,
            registers: self.registers@,
            state: self.state,
            fetching_operation: self.fetching_operation@,
            current_micro_instruction: self.current_micro_instruction,
        }
    }
}

/// Does this microsequence stay clear of the decode microinstruction?
/// Decoded sequences always do: decode only appears in the fetch sequence.
pub open spec fn spec_no_decode(s: Seq<MicroInstruction>) -> bool {
    forall|i: int| 0 <= i < s.len() ==> s[i] != MicroInstruction::DecodeOperation
}

impl CpuView {
    /// The engine's invariant, established by `CPU::new` and preserved by
    /// every successful `step`:
    /// * the bus and register file are well formed;
    /// * the fetch sequence is the fixed two-step sequence, its cursor on
    ///   one of its steps, and back at the top whenever execution runs;
    /// * in the execution phase a decoded operation sequence exists and has
    ///   not completed;
    /// * decoded sequences never contain the decode microinstruction.
    pub open spec fn wf(self) -> bool {
        &&& self.bus.wf()
        &&& self.wf_core()
    }

    /// Everything of `wf` that does not concern the bus.
    pub open spec fn wf_core(self) -> bool {
        &&& self.registers.wf()
        &&& self.fetching_operation.sequence.len() == 2
        &&& self.fetching_operation.sequence[0] == MicroInstruction::ReadOperationCode
        &&& self.fetching_operation.sequence[1] == MicroInstruction::DecodeOperation
        &&& 0 <= self.fetching_operation.idx <= 1
        &&& self.state is Execution ==> self.fetching_operation.idx == 0
        &&& self.state is Execution ==> match self.registers.decoded_operation {
            Some(s) => !s.spec_completed(),
            None => false,
        }
        &&& match self.registers.decoded_operation {
            Some(s) => spec_no_decode(s.sequence),
            None => true,
        }
        &&& match self.registers.decoded_addressing_mode {
            Some(s) => spec_no_decode(s.sequence),
            None => true,
        }
    }

    /// The first half of a step: pick the microinstruction under the active
    /// cursor, advance that cursor, and move between phases. In the fetching
    /// phase the fetch sequence is active; in the execution phase the
    /// addressing sequence is active until it completes, then the operation
    /// sequence, whose completion returns the machine to fetching.
    pub open spec fn spec_select(self) -> CpuView {
        if self.state is Fetching {
            let mi = self.fetching_operation.spec_current();
            let advanced = self.fetching_operation.spec_next();
            if advanced.spec_completed() {
                CpuView {
                    state: CPUState::Execution,
                    fetching_operation: advanced.spec_reset(),
                    current_micro_instruction: Some(mi),
                    ..self
                }
            } else {
                CpuView {
                    fetching_operation: advanced,
                    current_micro_instruction: Some(mi),
                    ..self
                }
            }
        } else if self.registers.spec_addressing_active() {
            let s = self.registers.decoded_addressing_mode->Some_0;
            let regs = RegistersView {
                decoded_addressing_mode: Some(s.spec_next()),
                ..self.registers
            };
            CpuView {
                registers: regs,
                state: if regs.spec_operation_completed() {
                    CPUState::Fetching
                } else {
                    CPUState::Execution
                },
                current_micro_instruction: Some(s.spec_current()),
                ..self
            }
        } else {
            let s = self.registers.decoded_operation->Some_0;
            let regs = RegistersView { decoded_operation: Some(s.spec_next()), ..self.registers };
            CpuView {
                registers: regs,
                state: if regs.spec_operation_completed() {
                    CPUState::Fetching
                } else {
                    CPUState::Execution
                },
                current_micro_instruction: Some(s.spec_current()),
                ..self
            }
        }
    }

    /// One whole tick: select and advance, then apply the selected
    /// microinstruction to the registers and the bus.
    pub open spec fn spec_step(self) -> CpuView {
        let selected = self.spec_select();
        match selected.current_micro_instruction {
            Some(mi) => {
                let (regs, bus) = spec_apply_micro(mi, selected.registers, selected.bus);
                CpuView { registers: regs, bus: bus, ..selected }
            },
            None => selected,
        }
    }

    /// Does this tick hit the fatal unknown-opcode condition?
    pub open spec fn spec_step_fails(self) -> bool {
        spec_micro_fails(
            self.spec_select().current_micro_instruction->Some_0,
            self.spec_select().registers,
        )
    }
}

impl CPU {
    /// A CPU in the fetching phase, about to read its first opcode, owning
    /// `bus`.
    pub fn new(bus: CpuBus) -> (r: CPU)
        requires
            bus@.wf(),
        ensures
            r@ == (CpuView {
                bus: bus@,
                registers: crate::registers::spec_initial_registers(),
                state: CPUState::Fetching,
                fetching_operation: MicroSeqView {
                    sequence: seq![
                        MicroInstruction::ReadOperationCode,
                        MicroInstruction::DecodeOperation,
                    ],
                    idx: 0,
                },
                current_micro_instruction: None::<MicroInstruction>,
            }),
            r@.wf(),
    {
        let registers = Registers::new();
        let state = CPUState::Fetching;
        let mut fetch_instructions: Vec<MicroInstruction> = Vec::new();
        fetch_instructions.push(MicroInstruction::ReadOperationCode);
        fetch_instructions.push(MicroInstruction::DecodeOperation);
        let fetching_operations = MicroInstructionSequence::new(fetch_instructions);

        let r = CPU {
            bus,
            registers,
            state,
            fetching_operation: fetching_operations,
            current_micro_instruction: None,
        };
        proof {
            assert(r@.fetching_operation.sequence =~= seq![
                MicroInstruction::ReadOperationCode,
                MicroInstruction::DecodeOperation,
            ]);
        }
        r
    }

    /// Advance one tick: run exactly one microinstruction, performing at
    /// most one bus access. The only failure is the fatal decode error on an
    /// opcode outside the table, which leaves the machine state exactly as
    /// the transition relation describes and reports the opcode and the PC
    /// it was fetched from.
    #[verifier::rlimit(100)]
    #[verifier::spinoff_prover]
    pub fn step(&mut self) -> (r: Result<(), DecodeError>)
        requires
            old(self)@.wf(),
        ensures
            final(self)@ == old(self)@.spec_step(),
            r is Ok <==> !old(self)@.spec_step_fails(),
            r is Ok ==> final(self)@.wf(),
            r matches Err(e) ==> e == (DecodeError {
                opcode: old(self)@.spec_select().registers.operation,
                program_counter: old(self)@.spec_select().registers.program_counter,
            }),
    {
        match self.state {
            CPUState::Fetching => {
                self.fetch_step();
            },
            CPUState::Execution => {
                self.execute_step();
            },
        }

        let result = match self.current_micro_instruction {
            Some(micro_instruction) => self.execute_micro_instruction(micro_instruction),
            None => Ok(()),
        };
        proof {
            if result is Ok {
                lemma_step_wf_core(old(self)@);
            }
        }
        result
    }

    /// The fetching phase: advance the fetch cursor; completing the fetch
    /// sequence resets it and moves the machine into execution.
    fn fetch_step(&mut self)
        requires
            old(self)@.wf(),
            old(self)@.state is Fetching,
        ensures
            final(self)@ == old(self)@.spec_select(),
    {
        let micro_instruction = self.fetching_operation.get_micro_instruction();
        self.current_micro_instruction = Some(micro_instruction);
        self.fetching_operation.next();

        if self.fetching_operation.is_completed() {
            self.fetching_operation.reset();
            self.state = CPUState::Execution;
        }
    }

    /// The execution phase: advance the active decoded sequence; when the
    /// operation sequence has completed, return to fetching.
    fn execute_step(&mut self)
        requires
            old(self)@.wf(),
            old(self)@.state is Execution,
        ensures
            final(self)@ == old(self)@.spec_select(),
    {
        if self.registers.addressing_active() {
            let micro_instruction = match &self.registers.decoded_addressing_mode {
                Some(s) => s.get_micro_instruction(),
                None => vstd::pervasive::unreached(),
            };
            self.current_micro_instruction = Some(micro_instruction);
            match &mut self.registers.decoded_addressing_mode {
                Some(s) => s.next(),
                None => vstd::pervasive::unreached(),
            }
        } else {
            let micro_instruction = match &self.registers.decoded_operation {
                Some(s) => s.get_micro_instruction(),
                None => vstd::pervasive::unreached(),
            };
            self.current_micro_instruction = Some(micro_instruction);
            match &mut self.registers.decoded_operation {
                Some(s) => s.next(),
                None => vstd::pervasive::unreached(),
            }
        }

        if self.registers.is_operation_completed() {
            self.state = CPUState::Fetching;
        }
    }

    /// Apply one microinstruction to the register file and the bus.
    fn execute_micro_instruction(&mut self, micro_instruction: MicroInstruction)
        -> (r: Result<(), DecodeError>)
        requires
            old(self)@.bus.wf(),
        ensures
            (final(self)@.registers, final(self)@.bus)
                == spec_apply_micro(micro_instruction, old(self)@.registers, old(self)@.bus),
            final(self)@.state == old(self)@.state,
            final(self)@.fetching_operation == old(self)@.fetching_operation,
            final(self)@.current_micro_instruction == old(self)@.current_micro_instruction,
            final(self)@.bus.wf(),
            r is Ok <==> !spec_micro_fails(micro_instruction, old(self)@.registers),
            r matches Err(e) ==> e == (DecodeError {
                opcode: old(self)@.registers.operation,
                program_counter: old(self)@.registers.program_counter,
            }),
    {
        match micro_instruction {
            MicroInstruction::Empty => {},
            MicroInstruction::ReadOperationCode => self.registers.read_operation_code(&mut self.bus),
            MicroInstruction::DecodeOperation => { return self.registers.decode_operation(); },
            MicroInstruction::ImmediateRead => self.registers.immediate_read(&mut self.bus),
            MicroInstruction::ReadAdl => self.registers.read_adl(&mut self.bus),
            MicroInstruction::ReadAdh => self.registers.read_adh(&mut self.bus),
            MicroInstruction::ReadZeroPage => self.registers.read_zero_page(&mut self.bus),
            MicroInstruction::ReadAbsolute => self.registers.read_absolute(&mut self.bus),
            MicroInstruction::ReadBal => self.registers.read_bal(&mut self.bus),
            MicroInstruction::ReadBah => self.registers.read_bah(&mut self.bus),
            MicroInstruction::ReadAdlIndirectBal => self.registers.read_adl_indirect_bal(&mut self.bus),
            MicroInstruction::ReadAdhIndirectBal => self.registers.read_adh_indirect_bal(&mut self.bus),
            MicroInstruction::ReadZeroPageBalX => self.registers.read_zero_page_bal_x(&mut self.bus),
            MicroInstruction::ReadZeroPageBalY => self.registers.read_zero_page_bal_y(&mut self.bus),
            MicroInstruction::ReadAdlAdhAbsoluteX => self.registers.read_adl_adh_absolute_x(&mut self.bus),
            MicroInstruction::ReadAdlAdhAbsoluteY => self.registers.read_adl_adh_absolute_y(&mut self.bus),
            MicroInstruction::ReadIal => self.registers.read_ial(&mut self.bus),
            MicroInstruction::ReadBalIndirectIal => self.registers.read_bal_indirect_ial(&mut self.bus),
            MicroInstruction::ReadBahIndirectIal => self.registers.read_bah_indirect_ial(&mut self.bus),
            MicroInstruction::WriteZeroPage => self.registers.write_zero_page(&mut self.bus),
            MicroInstruction::WriteZeroPageBalX => self.registers.write_zero_page_bal_x(&mut self.bus),
            MicroInstruction::WriteZeroPageBalY => self.registers.write_zero_page_bal_y(&mut self.bus),
            MicroInstruction::WriteAbsolute => self.registers.write_absolute(&mut self.bus),
            MicroInstruction::ClearCarryFlag => self.registers.clear_flag(CPUFlag::CarryBit),
            MicroInstruction::ClearDecimalFlag => self.registers.clear_flag(CPUFlag::DecimalMode),
            MicroInstruction::ClearInterruptDisableFlag => self.registers.clear_flag(CPUFlag::InterruptDisable),
            MicroInstruction::ClearOverflowFlag => self.registers.clear_flag(CPUFlag::Overflow),
            MicroInstruction::SetCarryFlag => self.registers.set_flag(CPUFlag::CarryBit),
            MicroInstruction::SetDecimalFlag => self.registers.set_flag(CPUFlag::DecimalMode),
            MicroInstruction::SetInterruptDisableFlag => self.registers.set_flag(CPUFlag::InterruptDisable),
            MicroInstruction::ShiftLeftAccumulator => self.registers.shift_left_accumulator(),
            MicroInstruction::ShiftLeftMemoryBuffer => self.registers.shift_left_memory_buffer(),
            MicroInstruction::PushAccumulator => self.registers.push_accumulator(&mut self.bus),
            MicroInstruction::PushStatusRegister => self.registers.push_status_register(&mut self.bus),
            MicroInstruction::PullAccumulator => self.registers.pull_accumulator(&mut self.bus),
            MicroInstruction::PullStatusRegister => self.registers.pull_status_register(&mut self.bus),
            MicroInstruction::IncrementMemoryBuffer => self.registers.increment_memory_buffer(),
            MicroInstruction::IncrementX => self.registers.increment_x(),
            MicroInstruction::IncrementY => self.registers.increment_y(),
            MicroInstruction::DecrementMemoryBuffer => self.registers.dec_memory_buffer(),
            MicroInstruction::DecrementX => self.registers.dec_x(),
            MicroInstruction::DecrementY => self.registers.dec_y(),
            MicroInstruction::LoadAccumulator => self.registers.load_accumulator(),
            MicroInstruction::LoadX => self.registers.load_x(),
            MicroInstruction::LoadY => self.registers.load_y(),
            MicroInstruction::StoreAccumulator => self.registers.store_accumulator(),
            MicroInstruction::StoreX => self.registers.store_x(),
            MicroInstruction::StoreY => self.registers.store_y(),
            MicroInstruction::TransferAccumulatorToX => self.registers.transfer_acc_to_x(),
            MicroInstruction::TransferAccumulatorToY => self.registers.transfer_acc_to_y(),
            MicroInstruction::TransferStackptrToX => self.registers.transfer_stackptr_to_x(),
            MicroInstruction::TransferXToAccumulator => self.registers.transfer_x_to_acc(),
            MicroInstruction::TransferXToStackptr => self.registers.transfer_x_to_stackptr(),
            MicroInstruction::TransferYToAccumulator => self.registers.transfer_y_to_acc(),
            MicroInstruction::And => self.registers.and(),
            MicroInstruction::Xor => self.registers.xor(),
            MicroInstruction::Or => self.registers.or(),
        }
        Ok(())
    }
}

/// At most one bus access occurs per `step`, and exactly one occurs
/// whenever the selected microinstruction touches memory: the access count
/// grows by precisely that microinstruction's access count, which is 0 or 1.
pub proof fn lemma_one_bus_access_per_step(m: CpuView)
    requires
        m.wf(),
    ensures
        m.spec_step().bus.accesses - m.bus.accesses
            == spec_micro_accesses(m.spec_select().current_micro_instruction->Some_0),
        0 <= spec_micro_accesses(m.spec_select().current_micro_instruction->Some_0) <= 1,
{
    let sel = m.spec_select();
    let mi = sel.current_micro_instruction->Some_0;
    lemma_apply_micro_accesses(mi, sel.registers, sel.bus);
}

/// Starting from a fetching CPU whose next opcode is in the table, two
/// `step` calls bring the machine into the execution phase with the decoded
/// addressing microsequence installed and active, or with the operation
/// microsequence active when the mode is implicit.
pub proof fn lemma_fetch_then_decode(m: CpuView)
    requires
        m.wf(),
        m.state is Fetching,
        m.fetching_operation.idx == 0,
        Operation::spec_decode(m.bus.spec_read(m.registers.program_counter)) is Some,
    ensures
        !m.spec_step_fails(),
        !m.spec_step().spec_step_fails(),
        ({
            let m2 = m.spec_step().spec_step();
            let op = Operation::spec_decode(m.bus.spec_read(m.registers.program_counter))->Some_0;
            &&& m2.state is Execution
            &&& match op.spec_addressing_sequence() {
                Some(s) => m2.registers.spec_addressing_active()
                    && m2.registers.decoded_addressing_mode
                        == Some(MicroSeqView { sequence: s, idx: 0 }),
                None => !m2.registers.spec_addressing_active()
                    && m2.registers.decoded_operation
                        == Some(MicroSeqView { sequence: op.spec_operation_sequence(), idx: 0 }),
            }
        }),
{
    let op = Operation::spec_decode(m.bus.spec_read(m.registers.program_counter))->Some_0;
    let m1 = m.spec_step();
    // First tick: read the opcode at PC into the opcode register.
    assert(m.spec_select().current_micro_instruction->Some_0
        == MicroInstruction::ReadOperationCode);
    assert(m1.registers.operation == m.bus.spec_read(m.registers.program_counter));
    assert(m1.state is Fetching && m1.fetching_operation.idx == 1);
    // Second tick: decode installs the opcode's sequences.
    assert(m1.spec_select().current_micro_instruction->Some_0
        == MicroInstruction::DecodeOperation);
    assert(m1.spec_select().state is Execution);
    crate::operations::lemma_sequences_nonempty(op);
    let m2 = m1.spec_step();
    assert(m2.registers == m1.spec_select().registers.micro_decode_operation());
}

/// When an instruction completes, the machine is back in the fetching phase
/// with the fetch cursor at the top, the decoded operation sequence has run
/// to completion, and no addressing sequence is active any more.
pub proof fn lemma_instruction_completion(m: CpuView)
    requires
        m.wf(),
        m.state is Execution,
        m.spec_step().state is Fetching,
    ensures
        m.spec_step().registers.spec_operation_completed(),
        !m.spec_step().registers.spec_addressing_active(),
        m.spec_step().fetching_operation.idx == 0,
{
    let sel = m.spec_select();
    let mi = sel.current_micro_instruction->Some_0;
    if m.registers.spec_addressing_active() {
        let s = m.registers.decoded_addressing_mode->Some_0;
        assert(mi == s.sequence[s.idx]);
        assert(mi != MicroInstruction::DecodeOperation);
    } else {
        let s = m.registers.decoded_operation->Some_0;
        assert(mi == s.sequence[s.idx]);
        assert(mi != MicroInstruction::DecodeOperation);
    }
    lemma_apply_micro_decoded_fields(mi, sel.registers, sel.bus);
}

} // verus!
