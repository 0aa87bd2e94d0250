//! Architectural CPU registers, internal addressing latches, and the
//! per-microinstruction semantics.
//!
//! Every microinstruction is one tick: it touches the register file and
//! performs at most one CPU-bus access. The `micro_*` spec functions are the
//! mathematical transition relation; each executable method is proved to
//! implement its spec function exactly.

use crate::bus::{CpuBus, CpuBusView};
use crate::micro_instructions::{MicroInstruction, MicroInstructionSequence, MicroSeqView};
use crate::operations::Operation;
use vstd::prelude::*;

verus! {

/// One bit of the 6502 status register.
#[derive(Clone, Copy, PartialEq, Eq, Structural, Debug)]
pub enum CPUFlag {
    CarryBit,
    Zero,
    InterruptDisable,
    DecimalMode,
    Break,
    Unused,
    Overflow,
    Negative,
}

impl CPUFlag {
    pub open spec fn spec_value(self) -> u8 {
        match self {
            CPUFlag::CarryBit => 0x01,
            CPUFlag::Zero => 0x02,
            CPUFlag::InterruptDisable => 0x04,
            CPUFlag::DecimalMode => 0x08,
            CPUFlag::Break => 0x10,
            CPUFlag::Unused => 0x20,
            CPUFlag::Overflow => 0x40,
            CPUFlag::Negative => 0x80,
        }
    }

    pub fn value(&self) -> (r: u8)
        ensures
            r == self.spec_value(),
    {
        match *self {
            Self::CarryBit => 0x01,
            Self::Zero => 0x02,
            Self::InterruptDisable => 0x04,
            Self::DecimalMode => 0x08,
            Self::Break => 0x10,
            Self::Unused => 0x20,
            Self::Overflow => 0x40,
            Self::Negative => 0x80,
        }
    }
}

/// The status byte with one flag forced to `value`.
pub open spec fn spec_set_flag_value(status: u8, flag: CPUFlag, value: bool) -> u8 {
    if value {
        status | flag.spec_value()
    } else {
        status & !flag.spec_value()
    }
}

/// The status byte after the Zero and Negative flags are taken from `v`.
pub open spec fn spec_zn(status: u8, v: u8) -> u8 {
    spec_set_flag_value(
        spec_set_flag_value(status, CPUFlag::Zero, v == 0),
        CPUFlag::Negative,
        v & 0x80 != 0,
    )
}

/// The program counter after consuming one byte (wraps at the top of the
/// address space; two's-complement wrap-around is defined behaviour).
pub open spec fn spec_pc_inc(pc: u16) -> u16 {
    if pc == 0xFFFF {
        0
    } else {
        (pc + 1) as u16
    }
}

/// Eight-bit wrap-around addition (zero-page indexing wraps modulo 256).
pub open spec fn spec_wrap_add8(a: u8, b: u8) -> u8 {
    ((a + b) % 0x100) as u8
}

/// Eight-bit wrap-around subtraction.
pub open spec fn spec_wrap_sub8(a: u8, b: u8) -> u8 {
    (if a >= b { a - b } else { a + 0x100 - b }) as u8
}

/// Sixteen-bit wrap-around addition.
pub open spec fn spec_wrap_add16(a: u16, b: u16) -> u16 {
    ((a + b) % 0x10000) as u16
}

/// The 16-bit address with high byte `high` and low byte `low`.
pub open spec fn spec_abs(high: u8, low: u8) -> u16 {
    (high * 0x100 + low) as u16
}

/// The page-1 stack address for a stack pointer value.
pub open spec fn spec_stack_addr(sp: u8) -> u16 {
    (0x0100 + sp) as u16
}

/// Join two bytes into the 16-bit address `high:low`.
pub fn make_address(high: u8, low: u8) -> (r: u16)
    ensures
        r == spec_abs(high, low),
{
    let r = ((high as u16) << 8) | low as u16;
    proof {
        assert(((high as u16) << 8) | (low as u16) == (high as u16) * 0x100 + (low as u16))
            by (bit_vector);
    }
    r
}

/// The architectural register file, the internal latches the microcode
/// carries values across cycles in, and the decoded microsequences.
pub struct Registers {
    pub x: u8,
    pub y: u8,
    pub a: u8,
    pub program_counter: u16,
    pub stack_ptr: u8,
    pub status: u8,
    pub operation: u8,
    pub adl: u8,
    pub adh: u8,
    pub bal: u8,
    pub bah: u8,
    pub ial: u8,
    pub decoded_addressing_mode: Option<MicroInstructionSequence>,
    pub decoded_operation: Option<MicroInstructionSequence>,
    pub memory_buffer: u8,
}

/// Mathematical model of a `Registers` value.
pub ghost struct RegistersView {
    pub x: u8,
    pub y: u8,
    pub a: u8,
    pub program_counter: u16,
    pub stack_ptr: u8,
    pub status: u8,
    pub operation: u8,
    pub adl: u8,
    pub adh: u8,
    pub bal: u8,
    pub bah: u8,
    pub ial: u8,
    pub decoded_addressing_mode: Option<MicroSeqView>,
    pub decoded_operation: Option<MicroSeqView>,
    pub memory_buffer: u8,
}

/// The view of an optional microsequence.
pub open spec fn spec_opt_seq_view(o: Option<MicroInstructionSequence>) -> Option<MicroSeqView> {
    match o {
        Some(s) => Some(s@),
        None => None,
    }
}

impl View for Registers {
    type V = RegistersView;

    open spec fn view(&self) -> RegistersView {
        RegistersView {
            x: self.x,
            y: self.y,
            a: self.a,
            program_counter: self.program_counter,
            stack_ptr: self.stack_ptr,
            status: self.status,
            operation: self.operation,
            adl: self.adl,
            adh: self.adh,
            bal: self.bal,
            bah: self.bah,
            ial: self.ial,
            decoded_addressing_mode: match self.decoded_addressing_mode {
                Some(ref s) => Some(s@),
                None => None,
            },
            decoded_operation: match self.decoded_operation {
                Some(ref s) => Some(s@),
                None => None,
            },
            memory_buffer: self.memory_buffer,
        }
    }
}

impl RegistersView {
    /// Any decoded sequence keeps its cursor inside bounds.
    pub open spec fn wf(self) -> bool {
        &&& match self.decoded_addressing_mode {
            Some(s) => s.wf(),
            None => true,
        }
        &&& match self.decoded_operation {
            Some(s) => s.wf(),
            None => true,
        }
    }

    /// Is the decoded addressing sequence present and still running?
    /// While it is, it is the active sequence; afterwards the operation
    /// sequence takes over.
    pub open spec fn spec_addressing_active(self) -> bool {
        match self.decoded_addressing_mode {
            Some(s) => !s.spec_completed(),
            None => false,
        }
    }

    pub open spec fn spec_operation_completed(self) -> bool {
        match self.decoded_operation {
            Some(s) => s.spec_completed(),
            None => false,
        }
    }

    pub open spec fn micro_read_operation_code(self, bus: CpuBusView) -> (RegistersView, CpuBusView) {
        (
            RegistersView { operation: bus.spec_read(self.program_counter), ..self },
            bus.spec_after_read(self.program_counter),
        )
    }

    /// Can the held opcode be decoded? If not, the machine halts with a
    /// fatal decode error.
    pub open spec fn spec_decodable(self) -> bool {
        Operation::spec_decode(self.operation) is Some
    }

    /// Decoding installs the opcode's two microsequences (cursors at the
    /// top) and consumes the opcode byte by stepping the program counter.
    /// An opcode outside the table leaves the registers unchanged.
    pub open spec fn micro_decode_operation(self) -> RegistersView {
        match Operation::spec_decode(self.operation) {
            Some(op) => RegistersView {
                decoded_addressing_mode: match op.spec_addressing_sequence() {
                    Some(s) => Some(MicroSeqView { sequence: s, idx: 0 }),
                    None => None,
                },
                decoded_operation: Some(
                    MicroSeqView { sequence: op.spec_operation_sequence(), idx: 0 },
                ),
                program_counter: spec_pc_inc(self.program_counter),
                ..self
            },
            None => self,
        }
    }

    pub open spec fn micro_immediate_read(self, bus: CpuBusView) -> (RegistersView, CpuBusView) {
        (
            RegistersView {
                memory_buffer: bus.spec_read(self.program_counter),
                program_counter: spec_pc_inc(self.program_counter),
                ..self
            },
            bus.spec_after_read(self.program_counter),
        )
    }

    pub open spec fn micro_read_adl(self, bus: CpuBusView) -> (RegistersView, CpuBusView) {
        (
            RegistersView {
                adl: bus.spec_read(self.program_counter),
                program_counter: spec_pc_inc(self.program_counter),
                ..self
            },
            bus.spec_after_read(self.program_counter),
        )
    }

    pub open spec fn micro_read_adh(self, bus: CpuBusView) -> (RegistersView, CpuBusView) {
        (
            RegistersView {
                adh: bus.spec_read(self.program_counter),
                program_counter: spec_pc_inc(self.program_counter),
                ..self
            },
            bus.spec_after_read(self.program_counter),
        )
    }

    pub open spec fn micro_read_bal(self, bus: CpuBusView) -> (RegistersView, CpuBusView) {
        (
            RegistersView {
                bal: bus.spec_read(self.program_counter),
                program_counter: spec_pc_inc(self.program_counter),
                ..self
            },
            bus.spec_after_read(self.program_counter),
        )
    }

    pub open spec fn micro_read_bah(self, bus: CpuBusView) -> (RegistersView, CpuBusView) {
        (
            RegistersView {
                bah: bus.spec_read(self.program_counter),
                program_counter: spec_pc_inc(self.program_counter),
                ..self
            },
            bus.spec_after_read(self.program_counter),
        )
    }

    pub open spec fn micro_read_ial(self, bus: CpuBusView) -> (RegistersView, CpuBusView) {
        (
            RegistersView {
                ial: bus.spec_read(self.program_counter),
                program_counter: spec_pc_inc(self.program_counter),
                ..self
            },
            bus.spec_after_read(self.program_counter),
        )
    }

    pub open spec fn micro_read_zero_page(self, bus: CpuBusView) -> (RegistersView, CpuBusView) {
        (
            RegistersView { memory_buffer: bus.spec_read(self.adl as u16), ..self },
            bus.spec_after_read(self.adl as u16),
        )
    }

    pub open spec fn micro_read_absolute(self, bus: CpuBusView) -> (RegistersView, CpuBusView) {
        let ea = spec_abs(self.adh, self.adl);
        (RegistersView { memory_buffer: bus.spec_read(ea), ..self }, bus.spec_after_read(ea))
    }

    pub open spec fn micro_read_adl_indirect_bal(self, bus: CpuBusView) -> (RegistersView, CpuBusView) {
        let ea = spec_wrap_add8(self.bal, self.x) as u16;
        (RegistersView { adl: bus.spec_read(ea), ..self }, bus.spec_after_read(ea))
    }

    pub open spec fn micro_read_adh_indirect_bal(self, bus: CpuBusView) -> (RegistersView, CpuBusView) {
        let ea = spec_wrap_add8(spec_wrap_add8(self.bal, self.x), 1) as u16;
        (RegistersView { adh: bus.spec_read(ea), ..self }, bus.spec_after_read(ea))
    }

    pub open spec fn micro_read_zero_page_bal_x(self, bus: CpuBusView) -> (RegistersView, CpuBusView) {
        let ea = spec_wrap_add8(self.bal, self.x) as u16;
        (RegistersView { memory_buffer: bus.spec_read(ea), ..self }, bus.spec_after_read(ea))
    }

    pub open spec fn micro_read_zero_page_bal_y(self, bus: CpuBusView) -> (RegistersView, CpuBusView) {
        let ea = spec_wrap_add8(self.bal, self.y) as u16;
        (RegistersView { memory_buffer: bus.spec_read(ea), ..self }, bus.spec_after_read(ea))
    }

    pub open spec fn micro_write_zero_page(self, bus: CpuBusView) -> (RegistersView, CpuBusView) {
        (self, bus.spec_write(self.adl as u16, self.memory_buffer))
    }

    pub open spec fn micro_write_absolute(self, bus: CpuBusView) -> (RegistersView, CpuBusView) {
        (self, bus.spec_write(spec_abs(self.adh, self.adl), self.memory_buffer))
    }

    pub open spec fn micro_write_zero_page_bal_x(self, bus: CpuBusView) -> (RegistersView, CpuBusView) {
        (self, bus.spec_write(spec_wrap_add8(self.bal, self.x) as u16, self.memory_buffer))
    }

    pub open spec fn micro_write_zero_page_bal_y(self, bus: CpuBusView) -> (RegistersView, CpuBusView) {
        (self, bus.spec_write(spec_wrap_add8(self.bal, self.y) as u16, self.memory_buffer))
    }

    /// Indexed absolute addressing: form `BAH:BAL`, add the index register,
    /// latch the final effective address into `ADH:ADL` (the write microops
    /// reuse those latches) and read the addressed byte.
    pub open spec fn micro_read_adl_adh_absolute_index(self, bus: CpuBusView, index: u8)
        -> (RegistersView, CpuBusView) {
        let ea = spec_wrap_add16(spec_abs(self.bah, self.bal), index as u16);
        (
            RegistersView {
                adh: (ea / 0x100) as u8,
                adl: (ea % 0x100) as u8,
                memory_buffer: bus.spec_read(ea),
                ..self
            },
            bus.spec_after_read(ea),
        )
    }

    pub open spec fn micro_read_adl_adh_absolute_x(self, bus: CpuBusView) -> (RegistersView, CpuBusView) {
        self.micro_read_adl_adh_absolute_index(bus, self.x)
    }

    pub open spec fn micro_read_adl_adh_absolute_y(self, bus: CpuBusView) -> (RegistersView, CpuBusView) {
        self.micro_read_adl_adh_absolute_index(bus, self.y)
    }

    pub open spec fn micro_read_bal_indirect_ial(self, bus: CpuBusView) -> (RegistersView, CpuBusView) {
        (RegistersView { bal: bus.spec_read(self.ial as u16), ..self }, bus.spec_after_read(self.ial as u16))
    }

    pub open spec fn micro_read_bah_indirect_ial(self, bus: CpuBusView) -> (RegistersView, CpuBusView) {
        let ea = (self.ial + 1) as u16;
        (RegistersView { bah: bus.spec_read(ea), ..self }, bus.spec_after_read(ea))
    }

    pub open spec fn micro_shift_left_accumulator(self) -> RegistersView {
        let result = (self.a << 1) as u8;
        RegistersView {
            a: result,
            status: spec_set_flag_value(
                spec_zn_after_carry(self.status, self.a & 0x80 != 0, result),
                CPUFlag::Negative,
                result & 0x80 != 0,
            ),
            ..self
        }
    }

    pub open spec fn micro_shift_left_memory_buffer(self) -> RegistersView {
        let result = (self.memory_buffer << 1) as u8;
        RegistersView {
            memory_buffer: result,
            status: spec_set_flag_value(
                spec_zn_after_carry(self.status, self.memory_buffer & 0x80 != 0, result),
                CPUFlag::Negative,
                result & 0x80 != 0,
            ),
            ..self
        }
    }

    pub open spec fn micro_increment_memory_buffer(self) -> RegistersView {
        let result = spec_wrap_add8(self.memory_buffer, 1);
        RegistersView { memory_buffer: result, status: spec_zn(self.status, result), ..self }
    }

    pub open spec fn micro_increment_x(self) -> RegistersView {
        let result = spec_wrap_add8(self.x, 1);
        RegistersView { x: result, status: spec_zn(self.status, result), ..self }
    }

    pub open spec fn micro_increment_y(self) -> RegistersView {
        let result = spec_wrap_add8(self.y, 1);
        RegistersView { y: result, status: spec_zn(self.status, result), ..self }
    }

    pub open spec fn micro_dec_memory_buffer(self) -> RegistersView {
        let result = spec_wrap_sub8(self.memory_buffer, 1);
        RegistersView { memory_buffer: result, status: spec_zn(self.status, result), ..self }
    }

    pub open spec fn micro_dec_x(self) -> RegistersView {
        let result = spec_wrap_sub8(self.x, 1);
        RegistersView { x: result, status: spec_zn(self.status, result), ..self }
    }

    pub open spec fn micro_dec_y(self) -> RegistersView {
        let result = spec_wrap_sub8(self.y, 1);
        RegistersView { y: result, status: spec_zn(self.status, result), ..self }
    }

    pub open spec fn micro_load_accumulator(self) -> RegistersView {
        RegistersView {
            a: self.memory_buffer,
            status: spec_zn(self.status, self.memory_buffer),
            ..self
        }
    }

    pub open spec fn micro_load_x(self) -> RegistersView {
        RegistersView {
            x: self.memory_buffer,
            status: spec_zn(self.status, self.memory_buffer),
            ..self
        }
    }

    pub open spec fn micro_load_y(self) -> RegistersView {
        RegistersView {
            y: self.memory_buffer,
            status: spec_zn(self.status, self.memory_buffer),
            ..self
        }
    }

    pub open spec fn micro_store_accumulator(self) -> RegistersView {
        RegistersView { memory_buffer: self.a, ..self }
    }

    pub open spec fn micro_store_x(self) -> RegistersView {
        RegistersView { memory_buffer: self.x, ..self }
    }

    pub open spec fn micro_store_y(self) -> RegistersView {
        RegistersView { memory_buffer: self.y, ..self }
    }

    pub open spec fn micro_and(self) -> RegistersView {
        let result = self.a & self.memory_buffer;
        RegistersView { a: result, status: spec_zn(self.status, result), ..self }
    }

    pub open spec fn micro_xor(self) -> RegistersView {
        let result = self.a ^ self.memory_buffer;
        RegistersView { a: result, status: spec_zn(self.status, result), ..self }
    }

    pub open spec fn micro_or(self) -> RegistersView {
        let result = self.a | self.memory_buffer;
        RegistersView { a: result, status: spec_zn(self.status, result), ..self }
    }

    pub open spec fn micro_transfer_acc_to_x(self) -> RegistersView {
        RegistersView { x: self.a, status: spec_zn(self.status, self.a), ..self }
    }

    pub open spec fn micro_transfer_acc_to_y(self) -> RegistersView {
        RegistersView { y: self.a, status: spec_zn(self.status, self.a), ..self }
    }

    pub open spec fn micro_transfer_stackptr_to_x(self) -> RegistersView {
        RegistersView { x: self.stack_ptr, status: spec_zn(self.status, self.stack_ptr), ..self }
    }

    pub open spec fn micro_transfer_x_to_acc(self) -> RegistersView {
        RegistersView { a: self.x, status: spec_zn(self.status, self.x), ..self }
    }

    /// TXS is the one transfer that touches no flags.
    pub open spec fn micro_transfer_x_to_stackptr(self) -> RegistersView {
        RegistersView { stack_ptr: self.x, ..self }
    }

    pub open spec fn micro_transfer_y_to_acc(self) -> RegistersView {
        RegistersView { a: self.y, status: spec_zn(self.status, self.y), ..self }
    }

    pub open spec fn micro_push_accumulator(self, bus: CpuBusView) -> (RegistersView, CpuBusView) {
        (
            RegistersView { stack_ptr: spec_wrap_sub8(self.stack_ptr, 1), ..self },
            bus.spec_write(spec_stack_addr(self.stack_ptr), self.a),
        )
    }

    /// PHP pushes the status byte with the Break and Unused bits forced to 1.
    pub open spec fn micro_push_status_register(self, bus: CpuBusView) -> (RegistersView, CpuBusView) {
        (
            RegistersView { stack_ptr: spec_wrap_sub8(self.stack_ptr, 1), ..self },
            bus.spec_write(
                spec_stack_addr(self.stack_ptr),
                self.status | (CPUFlag::Break.spec_value() | CPUFlag::Unused.spec_value()),
            ),
        )
    }

    pub open spec fn micro_pull_accumulator(self, bus: CpuBusView) -> (RegistersView, CpuBusView) {
        let sp = spec_wrap_add8(self.stack_ptr, 1);
        let value = bus.spec_read(spec_stack_addr(sp));
        (
            RegistersView { stack_ptr: sp, a: value, status: spec_zn(self.status, value), ..self },
            bus.spec_after_read(spec_stack_addr(sp)),
        )
    }

    /// PLP takes every flag from the pulled byte except Break and Unused,
    /// which keep their current values.
    pub open spec fn micro_pull_status_register(self, bus: CpuBusView) -> (RegistersView, CpuBusView) {
        let sp = spec_wrap_add8(self.stack_ptr, 1);
        let value = bus.spec_read(spec_stack_addr(sp));
        let keep = CPUFlag::Break.spec_value() | CPUFlag::Unused.spec_value();
        (
            RegistersView {
                stack_ptr: sp,
                status: (value & !keep) | (self.status & keep),
                ..self
            },
            bus.spec_after_read(spec_stack_addr(sp)),
        )
    }

    pub open spec fn micro_set_flag(self, flag: CPUFlag) -> RegistersView {
        RegistersView { status: self.status | flag.spec_value(), ..self }
    }

    pub open spec fn micro_clear_flag(self, flag: CPUFlag) -> RegistersView {
        RegistersView { status: self.status & !flag.spec_value(), ..self }
    }
}

/// Carry from the shifted-out bit, then Zero from the result (the Negative
/// update follows at the caller).
pub open spec fn spec_zn_after_carry(status: u8, carry: bool, result: u8) -> u8 {
    spec_set_flag_value(
        spec_set_flag_value(status, CPUFlag::CarryBit, carry),
        CPUFlag::Zero,
        result == 0,
    )
}

/// The fatal condition of the interpreter: the fetched opcode is not in the
/// decode table. Carries the opcode and the program counter it was fetched
/// from.
#[derive(Clone, Copy, PartialEq, Eq, Structural, Debug)]
pub struct DecodeError {
    pub opcode: u8,
    pub program_counter: u16,
}

/// The page-1 stack address for a stack pointer value.
pub fn make_stack_address(stack_ptr: u8) -> (r: u16)
    ensures
        r == spec_stack_addr(stack_ptr),
{
    0x0100 + stack_ptr as u16
}

/// Power-on register state: everything cleared, stack pointer at the top
/// of page 1, nothing decoded.
pub open spec fn spec_initial_registers() -> RegistersView {
    RegistersView {
        x: 0,
        y: 0,
        a: 0,
        program_counter: 0,
        stack_ptr: 0xFF,
        status: 0,
        operation: 0,
        adl: 0,
        adh: 0,
        bal: 0,
        bah: 0,
        ial: 0,
        decoded_addressing_mode: None,
        decoded_operation: None,
        memory_buffer: 0,
    }
}

impl Registers {
    /// Power-on state: everything cleared, stack pointer at the top of
    /// page 1, nothing decoded.
    pub fn new() -> (r: Registers)
        ensures
            r@ == spec_initial_registers(),
            r@.wf(),
    {
        Registers {
            x: 0x00,
            y: 0x00,
            a: 0x00,
            program_counter: 0x0000,
            stack_ptr: 0xFF,
            status: 0x00,
            operation: 0x00,
            adl: 0x00,
            adh: 0x00,
            bal: 0x00,
            bah: 0x00,
            ial: 0x00,
            decoded_addressing_mode: None,
            decoded_operation: None,
            memory_buffer: 0x00,
        }
    }

    /// The active decoded sequence: the addressing sequence while it is
    /// present and still running, the operation sequence afterwards.
    pub fn get_operation(&mut self) -> (r: &mut Option<MicroInstructionSequence>)
        ensures
            *r == (if old(self)@.spec_addressing_active() {
                old(self).decoded_addressing_mode
            } else {
                old(self).decoded_operation
            }),
            final(self)@ == (if old(self)@.spec_addressing_active() {
                RegistersView {
                    decoded_addressing_mode: spec_opt_seq_view(*final(r)),
                    ..old(self)@
                }
            } else {
                RegistersView { decoded_operation: spec_opt_seq_view(*final(r)), ..old(self)@ }
            }),
    {
        match self.decoded_addressing_mode {
            Some(ref decoded_addressing_mode) => {
                if decoded_addressing_mode.is_completed() {
                    &mut self.decoded_operation
                } else {
                    &mut self.decoded_addressing_mode
                }
            },
            None => &mut self.decoded_operation,
        }
    }

    /// Is the decoded addressing sequence present and still running?
    pub fn addressing_active(&self) -> (r: bool)
        ensures
            r == self@.spec_addressing_active(),
    {
        match &self.decoded_addressing_mode {
            Some(s) => !s.is_completed(),
            None => false,
        }
    }

    pub fn is_operation_completed(&self) -> (r: bool)
        ensures
            r == self@.spec_operation_completed(),
    {
        match &self.decoded_operation {
            Some(operation) => operation.is_completed(),
            None => false,
        }
    }

    pub fn set_flag(&mut self, flag: CPUFlag)
        ensures
            final(self)@ == old(self)@.micro_set_flag(flag),
    {
        self.status = self.status | flag.value();
    }

    pub fn clear_flag(&mut self, flag: CPUFlag)
        ensures
            final(self)@ == old(self)@.micro_clear_flag(flag),
    {
        self.status = self.status & !flag.value();
    }

    pub fn set_flag_value(&mut self, flag: CPUFlag, value: bool)
        ensures
            final(self)@ == (RegistersView {
                status: spec_set_flag_value(old(self).status, flag, value),
                ..old(self)@
            }),
    {
        if value {
            self.set_flag(flag);
        } else {
            self.clear_flag(flag);
        }
    }

    pub fn is_flag_set(&self, flag: CPUFlag) -> (r: bool)
        ensures
            r == (self.status & flag.spec_value() != 0),
    {
        self.status & flag.value() != 0
    }

    pub fn reset_flags(&mut self)
        ensures
            final(self)@ == (RegistersView { status: 0, ..old(self)@ }),
    {
        self.status = 0x00;
    }

    pub fn step_program_counter(&mut self)
        ensures
            final(self)@ == (RegistersView {
                program_counter: spec_pc_inc(old(self).program_counter),
                ..old(self)@
            }),
    {
        self.program_counter = self.program_counter.wrapping_add(1);
    }

    /// Latch the opcode at PC; the PC advances later, during decode.
    pub fn read_operation_code(&mut self, bus: &mut CpuBus)
        requires
            old(bus)@.wf(),
        ensures
            (final(self)@, final(bus)@) == old(self)@.micro_read_operation_code(old(bus)@),
            final(bus)@.wf(),
    {
        self.operation = bus.read(self.program_counter);
    }

    /// Consult the opcode table, install the addressing and operation
    /// microsequences, and step the PC past the opcode byte. An opcode
    /// outside the table is the interpreter's one fatal condition: nothing
    /// changes and the offending opcode and PC are reported.
    pub fn decode_operation(&mut self) -> (r: Result<(), DecodeError>)
        ensures
            final(self)@ == old(self)@.micro_decode_operation(),
            r is Ok <==> old(self)@.spec_decodable(),
            r matches Err(e) ==> e == (DecodeError {
                opcode: old(self).operation,
                program_counter: old(self).program_counter,
            }),
    {
        let operation_code = self.operation;

        if let Some(operation) = Operation::get_operation(operation_code) {
            let micro_instructions = operation.get_micro_instructions();
            self.decoded_addressing_mode = micro_instructions.addressing_sequence;
            self.decoded_operation = Some(micro_instructions.operation_sequence);
            self.step_program_counter();
            Ok(())
        } else {
            Err(DecodeError { opcode: operation_code, program_counter: self.program_counter })
        }
    }

    pub fn immediate_read(&mut self, bus: &mut CpuBus)
        requires
            old(bus)@.wf(),
        ensures
            (final(self)@, final(bus)@) == old(self)@.micro_immediate_read(old(bus)@),
            final(bus)@.wf(),
    {
        self.memory_buffer = bus.read(self.program_counter);
        self.step_program_counter();
    }

    pub fn read_adl(&mut self, bus: &mut CpuBus)
        requires
            old(bus)@.wf(),
        ensures
            (final(self)@, final(bus)@) == old(self)@.micro_read_adl(old(bus)@),
            final(bus)@.wf(),
    {
        self.adl = bus.read(self.program_counter);
        self.step_program_counter();
    }

    pub fn read_adh(&mut self, bus: &mut CpuBus)
        requires
            old(bus)@.wf(),
        ensures
            (final(self)@, final(bus)@) == old(self)@.micro_read_adh(old(bus)@),
            final(bus)@.wf(),
    {
        self.adh = bus.read(self.program_counter);
        self.step_program_counter();
    }

    pub fn read_bal(&mut self, bus: &mut CpuBus)
        requires
            old(bus)@.wf(),
        ensures
            (final(self)@, final(bus)@) == old(self)@.micro_read_bal(old(bus)@),
            final(bus)@.wf(),
    {
        self.bal = bus.read(self.program_counter);
        self.step_program_counter();
    }

    pub fn read_bah(&mut self, bus: &mut CpuBus)
        requires
            old(bus)@.wf(),
        ensures
            (final(self)@, final(bus)@) == old(self)@.micro_read_bah(old(bus)@),
            final(bus)@.wf(),
    {
        self.bah = bus.read(self.program_counter);
        self.step_program_counter();
    }

    pub fn read_ial(&mut self, bus: &mut CpuBus)
        requires
            old(bus)@.wf(),
        ensures
            (final(self)@, final(bus)@) == old(self)@.micro_read_ial(old(bus)@),
            final(bus)@.wf(),
    {
        self.ial = bus.read(self.program_counter);
        self.step_program_counter();
    }

    pub fn read_zero_page(&mut self, bus: &mut CpuBus)
        requires
            old(bus)@.wf(),
        ensures
            (final(self)@, final(bus)@) == old(self)@.micro_read_zero_page(old(bus)@),
            final(bus)@.wf(),
    {
        self.memory_buffer = bus.read(self.adl as u16);
    }

    pub fn read_absolute(&mut self, bus: &mut CpuBus)
        requires
            old(bus)@.wf(),
        ensures
            (final(self)@, final(bus)@) == old(self)@.micro_read_absolute(old(bus)@),
            final(bus)@.wf(),
    {
        let address = make_address(self.adh, self.adl);
        self.memory_buffer = bus.read(address);
    }

    pub fn read_adl_indirect_bal(&mut self, bus: &mut CpuBus)
        requires
            old(bus)@.wf(),
        ensures
            (final(self)@, final(bus)@) == old(self)@.micro_read_adl_indirect_bal(old(bus)@),
            final(bus)@.wf(),
    {
        let address = self.bal.wrapping_add(self.x) as u16;
        self.adl = bus.read(address);
    }

    pub fn read_adh_indirect_bal(&mut self, bus: &mut CpuBus)
        requires
            old(bus)@.wf(),
        ensures
            (final(self)@, final(bus)@) == old(self)@.micro_read_adh_indirect_bal(old(bus)@),
            final(bus)@.wf(),
    {
        let address = self.bal.wrapping_add(self.x).wrapping_add(1) as u16;
        self.adh = bus.read(address);
    }

    pub fn read_zero_page_bal_x(&mut self, bus: &mut CpuBus)
        requires
            old(bus)@.wf(),
        ensures
            (final(self)@, final(bus)@) == old(self)@.micro_read_zero_page_bal_x(old(bus)@),
            final(bus)@.wf(),
    {
        let address = self.bal.wrapping_add(self.x) as u16;
        self.memory_buffer = bus.read(address);
    }

    pub fn read_zero_page_bal_y(&mut self, bus: &mut CpuBus)
        requires
            old(bus)@.wf(),
        ensures
            (final(self)@, final(bus)@) == old(self)@.micro_read_zero_page_bal_y(old(bus)@),
            final(bus)@.wf(),
    {
        let address = self.bal.wrapping_add(self.y) as u16;
        self.memory_buffer = bus.read(address);
    }

    pub fn write_zero_page(&mut self, bus: &mut CpuBus)
        requires
            old(bus)@.wf(),
        ensures
            (final(self)@, final(bus)@) == old(self)@.micro_write_zero_page(old(bus)@),
            final(bus)@.wf(),
    {
        bus.write(self.adl as u16, self.memory_buffer);
    }

    pub fn write_absolute(&mut self, bus: &mut CpuBus)
        requires
            old(bus)@.wf(),
        ensures
            (final(self)@, final(bus)@) == old(self)@.micro_write_absolute(old(bus)@),
            final(bus)@.wf(),
    {
        let address = make_address(self.adh, self.adl);
        bus.write(address, self.memory_buffer);
    }

    pub fn write_zero_page_bal_x(&mut self, bus: &mut CpuBus)
        requires
            old(bus)@.wf(),
        ensures
            (final(self)@, final(bus)@) == old(self)@.micro_write_zero_page_bal_x(old(bus)@),
            final(bus)@.wf(),
    {
        let address = self.bal.wrapping_add(self.x) as u16;
        bus.write(address, self.memory_buffer);
    }

    pub fn write_zero_page_bal_y(&mut self, bus: &mut CpuBus)
        requires
            old(bus)@.wf(),
        ensures
            (final(self)@, final(bus)@) == old(self)@.micro_write_zero_page_bal_y(old(bus)@),
            final(bus)@.wf(),
    {
        let address = self.bal.wrapping_add(self.y) as u16;
        bus.write(address, self.memory_buffer);
    }

    /// Indexed absolute addressing: latch the final effective address into
    /// `ADH:ADL` so the write microops can reuse it, then read the byte.
    pub fn read_adl_adh_absolute_index_register(&mut self, bus: &mut CpuBus, index_register: u8)
        requires
            old(bus)@.wf(),
        ensures
            (final(self)@, final(bus)@)
                == old(self)@.micro_read_adl_adh_absolute_index(old(bus)@, index_register),
            final(bus)@.wf(),
    {
        let base = make_address(self.bah, self.bal);
        let address = base.wrapping_add(index_register as u16);
        self.adh = (address >> 8) as u8;
        self.adl = (address & 0xFF) as u8;
        proof {
            assert((address >> 8) == address / 0x100 && (address & 0xFF) == address % 0x100
                && address / 0x100 <= 0xFF) by (bit_vector);
        }
        self.memory_buffer = bus.read(address);
    }

    pub fn read_adl_adh_absolute_x(&mut self, bus: &mut CpuBus)
        requires
            old(bus)@.wf(),
        ensures
            (final(self)@, final(bus)@) == old(self)@.micro_read_adl_adh_absolute_x(old(bus)@),
            final(bus)@.wf(),
    {
        let x = self.x;
        self.read_adl_adh_absolute_index_register(bus, x);
    }

    pub fn read_adl_adh_absolute_y(&mut self, bus: &mut CpuBus)
        requires
            old(bus)@.wf(),
        ensures
            (final(self)@, final(bus)@) == old(self)@.micro_read_adl_adh_absolute_y(old(bus)@),
            final(bus)@.wf(),
    {
        let y = self.y;
        self.read_adl_adh_absolute_index_register(bus, y);
    }

    pub fn read_bal_indirect_ial(&mut self, bus: &mut CpuBus)
        requires
            old(bus)@.wf(),
        ensures
            (final(self)@, final(bus)@) == old(self)@.micro_read_bal_indirect_ial(old(bus)@),
            final(bus)@.wf(),
    {
        self.bal = bus.read(self.ial as u16);
    }

    pub fn read_bah_indirect_ial(&mut self, bus: &mut CpuBus)
        requires
            old(bus)@.wf(),
        ensures
            (final(self)@, final(bus)@) == old(self)@.micro_read_bah_indirect_ial(old(bus)@),
            final(bus)@.wf(),
    {
        self.bah = bus.read(self.ial as u16 + 1);
    }

    pub fn shift_left_accumulator(&mut self)
        ensures
            final(self)@ == old(self)@.micro_shift_left_accumulator(),
    {
        let is_carry = self.a & 0x80 != 0;
        self.a = self.a << 1;
        let is_negative = self.a & 0x80 != 0;

        self.set_flag_value(CPUFlag::CarryBit, is_carry);
        self.set_flag_value(CPUFlag::Zero, self.a == 0);
        self.set_flag_value(CPUFlag::Negative, is_negative);
    }

    pub fn shift_left_memory_buffer(&mut self)
        ensures
            final(self)@ == old(self)@.micro_shift_left_memory_buffer(),
    {
        let is_carry = self.memory_buffer & 0x80 != 0;
        self.memory_buffer = self.memory_buffer << 1;
        let is_negative = self.memory_buffer & 0x80 != 0;

        self.set_flag_value(CPUFlag::CarryBit, is_carry);
        self.set_flag_value(CPUFlag::Zero, self.memory_buffer == 0);
        self.set_flag_value(CPUFlag::Negative, is_negative);
    }

    pub fn increment_memory_buffer(&mut self)
        ensures
            final(self)@ == old(self)@.micro_increment_memory_buffer(),
    {
        self.memory_buffer = self.memory_buffer.wrapping_add(1u8);
        let is_zero = self.memory_buffer == 0;
        let is_negative = self.memory_buffer & 0x80 != 0;

        self.set_flag_value(CPUFlag::Zero, is_zero);
        self.set_flag_value(CPUFlag::Negative, is_negative);
    }

    pub fn increment_x(&mut self)
        ensures
            final(self)@ == old(self)@.micro_increment_x(),
    {
        self.x = self.x.wrapping_add(1u8);
        let is_zero = self.x == 0;
        let is_negative = self.x & 0x80 != 0;

        self.set_flag_value(CPUFlag::Zero, is_zero);
        self.set_flag_value(CPUFlag::Negative, is_negative);
    }

    pub fn increment_y(&mut self)
        ensures
            final(self)@ == old(self)@.micro_increment_y(),
    {
        self.y = self.y.wrapping_add(1u8);
        let is_zero = self.y == 0;
        let is_negative = self.y & 0x80 != 0;

        self.set_flag_value(CPUFlag::Zero, is_zero);
        self.set_flag_value(CPUFlag::Negative, is_negative);
    }

    pub fn dec_memory_buffer(&mut self)
        ensures
            final(self)@ == old(self)@.micro_dec_memory_buffer(),
    {
        self.memory_buffer = self.memory_buffer.wrapping_sub(1u8);
        let is_zero = self.memory_buffer == 0;
        let is_negative = self.memory_buffer & 0x80 != 0;

        self.set_flag_value(CPUFlag::Zero, is_zero);
        self.set_flag_value(CPUFlag::Negative, is_negative);
    }

    pub fn dec_x(&mut self)
        ensures
            final(self)@ == old(self)@.micro_dec_x(),
    {
        self.x = self.x.wrapping_sub(1u8);
        let is_zero = self.x == 0;
        let is_negative = self.x & 0x80 != 0;

        self.set_flag_value(CPUFlag::Zero, is_zero);
        self.set_flag_value(CPUFlag::Negative, is_negative);
    }

    pub fn dec_y(&mut self)
        ensures
            final(self)@ == old(self)@.micro_dec_y(),
    {
        self.y = self.y.wrapping_sub(1u8);
        let is_zero = self.y == 0;
        let is_negative = self.y & 0x80 != 0;

        self.set_flag_value(CPUFlag::Zero, is_zero);
        self.set_flag_value(CPUFlag::Negative, is_negative);
    }

    pub fn load_accumulator(&mut self)
        ensures
            final(self)@ == old(self)@.micro_load_accumulator(),
    {
        self.a = self.memory_buffer;
        let is_zero = self.a == 0;
        let is_negative = self.a & 0x80 != 0;

        self.set_flag_value(CPUFlag::Zero, is_zero);
        self.set_flag_value(CPUFlag::Negative, is_negative);
    }

    pub fn load_x(&mut self)
        ensures
            final(self)@ == old(self)@.micro_load_x(),
    {
        self.x = self.memory_buffer;
        let is_zero = self.x == 0;
        let is_negative = self.x & 0x80 != 0;

        self.set_flag_value(CPUFlag::Zero, is_zero);
        self.set_flag_value(CPUFlag::Negative, is_negative);
    }

    pub fn load_y(&mut self)
        ensures
            final(self)@ == old(self)@.micro_load_y(),
    {
        self.y = self.memory_buffer;
        let is_zero = self.y == 0;
        let is_negative = self.y & 0x80 != 0;

        self.set_flag_value(CPUFlag::Zero, is_zero);
        self.set_flag_value(CPUFlag::Negative, is_negative);
    }

    pub fn and(&mut self)
        ensures
            final(self)@ == old(self)@.micro_and(),
    {
        self.a = self.a & self.memory_buffer;
        let is_zero = self.a == 0;
        let is_negative = self.a & 0x80 != 0;

        self.set_flag_value(CPUFlag::Zero, is_zero);
        self.set_flag_value(CPUFlag::Negative, is_negative);
    }

    pub fn xor(&mut self)
        ensures
            final(self)@ == old(self)@.micro_xor(),
    {
        self.a = self.a ^ self.memory_buffer;
        let is_zero = self.a == 0;
        let is_negative = self.a & 0x80 != 0;

        self.set_flag_value(CPUFlag::Zero, is_zero);
        self.set_flag_value(CPUFlag::Negative, is_negative);
    }

    pub fn or(&mut self)
        ensures
            final(self)@ == old(self)@.micro_or(),
    {
        self.a = self.a | self.memory_buffer;
        let is_zero = self.a == 0;
        let is_negative = self.a & 0x80 != 0;

        self.set_flag_value(CPUFlag::Zero, is_zero);
        self.set_flag_value(CPUFlag::Negative, is_negative);
    }

    pub fn transfer_acc_to_x(&mut self)
        ensures
            final(self)@ == old(self)@.micro_transfer_acc_to_x(),
    {
        self.x = self.a;
        let is_zero = self.x == 0;
        let is_negative = self.x & 0x80 != 0;

        self.set_flag_value(CPUFlag::Zero, is_zero);
        self.set_flag_value(CPUFlag::Negative, is_negative);
    }

    pub fn transfer_acc_to_y(&mut self)
        ensures
            final(self)@ == old(self)@.micro_transfer_acc_to_y(),
    {
        self.y = self.a;
        let is_zero = self.y == 0;
        let is_negative = self.y & 0x80 != 0;

        self.set_flag_value(CPUFlag::Zero, is_zero);
        self.set_flag_value(CPUFlag::Negative, is_negative);
    }

    pub fn transfer_stackptr_to_x(&mut self)
        ensures
            final(self)@ == old(self)@.micro_transfer_stackptr_to_x(),
    {
        self.x = self.stack_ptr;
        let is_zero = self.x == 0;
        let is_negative = self.x & 0x80 != 0;

        self.set_flag_value(CPUFlag::Zero, is_zero);
        self.set_flag_value(CPUFlag::Negative, is_negative);
    }

    pub fn transfer_x_to_acc(&mut self)
        ensures
            final(self)@ == old(self)@.micro_transfer_x_to_acc(),
    {
        self.a = self.x;
        let is_zero = self.a == 0;
        let is_negative = self.a & 0x80 != 0;

        self.set_flag_value(CPUFlag::Zero, is_zero);
        self.set_flag_value(CPUFlag::Negative, is_negative);
    }

    pub fn transfer_y_to_acc(&mut self)
        ensures
            final(self)@ == old(self)@.micro_transfer_y_to_acc(),
    {
        self.a = self.y;
        let is_zero = self.a == 0;
        let is_negative = self.a & 0x80 != 0;

        self.set_flag_value(CPUFlag::Zero, is_zero);
        self.set_flag_value(CPUFlag::Negative, is_negative);
    }

    /// Copy the accumulator into the memory buffer for the following write
    /// microinstruction; stores touch no flags.
    pub fn store_accumulator(&mut self)
        ensures
            final(self)@ == old(self)@.micro_store_accumulator(),
    {
        self.memory_buffer = self.a;
    }

    pub fn store_x(&mut self)
        ensures
            final(self)@ == old(self)@.micro_store_x(),
    {
        self.memory_buffer = self.x;
    }

    pub fn store_y(&mut self)
        ensures
            final(self)@ == old(self)@.micro_store_y(),
    {
        self.memory_buffer = self.y;
    }

    /// TXS copies X into the stack pointer and touches no flags.
    pub fn transfer_x_to_stackptr(&mut self)
        ensures
            final(self)@ == old(self)@.micro_transfer_x_to_stackptr(),
    {
        self.stack_ptr = self.x;
    }

    /// Push the accumulator at `$0100+SP`, then decrement SP.
    pub fn push_accumulator(&mut self, bus: &mut CpuBus)
        requires
            old(bus)@.wf(),
        ensures
            (final(self)@, final(bus)@) == old(self)@.micro_push_accumulator(old(bus)@),
            final(bus)@.wf(),
    {
        let address = make_stack_address(self.stack_ptr);
        bus.write(address, self.a);
        self.stack_ptr = self.stack_ptr.wrapping_sub(1);
    }

    /// Push the status byte with Break and Unused forced to 1, then
    /// decrement SP.
    pub fn push_status_register(&mut self, bus: &mut CpuBus)
        requires
            old(bus)@.wf(),
        ensures
            (final(self)@, final(bus)@) == old(self)@.micro_push_status_register(old(bus)@),
            final(bus)@.wf(),
    {
        let address = make_stack_address(self.stack_ptr);
        let pushed = self.status | (CPUFlag::Break.value() | CPUFlag::Unused.value());
        bus.write(address, pushed);
        self.stack_ptr = self.stack_ptr.wrapping_sub(1);
    }

    /// Increment SP, then pull the accumulator from `$0100+SP`; Zero and
    /// Negative follow the pulled value.
    pub fn pull_accumulator(&mut self, bus: &mut CpuBus)
        requires
            old(bus)@.wf(),
        ensures
            (final(self)@, final(bus)@) == old(self)@.micro_pull_accumulator(old(bus)@),
            final(bus)@.wf(),
    {
        self.stack_ptr = self.stack_ptr.wrapping_add(1);
        let address = make_stack_address(self.stack_ptr);
        let value = bus.read(address);
        self.a = value;
        let is_zero = value == 0;
        let is_negative = value & 0x80 != 0;
        self.set_flag_value(CPUFlag::Zero, is_zero);
        self.set_flag_value(CPUFlag::Negative, is_negative);
    }

    /// Increment SP, then pull the status byte from `$0100+SP`; Break and
    /// Unused keep their current values.
    pub fn pull_status_register(&mut self, bus: &mut CpuBus)
        requires
            old(bus)@.wf(),
        ensures
            (final(self)@, final(bus)@) == old(self)@.micro_pull_status_register(old(bus)@),
            final(bus)@.wf(),
    {
        self.stack_ptr = self.stack_ptr.wrapping_add(1);
        let address = make_stack_address(self.stack_ptr);
        let value = bus.read(address);
        let keep = CPUFlag::Break.value() | CPUFlag::Unused.value();
        self.status = (value & !keep) | (self.status & keep);
    }
}

} // verus!
