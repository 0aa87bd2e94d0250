//! The decoded opcode table: each supported operation names an addressing
//! microsequence (absent for implicit/accumulator modes) and an operation
//! microsequence.

use crate::micro_instructions::{MicroInstruction, MicroInstructionSequence, MicroSeqView};
use vstd::prelude::*;

verus! {

/// Every operation the decoder supports.
#[derive(Clone, Copy, PartialEq, Eq, Structural, Debug)]
pub enum Operation {
    AslA,
    AslZeroPage,
    AslZeroPageX,
    AslAbsolute,
    IncMemZeroPage,
    IncMemZeroPageX,
    IncMemAbsolute,
    IncMemAbsoluteX,
    IncX,
    IncY,
    DecMemZeroPage,
    DecMemZeroPageX,
    DecMemAbsolute,
    DecMemAbsoluteX,
    DecX,
    DecY,
    LoadAccImm,
    LoadAccZeroPage,
    LoadAccZeroPageX,
    LoadAccAbsolute,
    LoadAccAbsoluteX,
    LoadAccAbsoluteY,
    LoadAccIndirectX,
    LoadAccIndirectY,
    LoadXImm,
    LoadXZeroPage,
    LoadXZeroPageY,
    LoadXAbsolute,
    LoadXAbsoluteY,
    LoadYImm,
    LoadYZeroPage,
    LoadYZeroPageX,
    LoadYAbsolute,
    LoadYAbsoluteX,
    StoreAccZeroPage,
    StoreAccZeroPageX,
    StoreAccAbsolute,
    StoreAccAbsoluteX,
    StoreAccAbsoluteY,
    StoreAccIndirectX,
    StoreAccIndirectY,
    StoreXZeroPage,
    StoreXZeroPageY,
    StoreXAbsolute,
    StoreYZeroPage,
    StoreYZeroPageX,
    StoreYAbsolute,
    TransferAccToX,
    TransferAccToY,
    TransferStackptrToX,
    TransferXToAcc,
    TransferXToStackptr,
    TransferYToAcc,
    AndImm,
    AndZeroPage,
    AndZeroPageX,
    AndAbsolute,
    AndAbsoluteX,
    AndAbsoluteY,
    AndIndirectX,
    AndIndirectY,
    XorImm,
    XorZeroPage,
    XorZeroPageX,
    XorAbsolute,
    XorAbsoluteX,
    XorAbsoluteY,
    XorIndirectX,
    XorIndirectY,
    OrImm,
    OrZeroPage,
    OrZeroPageX,
    OrAbsolute,
    OrAbsoluteX,
    OrAbsoluteY,
    OrIndirectX,
    OrIndirectY,
    ClearCarryFlag,
    ClearDecimalFlag,
    ClearInterruptDisableFlag,
    ClearOverflowFlag,
    SetCarryFlag,
    SetDecimalFlag,
    SetInterruptDisableFlag,
    PushAcc,
    PushStatus,
    PullAcc,
    PullStatus,
}

/// The two microsequences an operation decodes into.
pub struct OperationMicroInstructions {
    pub addressing_sequence: Option<MicroInstructionSequence>,
    pub operation_sequence: MicroInstructionSequence,
}

pub open spec fn spec_immediate_addressing() -> Seq<MicroInstruction> {
    seq![MicroInstruction::ImmediateRead]
}

pub open spec fn spec_zero_page_addressing() -> Seq<MicroInstruction> {
    seq![MicroInstruction::ReadAdl, MicroInstruction::ReadZeroPage]
}

pub open spec fn spec_zero_page_x_addressing() -> Seq<MicroInstruction> {
    seq![MicroInstruction::ReadBal, MicroInstruction::Empty, MicroInstruction::ReadZeroPageBalX]
}

pub open spec fn spec_zero_page_y_addressing() -> Seq<MicroInstruction> {
    seq![MicroInstruction::ReadBal, MicroInstruction::Empty, MicroInstruction::ReadZeroPageBalY]
}

pub open spec fn spec_absolute_addressing() -> Seq<MicroInstruction> {
    seq![MicroInstruction::ReadAdl, MicroInstruction::ReadAdh, MicroInstruction::ReadAbsolute]
}

pub open spec fn spec_absolute_x_addressing() -> Seq<MicroInstruction> {
    seq![MicroInstruction::ReadBal, MicroInstruction::ReadBah, MicroInstruction::ReadAdlAdhAbsoluteX]
}

pub open spec fn spec_absolute_y_addressing() -> Seq<MicroInstruction> {
    seq![MicroInstruction::ReadBal, MicroInstruction::ReadBah, MicroInstruction::ReadAdlAdhAbsoluteY]
}

pub open spec fn spec_indirect_x_addressing() -> Seq<MicroInstruction> {
    seq![MicroInstruction::ReadBal, MicroInstruction::Empty, MicroInstruction::ReadAdlIndirectBal, MicroInstruction::ReadAdhIndirectBal, MicroInstruction::ReadAbsolute]
}

pub open spec fn spec_indirect_y_addressing() -> Seq<MicroInstruction> {
    seq![MicroInstruction::ReadIal, MicroInstruction::ReadBalIndirectIal, MicroInstruction::ReadBahIndirectIal, MicroInstruction::ReadAdlAdhAbsoluteY]
}

impl Operation {
    /// The addressing microsequence of this operation, if it has one.
    pub open spec fn spec_addressing_sequence(self) -> Option<Seq<MicroInstruction>> {
        match self {
            Operation::AslA => None,
            Operation::AslZeroPage => Some(spec_zero_page_addressing()),
            Operation::AslZeroPageX => Some(spec_zero_page_x_addressing()),
            Operation::AslAbsolute => Some(spec_absolute_addressing()),
            Operation::IncMemZeroPage => Some(spec_zero_page_addressing()),
            Operation::IncMemZeroPageX => Some(spec_zero_page_x_addressing()),
            Operation::IncMemAbsolute => Some(spec_absolute_addressing()),
            Operation::IncMemAbsoluteX => Some(spec_absolute_x_addressing()),
            Operation::IncX => None,
            Operation::IncY => None,
            Operation::DecMemZeroPage => Some(spec_zero_page_addressing()),
            Operation::DecMemZeroPageX => Some(spec_zero_page_x_addressing()),
            Operation::DecMemAbsolute => Some(spec_absolute_addressing()),
            Operation::DecMemAbsoluteX => Some(spec_absolute_x_addressing()),
            Operation::DecX => None,
            Operation::DecY => None,
            Operation::LoadAccImm => Some(spec_immediate_addressing()),
            Operation::LoadAccZeroPage => Some(spec_zero_page_addressing()),
            Operation::LoadAccZeroPageX => Some(spec_zero_page_x_addressing()),
            Operation::LoadAccAbsolute => Some(spec_absolute_addressing()),
            Operation::LoadAccAbsoluteX => Some(spec_absolute_x_addressing()),
            Operation::LoadAccAbsoluteY => Some(spec_absolute_y_addressing()),
            Operation::LoadAccIndirectX => Some(spec_indirect_x_addressing()),
            Operation::LoadAccIndirectY => Some(spec_indirect_y_addressing()),
            Operation::LoadXImm => Some(spec_immediate_addressing()),
            Operation::LoadXZeroPage => Some(spec_zero_page_addressing()),
            Operation::LoadXZeroPageY => Some(spec_zero_page_y_addressing()),
            Operation::LoadXAbsolute => Some(spec_absolute_addressing()),
            Operation::LoadXAbsoluteY => Some(spec_absolute_y_addressing()),
            Operation::LoadYImm => Some(spec_immediate_addressing()),
            Operation::LoadYZeroPage => Some(spec_zero_page_addressing()),
            Operation::LoadYZeroPageX => Some(spec_zero_page_x_addressing()),
            Operation::LoadYAbsolute => Some(spec_absolute_addressing()),
            Operation::LoadYAbsoluteX => Some(spec_absolute_x_addressing()),
            Operation::StoreAccZeroPage => Some(spec_zero_page_addressing()),
            Operation::StoreAccZeroPageX => Some(spec_zero_page_x_addressing()),
            Operation::StoreAccAbsolute => Some(spec_absolute_addressing()),
            Operation::StoreAccAbsoluteX => Some(spec_absolute_x_addressing()),
            Operation::StoreAccAbsoluteY => Some(spec_absolute_y_addressing()),
            Operation::StoreAccIndirectX => Some(spec_indirect_x_addressing()),
            Operation::StoreAccIndirectY => Some(spec_indirect_y_addressing()),
            Operation::StoreXZeroPage => Some(spec_zero_page_addressing()),
            Operation::StoreXZeroPageY => Some(spec_zero_page_y_addressing()),
            Operation::StoreXAbsolute => Some(spec_absolute_addressing()),
            Operation::StoreYZeroPage => Some(spec_zero_page_addressing()),
            Operation::StoreYZeroPageX => Some(spec_zero_page_x_addressing()),
            Operation::StoreYAbsolute => Some(spec_absolute_addressing()),
            Operation::TransferAccToX => None,
            Operation::TransferAccToY => None,
            Operation::TransferStackptrToX => None,
            Operation::TransferXToAcc => None,
            Operation::TransferXToStackptr => None,
            Operation::TransferYToAcc => None,
            Operation::AndImm => Some(spec_immediate_addressing()),
            Operation::AndZeroPage => Some(spec_zero_page_addressing()),
            Operation::AndZeroPageX => Some(spec_zero_page_x_addressing()),
            Operation::AndAbsolute => Some(spec_absolute_addressing()),
            Operation::AndAbsoluteX => Some(spec_absolute_x_addressing()),
            Operation::AndAbsoluteY => Some(spec_absolute_y_addressing()),
            Operation::AndIndirectX => Some(spec_indirect_x_addressing()),
            Operation::AndIndirectY => Some(spec_indirect_y_addressing()),
            Operation::XorImm => Some(spec_immediate_addressing()),
            Operation::XorZeroPage => Some(spec_zero_page_addressing()),
            Operation::XorZeroPageX => Some(spec_zero_page_x_addressing()),
            Operation::XorAbsolute => Some(spec_absolute_addressing()),
            Operation::XorAbsoluteX => Some(spec_absolute_x_addressing()),
            Operation::XorAbsoluteY => Some(spec_absolute_y_addressing()),
            Operation::XorIndirectX => Some(spec_indirect_x_addressing()),
            Operation::XorIndirectY => Some(spec_indirect_y_addressing()),
            Operation::OrImm => Some(spec_immediate_addressing()),
            Operation::OrZeroPage => Some(spec_zero_page_addressing()),
            Operation::OrZeroPageX => Some(spec_zero_page_x_addressing()),
            Operation::OrAbsolute => Some(spec_absolute_addressing()),
            Operation::OrAbsoluteX => Some(spec_absolute_x_addressing()),
            Operation::OrAbsoluteY => Some(spec_absolute_y_addressing()),
            Operation::OrIndirectX => Some(spec_indirect_x_addressing()),
            Operation::OrIndirectY => Some(spec_indirect_y_addressing()),
            Operation::ClearCarryFlag => None,
            Operation::ClearDecimalFlag => None,
            Operation::ClearInterruptDisableFlag => None,
            Operation::ClearOverflowFlag => None,
            Operation::SetCarryFlag => None,
            Operation::SetDecimalFlag => None,
            Operation::SetInterruptDisableFlag => None,
            Operation::PushAcc => None,
            Operation::PushStatus => None,
            Operation::PullAcc => None,
            Operation::PullStatus => None,
        }
    }

    /// The operation microsequence of this operation.
    pub open spec fn spec_operation_sequence(self) -> Seq<MicroInstruction> {
        match self {
            Operation::AslA => seq![MicroInstruction::ShiftLeftAccumulator],
            Operation::AslZeroPage => seq![MicroInstruction::ShiftLeftMemoryBuffer, MicroInstruction::WriteZeroPage],
            Operation::AslZeroPageX => seq![MicroInstruction::ShiftLeftMemoryBuffer, MicroInstruction::WriteZeroPageBalX],
            Operation::AslAbsolute => seq![MicroInstruction::ShiftLeftMemoryBuffer, MicroInstruction::WriteAbsolute],
            Operation::IncMemZeroPage => seq![MicroInstruction::IncrementMemoryBuffer, MicroInstruction::WriteZeroPage],
            Operation::IncMemZeroPageX => seq![MicroInstruction::IncrementMemoryBuffer, MicroInstruction::WriteZeroPageBalX],
            Operation::IncMemAbsolute => seq![MicroInstruction::IncrementMemoryBuffer, MicroInstruction::WriteAbsolute],
            Operation::IncMemAbsoluteX => seq![MicroInstruction::IncrementMemoryBuffer, MicroInstruction::WriteAbsolute],
            Operation::IncX => seq![MicroInstruction::IncrementX],
            Operation::IncY => seq![MicroInstruction::IncrementY],
            Operation::DecMemZeroPage => seq![MicroInstruction::DecrementMemoryBuffer, MicroInstruction::WriteZeroPage],
            Operation::DecMemZeroPageX => seq![MicroInstruction::DecrementMemoryBuffer, MicroInstruction::WriteZeroPageBalX],
            Operation::DecMemAbsolute => seq![MicroInstruction::DecrementMemoryBuffer, MicroInstruction::WriteAbsolute],
            Operation::DecMemAbsoluteX => seq![MicroInstruction::DecrementMemoryBuffer, MicroInstruction::WriteAbsolute],
            Operation::DecX => seq![MicroInstruction::DecrementX],
            Operation::DecY => seq![MicroInstruction::DecrementY],
            Operation::LoadAccImm => seq![MicroInstruction::LoadAccumulator],
            Operation::LoadAccZeroPage => seq![MicroInstruction::LoadAccumulator],
            Operation::LoadAccZeroPageX => seq![MicroInstruction::LoadAccumulator],
            Operation::LoadAccAbsolute => seq![MicroInstruction::LoadAccumulator],
            Operation::LoadAccAbsoluteX => seq![MicroInstruction::LoadAccumulator],
            Operation::LoadAccAbsoluteY => seq![MicroInstruction::LoadAccumulator],
            Operation::LoadAccIndirectX => seq![MicroInstruction::LoadAccumulator],
            Operation::LoadAccIndirectY => seq![MicroInstruction::LoadAccumulator],
            Operation::LoadXImm => seq![MicroInstruction::LoadX],
            Operation::LoadXZeroPage => seq![MicroInstruction::LoadX],
            Operation::LoadXZeroPageY => seq![MicroInstruction::LoadX],
            Operation::LoadXAbsolute => seq![MicroInstruction::LoadX],
            Operation::LoadXAbsoluteY => seq![MicroInstruction::LoadX],
            Operation::LoadYImm => seq![MicroInstruction::LoadY],
            Operation::LoadYZeroPage => seq![MicroInstruction::LoadY],
            Operation::LoadYZeroPageX => seq![MicroInstruction::LoadY],
            Operation::LoadYAbsolute => seq![MicroInstruction::LoadY],
            Operation::LoadYAbsoluteX => seq![MicroInstruction::LoadY],
            Operation::StoreAccZeroPage => seq![MicroInstruction::StoreAccumulator, MicroInstruction::WriteZeroPage],
            Operation::StoreAccZeroPageX => seq![MicroInstruction::StoreAccumulator, MicroInstruction::WriteZeroPageBalX],
            Operation::StoreAccAbsolute => seq![MicroInstruction::StoreAccumulator, MicroInstruction::WriteAbsolute],
            Operation::StoreAccAbsoluteX => seq![MicroInstruction::StoreAccumulator, MicroInstruction::WriteAbsolute],
            Operation::StoreAccAbsoluteY => seq![MicroInstruction::StoreAccumulator, MicroInstruction::WriteAbsolute],
            Operation::StoreAccIndirectX => seq![MicroInstruction::StoreAccumulator, MicroInstruction::WriteAbsolute],
            Operation::StoreAccIndirectY => seq![MicroInstruction::StoreAccumulator, MicroInstruction::WriteAbsolute],
            Operation::StoreXZeroPage => seq![MicroInstruction::StoreX, MicroInstruction::WriteZeroPage],
            Operation::StoreXZeroPageY => seq![MicroInstruction::StoreX, MicroInstruction::WriteZeroPageBalY],
            Operation::StoreXAbsolute => seq![MicroInstruction::StoreX, MicroInstruction::WriteAbsolute],
            Operation::StoreYZeroPage => seq![MicroInstruction::StoreY, MicroInstruction::WriteZeroPage],
            Operation::StoreYZeroPageX => seq![MicroInstruction::StoreY, MicroInstruction::WriteZeroPageBalX],
            Operation::StoreYAbsolute => seq![MicroInstruction::StoreY, MicroInstruction::WriteAbsolute],
            Operation::TransferAccToX => seq![MicroInstruction::TransferAccumulatorToX],
            Operation::TransferAccToY => seq![MicroInstruction::TransferAccumulatorToY],
            Operation::TransferStackptrToX => seq![MicroInstruction::TransferStackptrToX],
            Operation::TransferXToAcc => seq![MicroInstruction::TransferXToAccumulator],
            Operation::TransferXToStackptr => seq![MicroInstruction::TransferXToStackptr],
            Operation::TransferYToAcc => seq![MicroInstruction::TransferYToAccumulator],
            Operation::AndImm => seq![MicroInstruction::And],
            Operation::AndZeroPage => seq![MicroInstruction::And],
            Operation::AndZeroPageX => seq![MicroInstruction::And],
            Operation::AndAbsolute => seq![MicroInstruction::And],
            Operation::AndAbsoluteX => seq![MicroInstruction::And],
            Operation::AndAbsoluteY => seq![MicroInstruction::And],
            Operation::AndIndirectX => seq![MicroInstruction::And],
            Operation::AndIndirectY => seq![MicroInstruction::And],
            Operation::XorImm => seq![MicroInstruction::Xor],
            Operation::XorZeroPage => seq![MicroInstruction::Xor],
            Operation::XorZeroPageX => seq![MicroInstruction::Xor],
            Operation::XorAbsolute => seq![MicroInstruction::Xor],
            Operation::XorAbsoluteX => seq![MicroInstruction::Xor],
            Operation::XorAbsoluteY => seq![MicroInstruction::Xor],
            Operation::XorIndirectX => seq![MicroInstruction::Xor],
            Operation::XorIndirectY => seq![MicroInstruction::Xor],
            Operation::OrImm => seq![MicroInstruction::Or],
            Operation::OrZeroPage => seq![MicroInstruction::Or],
            Operation::OrZeroPageX => seq![MicroInstruction::Or],
            Operation::OrAbsolute => seq![MicroInstruction::Or],
            Operation::OrAbsoluteX => seq![MicroInstruction::Or],
            Operation::OrAbsoluteY => seq![MicroInstruction::Or],
            Operation::OrIndirectX => seq![MicroInstruction::Or],
            Operation::OrIndirectY => seq![MicroInstruction::Or],
            Operation::ClearCarryFlag => seq![MicroInstruction::ClearCarryFlag],
            Operation::ClearDecimalFlag => seq![MicroInstruction::ClearDecimalFlag],
            Operation::ClearInterruptDisableFlag => seq![MicroInstruction::ClearInterruptDisableFlag],
            Operation::ClearOverflowFlag => seq![MicroInstruction::ClearOverflowFlag],
            Operation::SetCarryFlag => seq![MicroInstruction::SetCarryFlag],
            Operation::SetDecimalFlag => seq![MicroInstruction::SetDecimalFlag],
            Operation::SetInterruptDisableFlag => seq![MicroInstruction::SetInterruptDisableFlag],
            Operation::PushAcc => seq![MicroInstruction::PushAccumulator],
            Operation::PushStatus => seq![MicroInstruction::PushStatusRegister],
            Operation::PullAcc => seq![MicroInstruction::PullAccumulator],
            Operation::PullStatus => seq![MicroInstruction::PullStatusRegister],
        }
    }

    /// The opcode byte of this operation.
    pub open spec fn spec_opcode(self) -> u8 {
        match self {
            Operation::AslA => 0x0A,
            Operation::AslZeroPage => 0x06,
            Operation::AslZeroPageX => 0x16,
            Operation::AslAbsolute => 0x0E,
            Operation::IncMemZeroPage => 0xE6,
            Operation::IncMemZeroPageX => 0xF6,
            Operation::IncMemAbsolute => 0xEE,
            Operation::IncMemAbsoluteX => 0xFE,
            Operation::IncX => 0xE8,
            Operation::IncY => 0xC8,
            Operation::DecMemZeroPage => 0xC6,
            Operation::DecMemZeroPageX => 0xD6,
            Operation::DecMemAbsolute => 0xCE,
            Operation::DecMemAbsoluteX => 0xDE,
            Operation::DecX => 0xCA,
            Operation::DecY => 0x88,
            Operation::LoadAccImm => 0xA9,
            Operation::LoadAccZeroPage => 0xA5,
            Operation::LoadAccZeroPageX => 0xB5,
            Operation::LoadAccAbsolute => 0xAD,
            Operation::LoadAccAbsoluteX => 0xBD,
            Operation::LoadAccAbsoluteY => 0xB9,
            Operation::LoadAccIndirectX => 0xA1,
            Operation::LoadAccIndirectY => 0xB1,
            Operation::LoadXImm => 0xA2,
            Operation::LoadXZeroPage => 0xA6,
            Operation::LoadXZeroPageY => 0xB6,
            Operation::LoadXAbsolute => 0xAE,
            Operation::LoadXAbsoluteY => 0xBE,
            Operation::LoadYImm => 0xA0,
            Operation::LoadYZeroPage => 0xA4,
            Operation::LoadYZeroPageX => 0xB4,
            Operation::LoadYAbsolute => 0xAC,
            Operation::LoadYAbsoluteX => 0xBC,
            Operation::StoreAccZeroPage => 0x85,
            Operation::StoreAccZeroPageX => 0x95,
            Operation::StoreAccAbsolute => 0x8D,
            Operation::StoreAccAbsoluteX => 0x9D,
            Operation::StoreAccAbsoluteY => 0x99,
            Operation::StoreAccIndirectX => 0x81,
            Operation::StoreAccIndirectY => 0x91,
            Operation::StoreXZeroPage => 0x86,
            Operation::StoreXZeroPageY => 0x96,
            Operation::StoreXAbsolute => 0x8E,
            Operation::StoreYZeroPage => 0x84,
            Operation::StoreYZeroPageX => 0x94,
            Operation::StoreYAbsolute => 0x8C,
            Operation::TransferAccToX => 0xAA,
            Operation::TransferAccToY => 0xA8,
            Operation::TransferStackptrToX => 0xBA,
            Operation::TransferXToAcc => 0x8A,
            Operation::TransferXToStackptr => 0x9A,
            Operation::TransferYToAcc => 0x98,
            Operation::AndImm => 0x29,
            Operation::AndZeroPage => 0x25,
            Operation::AndZeroPageX => 0x35,
            Operation::AndAbsolute => 0x2D,
            Operation::AndAbsoluteX => 0x3D,
            Operation::AndAbsoluteY => 0x39,
            Operation::AndIndirectX => 0x21,
            Operation::AndIndirectY => 0x31,
            Operation::XorImm => 0x49,
            Operation::XorZeroPage => 0x45,
            Operation::XorZeroPageX => 0x55,
            Operation::XorAbsolute => 0x4D,
            Operation::XorAbsoluteX => 0x5D,
            Operation::XorAbsoluteY => 0x59,
            Operation::XorIndirectX => 0x41,
            Operation::XorIndirectY => 0x51,
            Operation::OrImm => 0x09,
            Operation::OrZeroPage => 0x05,
            Operation::OrZeroPageX => 0x15,
            Operation::OrAbsolute => 0x0D,
            Operation::OrAbsoluteX => 0x1D,
            Operation::OrAbsoluteY => 0x19,
            Operation::OrIndirectX => 0x01,
            Operation::OrIndirectY => 0x11,
            Operation::ClearCarryFlag => 0x18,
            Operation::ClearDecimalFlag => 0xD8,
            Operation::ClearInterruptDisableFlag => 0x58,
            Operation::ClearOverflowFlag => 0xB8,
            Operation::SetCarryFlag => 0x38,
            Operation::SetDecimalFlag => 0xF8,
            Operation::SetInterruptDisableFlag => 0x78,
            Operation::PushAcc => 0x48,
            Operation::PushStatus => 0x08,
            Operation::PullAcc => 0x68,
            Operation::PullStatus => 0x28,
        }
    }

    /// The operation an opcode byte decodes to, if it is in the table.
    pub open spec fn spec_decode(opcode: u8) -> Option<Operation> {
        if opcode == 0x0A {
            Some(Operation::AslA)
        } else if opcode == 0x06 {
            Some(Operation::AslZeroPage)
        } else if opcode == 0x16 {
            Some(Operation::AslZeroPageX)
        } else if opcode == 0x0E {
            Some(Operation::AslAbsolute)
        } else if opcode == 0xE6 {
            Some(Operation::IncMemZeroPage)
        } else if opcode == 0xF6 {
            Some(Operation::IncMemZeroPageX)
        } else if opcode == 0xEE {
            Some(Operation::IncMemAbsolute)
        } else if opcode == 0xFE {
            Some(Operation::IncMemAbsoluteX)
        } else if opcode == 0xE8 {
            Some(Operation::IncX)
        } else if opcode == 0xC8 {
            Some(Operation::IncY)
        } else if opcode == 0xC6 {
            Some(Operation::DecMemZeroPage)
        } else if opcode == 0xD6 {
            Some(Operation::DecMemZeroPageX)
        } else if opcode == 0xCE {
            Some(Operation::DecMemAbsolute)
        } else if opcode == 0xDE {
            Some(Operation::DecMemAbsoluteX)
        } else if opcode == 0xCA {
            Some(Operation::DecX)
        } else if opcode == 0x88 {
            Some(Operation::DecY)
        } else if opcode == 0xA9 {
            Some(Operation::LoadAccImm)
        } else if opcode == 0xA5 {
            Some(Operation::LoadAccZeroPage)
        } else if opcode == 0xB5 {
            Some(Operation::LoadAccZeroPageX)
        } else if opcode == 0xAD {
            Some(Operation::LoadAccAbsolute)
        } else if opcode == 0xBD {
            Some(Operation::LoadAccAbsoluteX)
        } else if opcode == 0xB9 {
            Some(Operation::LoadAccAbsoluteY)
        } else if opcode == 0xA1 {
            Some(Operation::LoadAccIndirectX)
        } else if opcode == 0xB1 {
            Some(Operation::LoadAccIndirectY)
        } else if opcode == 0xA2 {
            Some(Operation::LoadXImm)
        } else if opcode == 0xA6 {
            Some(Operation::LoadXZeroPage)
        } else if opcode == 0xB6 {
            Some(Operation::LoadXZeroPageY)
        } else if opcode == 0xAE {
            Some(Operation::LoadXAbsolute)
        } else if opcode == 0xBE {
            Some(Operation::LoadXAbsoluteY)
        } else if opcode == 0xA0 {
            Some(Operation::LoadYImm)
        } else if opcode == 0xA4 {
            Some(Operation::LoadYZeroPage)
        } else if opcode == 0xB4 {
            Some(Operation::LoadYZeroPageX)
        } else if opcode == 0xAC {
            Some(Operation::LoadYAbsolute)
        } else if opcode == 0xBC {
            Some(Operation::LoadYAbsoluteX)
        } else if opcode == 0x85 {
            Some(Operation::StoreAccZeroPage)
        } else if opcode == 0x95 {
            Some(Operation::StoreAccZeroPageX)
        } else if opcode == 0x8D {
            Some(Operation::StoreAccAbsolute)
        } else if opcode == 0x9D {
            Some(Operation::StoreAccAbsoluteX)
        } else if opcode == 0x99 {
            Some(Operation::StoreAccAbsoluteY)
        } else if opcode == 0x81 {
            Some(Operation::StoreAccIndirectX)
        } else if opcode == 0x91 {
            Some(Operation::StoreAccIndirectY)
        } else if opcode == 0x86 {
            Some(Operation::StoreXZeroPage)
        } else if opcode == 0x96 {
            Some(Operation::StoreXZeroPageY)
        } else if opcode == 0x8E {
            Some(Operation::StoreXAbsolute)
        } else if opcode == 0x84 {
            Some(Operation::StoreYZeroPage)
        } else if opcode == 0x94 {
            Some(Operation::StoreYZeroPageX)
        } else if opcode == 0x8C {
            Some(Operation::StoreYAbsolute)
        } else if opcode == 0xAA {
            Some(Operation::TransferAccToX)
        } else if opcode == 0xA8 {
            Some(Operation::TransferAccToY)
        } else if opcode == 0xBA {
            Some(Operation::TransferStackptrToX)
        } else if opcode == 0x8A {
            Some(Operation::TransferXToAcc)
        } else if opcode == 0x9A {
            Some(Operation::TransferXToStackptr)
        } else if opcode == 0x98 {
            Some(Operation::TransferYToAcc)
        } else if opcode == 0x29 {
            Some(Operation::AndImm)
        } else if opcode == 0x25 {
            Some(Operation::AndZeroPage)
        } else if opcode == 0x35 {
            Some(Operation::AndZeroPageX)
        } else if opcode == 0x2D {
            Some(Operation::AndAbsolute)
        } else if opcode == 0x3D {
            Some(Operation::AndAbsoluteX)
        } else if opcode == 0x39 {
            Some(Operation::AndAbsoluteY)
        } else if opcode == 0x21 {
            Some(Operation::AndIndirectX)
        } else if opcode == 0x31 {
            Some(Operation::AndIndirectY)
        } else if opcode == 0x49 {
            Some(Operation::XorImm)
        } else if opcode == 0x45 {
            Some(Operation::XorZeroPage)
        } else if opcode == 0x55 {
            Some(Operation::XorZeroPageX)
        } else if opcode == 0x4D {
            Some(Operation::XorAbsolute)
        } else if opcode == 0x5D {
            Some(Operation::XorAbsoluteX)
        } else if opcode == 0x59 {
            Some(Operation::XorAbsoluteY)
        } else if opcode == 0x41 {
            Some(Operation::XorIndirectX)
        } else if opcode == 0x51 {
            Some(Operation::XorIndirectY)
        } else if opcode == 0x09 {
            Some(Operation::OrImm)
        } else if opcode == 0x05 {
            Some(Operation::OrZeroPage)
        } else if opcode == 0x15 {
            Some(Operation::OrZeroPageX)
        } else if opcode == 0x0D {
            Some(Operation::OrAbsolute)
        } else if opcode == 0x1D {
            Some(Operation::OrAbsoluteX)
        } else if opcode == 0x19 {
            Some(Operation::OrAbsoluteY)
        } else if opcode == 0x01 {
            Some(Operation::OrIndirectX)
        } else if opcode == 0x11 {
            Some(Operation::OrIndirectY)
        } else if opcode == 0x18 {
            Some(Operation::ClearCarryFlag)
        } else if opcode == 0xD8 {
            Some(Operation::ClearDecimalFlag)
        } else if opcode == 0x58 {
            Some(Operation::ClearInterruptDisableFlag)
        } else if opcode == 0xB8 {
            Some(Operation::ClearOverflowFlag)
        } else if opcode == 0x38 {
            Some(Operation::SetCarryFlag)
        } else if opcode == 0xF8 {
            Some(Operation::SetDecimalFlag)
        } else if opcode == 0x78 {
            Some(Operation::SetInterruptDisableFlag)
        } else if opcode == 0x48 {
            Some(Operation::PushAcc)
        } else if opcode == 0x08 {
            Some(Operation::PushStatus)
        } else if opcode == 0x68 {
            Some(Operation::PullAcc)
        } else if opcode == 0x28 {
            Some(Operation::PullStatus)
        } else {
            None
        }
    }
}

/// Every operation microsequence in the table has at least one step, and
/// every addressing microsequence too.
pub proof fn lemma_sequences_nonempty(op: Operation)
    ensures
        op.spec_operation_sequence().len() >= 1,
        op.spec_addressing_sequence() is Some
            ==> op.spec_addressing_sequence()->Some_0.len() >= 1,
{
}

/// No decoded sequence contains the decode microinstruction itself: it
/// appears only in the fixed fetch sequence.
pub proof fn lemma_table_sequences_no_decode(op: Operation)
    ensures
        forall|i: int| 0 <= i < op.spec_operation_sequence().len()
            ==> #[trigger] op.spec_operation_sequence()[i] != MicroInstruction::DecodeOperation,
        op.spec_addressing_sequence() matches Some(s)
            ==> forall|i: int| 0 <= i < s.len()
                ==> #[trigger] s[i] != MicroInstruction::DecodeOperation,
{
}

/// Decoding an operation's own opcode gives that operation back.
pub proof fn lemma_decode_opcode(op: Operation)
    ensures
        Operation::spec_decode(op.spec_opcode()) == Some(op),
{
}

fn build_sequence(instructions: Vec<MicroInstruction>) -> (r: MicroInstructionSequence)
    ensures
        r@.sequence == instructions@,
        r@.idx == 0,
{
    MicroInstructionSequence::new(instructions)
}

fn immediate_addressing() -> (r: MicroInstructionSequence)
    ensures
        r@.sequence =~= spec_immediate_addressing(),
        r@.idx == 0,
{
    let mut v: Vec<MicroInstruction> = Vec::new();
    v.push(MicroInstruction::ImmediateRead);
    build_sequence(v)
}

fn zero_page_addressing() -> (r: MicroInstructionSequence)
    ensures
        r@.sequence =~= spec_zero_page_addressing(),
        r@.idx == 0,
{
    let mut v: Vec<MicroInstruction> = Vec::new();
    v.push(MicroInstruction::ReadAdl);
    v.push(MicroInstruction::ReadZeroPage);
    build_sequence(v)
}

fn zero_page_x_addressing() -> (r: MicroInstructionSequence)
    ensures
        r@.sequence =~= spec_zero_page_x_addressing(),
        r@.idx == 0,
{
    let mut v: Vec<MicroInstruction> = Vec::new();
    v.push(MicroInstruction::ReadBal);
    v.push(MicroInstruction::Empty);
    v.push(MicroInstruction::ReadZeroPageBalX);
    build_sequence(v)
}

fn zero_page_y_addressing() -> (r: MicroInstructionSequence)
    ensures
        r@.sequence =~= spec_zero_page_y_addressing(),
        r@.idx == 0,
{
    let mut v: Vec<MicroInstruction> = Vec::new();
    v.push(MicroInstruction::ReadBal);
    v.push(MicroInstruction::Empty);
    v.push(MicroInstruction::ReadZeroPageBalY);
    build_sequence(v)
}

fn absolute_addressing() -> (r: MicroInstructionSequence)
    ensures
        r@.sequence =~= spec_absolute_addressing(),
        r@.idx == 0,
{
    let mut v: Vec<MicroInstruction> = Vec::new();
    v.push(MicroInstruction::ReadAdl);
    v.push(MicroInstruction::ReadAdh);
    v.push(MicroInstruction::ReadAbsolute);
    build_sequence(v)
}

fn absolute_x_addressing() -> (r: MicroInstructionSequence)
    ensures
        r@.sequence =~= spec_absolute_x_addressing(),
        r@.idx == 0,
{
    let mut v: Vec<MicroInstruction> = Vec::new();
    v.push(MicroInstruction::ReadBal);
    v.push(MicroInstruction::ReadBah);
    v.push(MicroInstruction::ReadAdlAdhAbsoluteX);
    build_sequence(v)
}

fn absolute_y_addressing() -> (r: MicroInstructionSequence)
    ensures
        r@.sequence =~= spec_absolute_y_addressing(),
        r@.idx == 0,
{
    let mut v: Vec<MicroInstruction> = Vec::new();
    v.push(MicroInstruction::ReadBal);
    v.push(MicroInstruction::ReadBah);
    v.push(MicroInstruction::ReadAdlAdhAbsoluteY);
    build_sequence(v)
}

fn indirect_x_addressing() -> (r: MicroInstructionSequence)
    ensures
        r@.sequence =~= spec_indirect_x_addressing(),
        r@.idx == 0,
{
    let mut v: Vec<MicroInstruction> = Vec::new();
    v.push(MicroInstruction::ReadBal);
    v.push(MicroInstruction::Empty);
    v.push(MicroInstruction::ReadAdlIndirectBal);
    v.push(MicroInstruction::ReadAdhIndirectBal);
    v.push(MicroInstruction::ReadAbsolute);
    build_sequence(v)
}

fn indirect_y_addressing() -> (r: MicroInstructionSequence)
    ensures
        r@.sequence =~= spec_indirect_y_addressing(),
        r@.idx == 0,
{
    let mut v: Vec<MicroInstruction> = Vec::new();
    v.push(MicroInstruction::ReadIal);
    v.push(MicroInstruction::ReadBalIndirectIal);
    v.push(MicroInstruction::ReadBahIndirectIal);
    v.push(MicroInstruction::ReadAdlAdhAbsoluteY);
    build_sequence(v)
}

fn op_seq_1(m0: MicroInstruction) -> (r: MicroInstructionSequence)
    ensures
        r@.sequence =~= seq![m0],
        r@.idx == 0,
{
    let mut v: Vec<MicroInstruction> = Vec::new();
    v.push(m0);
    build_sequence(v)
}

fn op_seq_2(m0: MicroInstruction, m1: MicroInstruction) -> (r: MicroInstructionSequence)
    ensures
        r@.sequence =~= seq![m0, m1],
        r@.idx == 0,
{
    let mut v: Vec<MicroInstruction> = Vec::new();
    v.push(m0);
    v.push(m1);
    build_sequence(v)
}

impl Operation {
    /// Decode this operation into its two microsequences, both with their
    /// cursors at the top.
    pub fn get_micro_instructions(&self) -> (r: OperationMicroInstructions)
        ensures
            match r.addressing_sequence {
                Some(s) => self.spec_addressing_sequence() == Some(s@.sequence) && s@.idx == 0,
                None => self.spec_addressing_sequence() is None,
            },
            r.operation_sequence@.sequence == self.spec_operation_sequence(),
            r.operation_sequence@.idx == 0,
    {
        match self {
            Operation::AslA => OperationMicroInstructions {
                addressing_sequence: None,
                operation_sequence: op_seq_1(MicroInstruction::ShiftLeftAccumulator),
            },
            Operation::AslZeroPage => OperationMicroInstructions {
                addressing_sequence: Some(zero_page_addressing()),
                operation_sequence: op_seq_2(MicroInstruction::ShiftLeftMemoryBuffer, MicroInstruction::WriteZeroPage),
            },
            Operation::AslZeroPageX => OperationMicroInstructions {
                addressing_sequence: Some(zero_page_x_addressing()),
                operation_sequence: op_seq_2(MicroInstruction::ShiftLeftMemoryBuffer, MicroInstruction::WriteZeroPageBalX),
            },
            Operation::AslAbsolute => OperationMicroInstructions {
                addressing_sequence: Some(absolute_addressing()),
                operation_sequence: op_seq_2(MicroInstruction::ShiftLeftMemoryBuffer, MicroInstruction::WriteAbsolute),
            },
            Operation::IncMemZeroPage => OperationMicroInstructions {
                addressing_sequence: Some(zero_page_addressing()),
                operation_sequence: op_seq_2(MicroInstruction::IncrementMemoryBuffer, MicroInstruction::WriteZeroPage),
            },
            Operation::IncMemZeroPageX => OperationMicroInstructions {
                addressing_sequence: Some(zero_page_x_addressing()),
                operation_sequence: op_seq_2(MicroInstruction::IncrementMemoryBuffer, MicroInstruction::WriteZeroPageBalX),
            },
            Operation::IncMemAbsolute => OperationMicroInstructions {
                addressing_sequence: Some(absolute_addressing()),
                operation_sequence: op_seq_2(MicroInstruction::IncrementMemoryBuffer, MicroInstruction::WriteAbsolute),
            },
            Operation::IncMemAbsoluteX => OperationMicroInstructions {
                addressing_sequence: Some(absolute_x_addressing()),
                operation_sequence: op_seq_2(MicroInstruction::IncrementMemoryBuffer, MicroInstruction::WriteAbsolute),
            },
            Operation::IncX => OperationMicroInstructions {
                addressing_sequence: None,
                operation_sequence: op_seq_1(MicroInstruction::IncrementX),
            },
            Operation::IncY => OperationMicroInstructions {
                addressing_sequence: None,
                operation_sequence: op_seq_1(MicroInstruction::IncrementY),
            },
            Operation::DecMemZeroPage => OperationMicroInstructions {
                addressing_sequence: Some(zero_page_addressing()),
                operation_sequence: op_seq_2(MicroInstruction::DecrementMemoryBuffer, MicroInstruction::WriteZeroPage),
            },
            Operation::DecMemZeroPageX => OperationMicroInstructions {
                addressing_sequence: Some(zero_page_x_addressing()),
                operation_sequence: op_seq_2(MicroInstruction::DecrementMemoryBuffer, MicroInstruction::WriteZeroPageBalX),
            },
            Operation::DecMemAbsolute => OperationMicroInstructions {
                addressing_sequence: Some(absolute_addressing()),
                operation_sequence: op_seq_2(MicroInstruction::DecrementMemoryBuffer, MicroInstruction::WriteAbsolute),
            },
            Operation::DecMemAbsoluteX => OperationMicroInstructions {
                addressing_sequence: Some(absolute_x_addressing()),
                operation_sequence: op_seq_2(MicroInstruction::DecrementMemoryBuffer, MicroInstruction::WriteAbsolute),
            },
            Operation::DecX => OperationMicroInstructions {
                addressing_sequence: None,
                operation_sequence: op_seq_1(MicroInstruction::DecrementX),
            },
            Operation::DecY => OperationMicroInstructions {
                addressing_sequence: None,
                operation_sequence: op_seq_1(MicroInstruction::DecrementY),
            },
            Operation::LoadAccImm => OperationMicroInstructions {
                addressing_sequence: Some(immediate_addressing()),
                operation_sequence: op_seq_1(MicroInstruction::LoadAccumulator),
            },
            Operation::LoadAccZeroPage => OperationMicroInstructions {
                addressing_sequence: Some(zero_page_addressing()),
                operation_sequence: op_seq_1(MicroInstruction::LoadAccumulator),
            },
            Operation::LoadAccZeroPageX => OperationMicroInstructions {
                addressing_sequence: Some(zero_page_x_addressing()),
                operation_sequence: op_seq_1(MicroInstruction::LoadAccumulator),
            },
            Operation::LoadAccAbsolute => OperationMicroInstructions {
                addressing_sequence: Some(absolute_addressing()),
                operation_sequence: op_seq_1(MicroInstruction::LoadAccumulator),
            },
            Operation::LoadAccAbsoluteX => OperationMicroInstructions {
                addressing_sequence: Some(absolute_x_addressing()),
                operation_sequence: op_seq_1(MicroInstruction::LoadAccumulator),
            },
            Operation::LoadAccAbsoluteY => OperationMicroInstructions {
                addressing_sequence: Some(absolute_y_addressing()),
                operation_sequence: op_seq_1(MicroInstruction::LoadAccumulator),
            },
            Operation::LoadAccIndirectX => OperationMicroInstructions {
                addressing_sequence: Some(indirect_x_addressing()),
                operation_sequence: op_seq_1(MicroInstruction::LoadAccumulator),
            },
            Operation::LoadAccIndirectY => OperationMicroInstructions {
                addressing_sequence: Some(indirect_y_addressing()),
                operation_sequence: op_seq_1(MicroInstruction::LoadAccumulator),
            },
            Operation::LoadXImm => OperationMicroInstructions {
                addressing_sequence: Some(immediate_addressing()),
                operation_sequence: op_seq_1(MicroInstruction::LoadX),
            },
            Operation::LoadXZeroPage => OperationMicroInstructions {
                addressing_sequence: Some(zero_page_addressing()),
                operation_sequence: op_seq_1(MicroInstruction::LoadX),
            },
            Operation::LoadXZeroPageY => OperationMicroInstructions {
                addressing_sequence: Some(zero_page_y_addressing()),
                operation_sequence: op_seq_1(MicroInstruction::LoadX),
            },
            Operation::LoadXAbsolute => OperationMicroInstructions {
                addressing_sequence: Some(absolute_addressing()),
                operation_sequence: op_seq_1(MicroInstruction::LoadX),
            },
            Operation::LoadXAbsoluteY => OperationMicroInstructions {
                addressing_sequence: Some(absolute_y_addressing()),
                operation_sequence: op_seq_1(MicroInstruction::LoadX),
            },
            Operation::LoadYImm => OperationMicroInstructions {
                addressing_sequence: Some(immediate_addressing()),
                operation_sequence: op_seq_1(MicroInstruction::LoadY),
            },
            Operation::LoadYZeroPage => OperationMicroInstructions {
                addressing_sequence: Some(zero_page_addressing()),
                operation_sequence: op_seq_1(MicroInstruction::LoadY),
            },
            Operation::LoadYZeroPageX => OperationMicroInstructions {
                addressing_sequence: Some(zero_page_x_addressing()),
                operation_sequence: op_seq_1(MicroInstruction::LoadY),
            },
            Operation::LoadYAbsolute => OperationMicroInstructions {
                addressing_sequence: Some(absolute_addressing()),
                operation_sequence: op_seq_1(MicroInstruction::LoadY),
            },
            Operation::LoadYAbsoluteX => OperationMicroInstructions {
                addressing_sequence: Some(absolute_x_addressing()),
                operation_sequence: op_seq_1(MicroInstruction::LoadY),
            },
            Operation::StoreAccZeroPage => OperationMicroInstructions {
                addressing_sequence: Some(zero_page_addressing()),
                operation_sequence: op_seq_2(MicroInstruction::StoreAccumulator, MicroInstruction::WriteZeroPage),
            },
            Operation::StoreAccZeroPageX => OperationMicroInstructions {
                addressing_sequence: Some(zero_page_x_addressing()),
                operation_sequence: op_seq_2(MicroInstruction::StoreAccumulator, MicroInstruction::WriteZeroPageBalX),
            },
            Operation::StoreAccAbsolute => OperationMicroInstructions {
                addressing_sequence: Some(absolute_addressing()),
                operation_sequence: op_seq_2(MicroInstruction::StoreAccumulator, MicroInstruction::WriteAbsolute),
            },
            Operation::StoreAccAbsoluteX => OperationMicroInstructions {
                addressing_sequence: Some(absolute_x_addressing()),
                operation_sequence: op_seq_2(MicroInstruction::StoreAccumulator, MicroInstruction::WriteAbsolute),
            },
            Operation::StoreAccAbsoluteY => OperationMicroInstructions {
                addressing_sequence: Some(absolute_y_addressing()),
                operation_sequence: op_seq_2(MicroInstruction::StoreAccumulator, MicroInstruction::WriteAbsolute),
            },
            Operation::StoreAccIndirectX => OperationMicroInstructions {
                addressing_sequence: Some(indirect_x_addressing()),
                operation_sequence: op_seq_2(MicroInstruction::StoreAccumulator, MicroInstruction::WriteAbsolute),
            },
            Operation::StoreAccIndirectY => OperationMicroInstructions {
                addressing_sequence: Some(indirect_y_addressing()),
                operation_sequence: op_seq_2(MicroInstruction::StoreAccumulator, MicroInstruction::WriteAbsolute),
            },
            Operation::StoreXZeroPage => OperationMicroInstructions {
                addressing_sequence: Some(zero_page_addressing()),
                operation_sequence: op_seq_2(MicroInstruction::StoreX, MicroInstruction::WriteZeroPage),
            },
            Operation::StoreXZeroPageY => OperationMicroInstructions {
                addressing_sequence: Some(zero_page_y_addressing()),
                operation_sequence: op_seq_2(MicroInstruction::StoreX, MicroInstruction::WriteZeroPageBalY),
            },
            Operation::StoreXAbsolute => OperationMicroInstructions {
                addressing_sequence: Some(absolute_addressing()),
                operation_sequence: op_seq_2(MicroInstruction::StoreX, MicroInstruction::WriteAbsolute),
            },
            Operation::StoreYZeroPage => OperationMicroInstructions {
                addressing_sequence: Some(zero_page_addressing()),
                operation_sequence: op_seq_2(MicroInstruction::StoreY, MicroInstruction::WriteZeroPage),
            },
            Operation::StoreYZeroPageX => OperationMicroInstructions {
                addressing_sequence: Some(zero_page_x_addressing()),
                operation_sequence: op_seq_2(MicroInstruction::StoreY, MicroInstruction::WriteZeroPageBalX),
            },
            Operation::StoreYAbsolute => OperationMicroInstructions {
                addressing_sequence: Some(absolute_addressing()),
                operation_sequence: op_seq_2(MicroInstruction::StoreY, MicroInstruction::WriteAbsolute),
            },
            Operation::TransferAccToX => OperationMicroInstructions {
                addressing_sequence: None,
                operation_sequence: op_seq_1(MicroInstruction::TransferAccumulatorToX),
            },
            Operation::TransferAccToY => OperationMicroInstructions {
                addressing_sequence: None,
                operation_sequence: op_seq_1(MicroInstruction::TransferAccumulatorToY),
            },
            Operation::TransferStackptrToX => OperationMicroInstructions {
                addressing_sequence: None,
                operation_sequence: op_seq_1(MicroInstruction::TransferStackptrToX),
            },
            Operation::TransferXToAcc => OperationMicroInstructions {
                addressing_sequence: None,
                operation_sequence: op_seq_1(MicroInstruction::TransferXToAccumulator),
            },
            Operation::TransferXToStackptr => OperationMicroInstructions {
                addressing_sequence: None,
                operation_sequence: op_seq_1(MicroInstruction::TransferXToStackptr),
            },
            Operation::TransferYToAcc => OperationMicroInstructions {
                addressing_sequence: None,
                operation_sequence: op_seq_1(MicroInstruction::TransferYToAccumulator),
            },
            Operation::AndImm => OperationMicroInstructions {
                addressing_sequence: Some(immediate_addressing()),
                operation_sequence: op_seq_1(MicroInstruction::And),
            },
            Operation::AndZeroPage => OperationMicroInstructions {
                addressing_sequence: Some(zero_page_addressing()),
                operation_sequence: op_seq_1(MicroInstruction::And),
            },
            Operation::AndZeroPageX => OperationMicroInstructions {
                addressing_sequence: Some(zero_page_x_addressing()),
                operation_sequence: op_seq_1(MicroInstruction::And),
            },
            Operation::AndAbsolute => OperationMicroInstructions {
                addressing_sequence: Some(absolute_addressing()),
                operation_sequence: op_seq_1(MicroInstruction::And),
            },
            Operation::AndAbsoluteX => OperationMicroInstructions {
                addressing_sequence: Some(absolute_x_addressing()),
                operation_sequence: op_seq_1(MicroInstruction::And),
            },
            Operation::AndAbsoluteY => OperationMicroInstructions {
                addressing_sequence: Some(absolute_y_addressing()),
                operation_sequence: op_seq_1(MicroInstruction::And),
            },
            Operation::AndIndirectX => OperationMicroInstructions {
                addressing_sequence: Some(indirect_x_addressing()),
                operation_sequence: op_seq_1(MicroInstruction::And),
            },
            Operation::AndIndirectY => OperationMicroInstructions {
                addressing_sequence: Some(indirect_y_addressing()),
                operation_sequence: op_seq_1(MicroInstruction::And),
            },
            Operation::XorImm => OperationMicroInstructions {
                addressing_sequence: Some(immediate_addressing()),
                operation_sequence: op_seq_1(MicroInstruction::Xor),
            },
            Operation::XorZeroPage => OperationMicroInstructions {
                addressing_sequence: Some(zero_page_addressing()),
                operation_sequence: op_seq_1(MicroInstruction::Xor),
            },
            Operation::XorZeroPageX => OperationMicroInstructions {
                addressing_sequence: Some(zero_page_x_addressing()),
                operation_sequence: op_seq_1(MicroInstruction::Xor),
            },
            Operation::XorAbsolute => OperationMicroInstructions {
                addressing_sequence: Some(absolute_addressing()),
                operation_sequence: op_seq_1(MicroInstruction::Xor),
            },
            Operation::XorAbsoluteX => OperationMicroInstructions {
                addressing_sequence: Some(absolute_x_addressing()),
                operation_sequence: op_seq_1(MicroInstruction::Xor),
            },
            Operation::XorAbsoluteY => OperationMicroInstructions {
                addressing_sequence: Some(absolute_y_addressing()),
                operation_sequence: op_seq_1(MicroInstruction::Xor),
            },
            Operation::XorIndirectX => OperationMicroInstructions {
                addressing_sequence: Some(indirect_x_addressing()),
                operation_sequence: op_seq_1(MicroInstruction::Xor),
            },
            Operation::XorIndirectY => OperationMicroInstructions {
                addressing_sequence: Some(indirect_y_addressing()),
                operation_sequence: op_seq_1(MicroInstruction::Xor),
            },
            Operation::OrImm => OperationMicroInstructions {
                addressing_sequence: Some(immediate_addressing()),
                operation_sequence: op_seq_1(MicroInstruction::Or),
            },
            Operation::OrZeroPage => OperationMicroInstructions {
                addressing_sequence: Some(zero_page_addressing()),
                operation_sequence: op_seq_1(MicroInstruction::Or),
            },
            Operation::OrZeroPageX => OperationMicroInstructions {
                addressing_sequence: Some(zero_page_x_addressing()),
                operation_sequence: op_seq_1(MicroInstruction::Or),
            },
            Operation::OrAbsolute => OperationMicroInstructions {
                addressing_sequence: Some(absolute_addressing()),
                operation_sequence: op_seq_1(MicroInstruction::Or),
            },
            Operation::OrAbsoluteX => OperationMicroInstructions {
                addressing_sequence: Some(absolute_x_addressing()),
                operation_sequence: op_seq_1(MicroInstruction::Or),
            },
            Operation::OrAbsoluteY => OperationMicroInstructions {
                addressing_sequence: Some(absolute_y_addressing()),
                operation_sequence: op_seq_1(MicroInstruction::Or),
            },
            Operation::OrIndirectX => OperationMicroInstructions {
                addressing_sequence: Some(indirect_x_addressing()),
                operation_sequence: op_seq_1(MicroInstruction::Or),
            },
            Operation::OrIndirectY => OperationMicroInstructions {
                addressing_sequence: Some(indirect_y_addressing()),
                operation_sequence: op_seq_1(MicroInstruction::Or),
            },
            Operation::ClearCarryFlag => OperationMicroInstructions {
                addressing_sequence: None,
                operation_sequence: op_seq_1(MicroInstruction::ClearCarryFlag),
            },
            Operation::ClearDecimalFlag => OperationMicroInstructions {
                addressing_sequence: None,
                operation_sequence: op_seq_1(MicroInstruction::ClearDecimalFlag),
            },
            Operation::ClearInterruptDisableFlag => OperationMicroInstructions {
                addressing_sequence: None,
                operation_sequence: op_seq_1(MicroInstruction::ClearInterruptDisableFlag),
            },
            Operation::ClearOverflowFlag => OperationMicroInstructions {
                addressing_sequence: None,
                operation_sequence: op_seq_1(MicroInstruction::ClearOverflowFlag),
            },
            Operation::SetCarryFlag => OperationMicroInstructions {
                addressing_sequence: None,
                operation_sequence: op_seq_1(MicroInstruction::SetCarryFlag),
            },
            Operation::SetDecimalFlag => OperationMicroInstructions {
                addressing_sequence: None,
                operation_sequence: op_seq_1(MicroInstruction::SetDecimalFlag),
            },
            Operation::SetInterruptDisableFlag => OperationMicroInstructions {
                addressing_sequence: None,
                operation_sequence: op_seq_1(MicroInstruction::SetInterruptDisableFlag),
            },
            Operation::PushAcc => OperationMicroInstructions {
                addressing_sequence: None,
                operation_sequence: op_seq_1(MicroInstruction::PushAccumulator),
            },
            Operation::PushStatus => OperationMicroInstructions {
                addressing_sequence: None,
                operation_sequence: op_seq_1(MicroInstruction::PushStatusRegister),
            },
            Operation::PullAcc => OperationMicroInstructions {
                addressing_sequence: None,
                operation_sequence: op_seq_1(MicroInstruction::PullAccumulator),
            },
            Operation::PullStatus => OperationMicroInstructions {
                addressing_sequence: None,
                operation_sequence: op_seq_1(MicroInstruction::PullStatusRegister),
            },
        }
    }

    /// The opcode byte of this operation.
    pub fn get_opcode(&self) -> (r: u8)
        ensures
            r == self.spec_opcode(),
    {
        match self {
            Operation::AslA => 0x0A,
            Operation::AslZeroPage => 0x06,
            Operation::AslZeroPageX => 0x16,
            Operation::AslAbsolute => 0x0E,
            Operation::IncMemZeroPage => 0xE6,
            Operation::IncMemZeroPageX => 0xF6,
            Operation::IncMemAbsolute => 0xEE,
            Operation::IncMemAbsoluteX => 0xFE,
            Operation::IncX => 0xE8,
            Operation::IncY => 0xC8,
            Operation::DecMemZeroPage => 0xC6,
            Operation::DecMemZeroPageX => 0xD6,
            Operation::DecMemAbsolute => 0xCE,
            Operation::DecMemAbsoluteX => 0xDE,
            Operation::DecX => 0xCA,
            Operation::DecY => 0x88,
            Operation::LoadAccImm => 0xA9,
            Operation::LoadAccZeroPage => 0xA5,
            Operation::LoadAccZeroPageX => 0xB5,
            Operation::LoadAccAbsolute => 0xAD,
            Operation::LoadAccAbsoluteX => 0xBD,
            Operation::LoadAccAbsoluteY => 0xB9,
            Operation::LoadAccIndirectX => 0xA1,
            Operation::LoadAccIndirectY => 0xB1,
            Operation::LoadXImm => 0xA2,
            Operation::LoadXZeroPage => 0xA6,
            Operation::LoadXZeroPageY => 0xB6,
            Operation::LoadXAbsolute => 0xAE,
            Operation::LoadXAbsoluteY => 0xBE,
            Operation::LoadYImm => 0xA0,
            Operation::LoadYZeroPage => 0xA4,
            Operation::LoadYZeroPageX => 0xB4,
            Operation::LoadYAbsolute => 0xAC,
            Operation::LoadYAbsoluteX => 0xBC,
            Operation::StoreAccZeroPage => 0x85,
            Operation::StoreAccZeroPageX => 0x95,
            Operation::StoreAccAbsolute => 0x8D,
            Operation::StoreAccAbsoluteX => 0x9D,
            Operation::StoreAccAbsoluteY => 0x99,
            Operation::StoreAccIndirectX => 0x81,
            Operation::StoreAccIndirectY => 0x91,
            Operation::StoreXZeroPage => 0x86,
            Operation::StoreXZeroPageY => 0x96,
            Operation::StoreXAbsolute => 0x8E,
            Operation::StoreYZeroPage => 0x84,
            Operation::StoreYZeroPageX => 0x94,
            Operation::StoreYAbsolute => 0x8C,
            Operation::TransferAccToX => 0xAA,
            Operation::TransferAccToY => 0xA8,
            Operation::TransferStackptrToX => 0xBA,
            Operation::TransferXToAcc => 0x8A,
            Operation::TransferXToStackptr => 0x9A,
            Operation::TransferYToAcc => 0x98,
            Operation::AndImm => 0x29,
            Operation::AndZeroPage => 0x25,
            Operation::AndZeroPageX => 0x35,
            Operation::AndAbsolute => 0x2D,
            Operation::AndAbsoluteX => 0x3D,
            Operation::AndAbsoluteY => 0x39,
            Operation::AndIndirectX => 0x21,
            Operation::AndIndirectY => 0x31,
            Operation::XorImm => 0x49,
            Operation::XorZeroPage => 0x45,
            Operation::XorZeroPageX => 0x55,
            Operation::XorAbsolute => 0x4D,
            Operation::XorAbsoluteX => 0x5D,
            Operation::XorAbsoluteY => 0x59,
            Operation::XorIndirectX => 0x41,
            Operation::XorIndirectY => 0x51,
            Operation::OrImm => 0x09,
            Operation::OrZeroPage => 0x05,
            Operation::OrZeroPageX => 0x15,
            Operation::OrAbsolute => 0x0D,
            Operation::OrAbsoluteX => 0x1D,
            Operation::OrAbsoluteY => 0x19,
            Operation::OrIndirectX => 0x01,
            Operation::OrIndirectY => 0x11,
            Operation::ClearCarryFlag => 0x18,
            Operation::ClearDecimalFlag => 0xD8,
            Operation::ClearInterruptDisableFlag => 0x58,
            Operation::ClearOverflowFlag => 0xB8,
            Operation::SetCarryFlag => 0x38,
            Operation::SetDecimalFlag => 0xF8,
            Operation::SetInterruptDisableFlag => 0x78,
            Operation::PushAcc => 0x48,
            Operation::PushStatus => 0x08,
            Operation::PullAcc => 0x68,
            Operation::PullStatus => 0x28,
        }
    }

    /// Look an opcode up in the table.
    pub fn get_operation(opcode: u8) -> (r: Option<Operation>)
        ensures
            r == Operation::spec_decode(opcode),
    {
        match opcode {
            0x0A => Some(Operation::AslA),
            0x06 => Some(Operation::AslZeroPage),
            0x16 => Some(Operation::AslZeroPageX),
            0x0E => Some(Operation::AslAbsolute),
            0xE6 => Some(Operation::IncMemZeroPage),
            0xF6 => Some(Operation::IncMemZeroPageX),
            0xEE => Some(Operation::IncMemAbsolute),
            0xFE => Some(Operation::IncMemAbsoluteX),
            0xE8 => Some(Operation::IncX),
            0xC8 => Some(Operation::IncY),
            0xC6 => Some(Operation::DecMemZeroPage),
            0xD6 => Some(Operation::DecMemZeroPageX),
            0xCE => Some(Operation::DecMemAbsolute),
            0xDE => Some(Operation::DecMemAbsoluteX),
            0xCA => Some(Operation::DecX),
            0x88 => Some(Operation::DecY),
            0xA9 => Some(Operation::LoadAccImm),
            0xA5 => Some(Operation::LoadAccZeroPage),
            0xB5 => Some(Operation::LoadAccZeroPageX),
            0xAD => Some(Operation::LoadAccAbsolute),
            0xBD => Some(Operation::LoadAccAbsoluteX),
            0xB9 => Some(Operation::LoadAccAbsoluteY),
            0xA1 => Some(Operation::LoadAccIndirectX),
            0xB1 => Some(Operation::LoadAccIndirectY),
            0xA2 => Some(Operation::LoadXImm),
            0xA6 => Some(Operation::LoadXZeroPage),
            0xB6 => Some(Operation::LoadXZeroPageY),
            0xAE => Some(Operation::LoadXAbsolute),
            0xBE => Some(Operation::LoadXAbsoluteY),
            0xA0 => Some(Operation::LoadYImm),
            0xA4 => Some(Operation::LoadYZeroPage),
            0xB4 => Some(Operation::LoadYZeroPageX),
            0xAC => Some(Operation::LoadYAbsolute),
            0xBC => Some(Operation::LoadYAbsoluteX),
            0x85 => Some(Operation::StoreAccZeroPage),
            0x95 => Some(Operation::StoreAccZeroPageX),
            0x8D => Some(Operation::StoreAccAbsolute),
            0x9D => Some(Operation::StoreAccAbsoluteX),
            0x99 => Some(Operation::StoreAccAbsoluteY),
            0x81 => Some(Operation::StoreAccIndirectX),
            0x91 => Some(Operation::StoreAccIndirectY),
            0x86 => Some(Operation::StoreXZeroPage),
            0x96 => Some(Operation::StoreXZeroPageY),
            0x8E => Some(Operation::StoreXAbsolute),
            0x84 => Some(Operation::StoreYZeroPage),
            0x94 => Some(Operation::StoreYZeroPageX),
            0x8C => Some(Operation::StoreYAbsolute),
            0xAA => Some(Operation::TransferAccToX),
            0xA8 => Some(Operation::TransferAccToY),
            0xBA => Some(Operation::TransferStackptrToX),
            0x8A => Some(Operation::TransferXToAcc),
            0x9A => Some(Operation::TransferXToStackptr),
            0x98 => Some(Operation::TransferYToAcc),
            0x29 => Some(Operation::AndImm),
            0x25 => Some(Operation::AndZeroPage),
            0x35 => Some(Operation::AndZeroPageX),
            0x2D => Some(Operation::AndAbsolute),
            0x3D => Some(Operation::AndAbsoluteX),
            0x39 => Some(Operation::AndAbsoluteY),
            0x21 => Some(Operation::AndIndirectX),
            0x31 => Some(Operation::AndIndirectY),
            0x49 => Some(Operation::XorImm),
            0x45 => Some(Operation::XorZeroPage),
            0x55 => Some(Operation::XorZeroPageX),
            0x4D => Some(Operation::XorAbsolute),
            0x5D => Some(Operation::XorAbsoluteX),
            0x59 => Some(Operation::XorAbsoluteY),
            0x41 => Some(Operation::XorIndirectX),
            0x51 => Some(Operation::XorIndirectY),
            0x09 => Some(Operation::OrImm),
            0x05 => Some(Operation::OrZeroPage),
            0x15 => Some(Operation::OrZeroPageX),
            0x0D => Some(Operation::OrAbsolute),
            0x1D => Some(Operation::OrAbsoluteX),
            0x19 => Some(Operation::OrAbsoluteY),
            0x01 => Some(Operation::OrIndirectX),
            0x11 => Some(Operation::OrIndirectY),
            0x18 => Some(Operation::ClearCarryFlag),
            0xD8 => Some(Operation::ClearDecimalFlag),
            0x58 => Some(Operation::ClearInterruptDisableFlag),
            0xB8 => Some(Operation::ClearOverflowFlag),
            0x38 => Some(Operation::SetCarryFlag),
            0xF8 => Some(Operation::SetDecimalFlag),
            0x78 => Some(Operation::SetInterruptDisableFlag),
            0x48 => Some(Operation::PushAcc),
            0x08 => Some(Operation::PushStatus),
            0x68 => Some(Operation::PullAcc),
            0x28 => Some(Operation::PullStatus),
            _ => None,
        }
    }
}

} // verus!
