//! Atomic one-cycle CPU effects and the restartable cursor that drives an
//! ordered list of them.

use vstd::prelude::*;

verus! {

/// One atomic microinstruction: a single tick of the CPU, performing at
/// most one bus access.
#[derive(Clone, Copy, PartialEq, Eq, Structural, Debug)]
pub enum MicroInstruction {
    Empty,
    ReadOperationCode,
    DecodeOperation,
    ImmediateRead,
    ReadAdl,
    ReadAdh,
    ReadZeroPage,
    ReadAbsolute,
    ReadBal,
    ReadBah,
    ReadAdlIndirectBal,
    ReadAdhIndirectBal,
    ReadZeroPageBalX,
    ReadZeroPageBalY,
    ReadAdlAdhAbsoluteX,
    ReadAdlAdhAbsoluteY,
    ReadIal,
    ReadBalIndirectIal,
    ReadBahIndirectIal,
    WriteZeroPage,
    WriteZeroPageBalX,
    WriteZeroPageBalY,
    WriteAbsolute,
    ClearCarryFlag,
    ClearDecimalFlag,
    ClearInterruptDisableFlag,
    ClearOverflowFlag,
    SetCarryFlag,
    SetDecimalFlag,
    SetInterruptDisableFlag,
    ShiftLeftAccumulator,
    ShiftLeftMemoryBuffer,
    PushAccumulator,
    PushStatusRegister,
    PullAccumulator,
    PullStatusRegister,
    IncrementMemoryBuffer,
    IncrementX,
    IncrementY,
    DecrementMemoryBuffer,
    DecrementX,
    DecrementY,
    LoadAccumulator,
    LoadX,
    LoadY,
    StoreAccumulator,
    StoreX,
    StoreY,
    TransferAccumulatorToX,
    TransferAccumulatorToY,
    TransferStackptrToX,
    TransferXToAccumulator,
    TransferXToStackptr,
    TransferYToAccumulator,
    And,
    Xor,
    Or,
}

/// An ordered list of microinstructions advanced one step per tick by a
/// cursor; restartable from the top.
pub struct MicroInstructionSequence {
    pub sequence: Vec<MicroInstruction>,
    pub idx: usize,
}

/// Mathematical model of a `MicroInstructionSequence`.
pub ghost struct MicroSeqView {
    pub sequence: Seq<MicroInstruction>,
    pub idx: int,
}

impl View for MicroInstructionSequence {
    type V = MicroSeqView;

    open spec fn view(&self) -> MicroSeqView {
        MicroSeqView { sequence: self.sequence@, idx: self.idx as int }
    }
}

impl MicroSeqView {
    /// The cursor never runs past one place beyond the end.
    pub open spec fn wf(self) -> bool {
        0 <= self.idx <= self.sequence.len()
    }

    pub open spec fn spec_completed(self) -> bool {
        self.idx >= self.sequence.len()
    }

    /// The microinstruction under the cursor.
    pub open spec fn spec_current(self) -> MicroInstruction {
        self.sequence[self.idx]
    }

    /// This view with the cursor advanced one step.
    pub open spec fn spec_next(self) -> MicroSeqView {
        MicroSeqView { idx: self.idx + 1, ..self }
    }

    /// This view with the cursor back at the top.
    pub open spec fn spec_reset(self) -> MicroSeqView {
        MicroSeqView { idx: 0, ..self }
    }
}

impl MicroInstructionSequence {
    pub fn new(sequence: Vec<MicroInstruction>) -> (r: MicroInstructionSequence)
        ensures
            r@.sequence == sequence@,
            r@.idx == 0,
            r@.wf(),
    {
        MicroInstructionSequence { sequence, idx: 0 }
    }

    pub fn get_micro_instruction(&self) -> (r: MicroInstruction)
        requires
            !self@.spec_completed(),
            self@.wf(),
        ensures
            r == self@.spec_current(),
    {
        self.sequence[self.idx]
    }

    pub fn next(&mut self)
        requires
            !old(self)@.spec_completed(),
            old(self)@.wf(),
        ensures
            final(self)@ == old(self)@.spec_next(),
            final(self)@.wf(),
    {
        let len = self.sequence.len();
        self.idx = self.idx + 1;
    }

    pub fn is_completed(&self) -> (r: bool)
        ensures
            r == self@.spec_completed(),
    {
        self.idx >= self.sequence.len()
    }

    pub fn reset(&mut self)
        ensures
            final(self)@ == old(self)@.spec_reset(),
            final(self)@.wf(),
    {
        self.idx = 0;
    }
}

} // verus!
