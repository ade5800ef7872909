//! The execution driver: fetch, decode, dispatch, and the new program
//! counter, one instruction per call.
//!
//! The driver also catches what would read past the end of memory, and
//! reports what it did, so that its caller can log it. Nothing is retried: a
//! machine that has halted stays halted.

use vstd::prelude::*;
use crate::laws::{lemma_halt_is_final, lemma_random_only};
use crate::machine::Chip8;
use crate::opcode::{decode, Instruction};
use crate::state::{State, RAM_SIZE, STACK_SIZE};

verus! {

/// What one step did. Where an instruction word was fetched, `pc` is its
/// address and `opcode` the word.
#[derive(Clone, Copy, Debug, PartialEq, Eq)]
pub enum Outcome {
    /// The machine is not ready or not running. Nothing was done.
    Idle,
    /// The program counter left no room in memory for an instruction word.
    /// The machine has halted.
    PcOutOfMemory { pc: u16 },
    /// The instruction ran.
    Executed { pc: u16, opcode: u16 },
    /// The instruction is a jump to its own address. The machine has halted.
    InfiniteLoop { pc: u16, opcode: u16 },
    /// The instruction is a call, and the stack is full. The machine has halted.
    StackOverflow { pc: u16, opcode: u16 },
    /// The instruction is a return, and the stack is empty. The machine has
    /// halted.
    StackUnderflow { pc: u16, opcode: u16 },
    /// The instruction is a draw whose sprite reaches past the end of memory.
    /// The machine has halted.
    SpriteOutOfMemory { pc: u16, opcode: u16 },
    /// The word stands for no instruction, or for one without semantics. The
    /// machine has stopped.
    NotImplemented { pc: u16, opcode: u16 },
}

impl State {
    /// What a step from this state reports.
    pub open spec fn outcome(self) -> Outcome {
        let pc = self.pc;
        let opcode = self.fetch();
        if !self.ready || !self.running {
            Outcome::Idle
        } else if !self.fetchable() {
            Outcome::PcOutOfMemory { pc }
        } else {
            match self.current() {
                Instruction::Return if self.stack.len() == 0 => Outcome::StackUnderflow {
                    pc,
                    opcode,
                },
                Instruction::Jump { nnn } if nnn == pc => Outcome::InfiniteLoop { pc, opcode },
                Instruction::Call { .. } if self.stack.len() >= STACK_SIZE => {
                    Outcome::StackOverflow { pc, opcode }
                },
                Instruction::Draw { n, .. } if self.i + n > RAM_SIZE => {
                    Outcome::SpriteOutOfMemory { pc, opcode }
                },
                Instruction::SkipKey { .. } | Instruction::Unknown => Outcome::NotImplemented {
                    pc,
                    opcode,
                },
                _ => Outcome::Executed { pc, opcode },
            }
        }
    }
}

impl Chip8 {
    /// One step, with the random byte taken from `injected` if it holds one
    /// and from the random source otherwise.
    fn dispatch(&mut self, injected: Option<u8>) -> (out: Outcome)
        requires
            old(self).wf(),
        ensures
            final(self).wf(),
            out == old(self)@.outcome(),
            exists|rnd: u8|
                (injected matches Some(byte) ==> rnd == byte) && final(self)@ == #[trigger] old(
                    self,
                )@.step(rnd),
    {
        let ghost before = self@;
        let ghost given = match injected {
            Some(byte) => byte,
            None => 0u8,
        };
        if !self.ready || !self.running {
            assert(self@ == before.step(given));
            return Outcome::Idle;
        }
        let pc = self.pc;
        if pc as usize + 1 >= RAM_SIZE {
            self.ready = false;
            assert(self@ == before.step(given));
            return Outcome::PcOutOfMemory { pc };
        }
        let d = decode(self.ram[pc as usize], self.ram[pc as usize + 1]);
        let opcode = d.opcode;
        let ins = d.instruction();
        let mut out = Outcome::Executed { pc, opcode };
        let ghost mut rnd = given;
        match ins {
            Instruction::Return => {
                if self.sp == 0 {
                    out = Outcome::StackUnderflow { pc, opcode };
                }
                self.pc = self.op_00ee();
            },
            Instruction::ClearScreen => {
                self.pc = self.op_00e0();
            },
            Instruction::Jump { nnn } => {
                if nnn == pc {
                    out = Outcome::InfiniteLoop { pc, opcode };
                }
                self.pc = self.op_1nnn(nnn);
            },
            Instruction::Call { nnn } => {
                if self.sp >= STACK_SIZE {
                    out = Outcome::StackOverflow { pc, opcode };
                }
                self.pc = self.op_2nnn(nnn);
            },
            Instruction::SkipEqImm { x, nn } => {
                self.pc = self.op_3xnn(x, nn);
            },
            Instruction::SkipNeImm { x, nn } => {
                self.pc = self.op_4xnn(x, nn);
            },
            Instruction::SkipEq { x, y } => {
                self.pc = self.op_5xy0(x, y);
            },
            Instruction::LoadImm { x, nn } => {
                self.pc = self.op_6xnn(x, nn);
            },
            Instruction::AddImm { x, nn } => {
                self.pc = self.op_7xnn(x, nn);
            },
            Instruction::Copy { x, y } => {
                self.pc = self.op_8xy0(x, y);
            },
            Instruction::Or { x, y } => {
                self.pc = self.op_8xy1(x, y);
            },
            Instruction::And { x, y } => {
                self.pc = self.op_8xy2(x, y);
            },
            Instruction::Xor { x, y } => {
                self.pc = self.op_8xy3(x, y);
            },
            Instruction::Add { x, y } => {
                self.pc = self.op_8xy4(x, y);
            },
            Instruction::Sub { x, y } => {
                self.pc = self.op_8xy5(x, y);
            },
            Instruction::ShiftRight { x, y } => {
                self.pc = self.op_8xy6(x, y);
            },
            Instruction::SubReverse { x, y } => {
                self.pc = self.op_8xy7(x, y);
            },
            Instruction::ShiftLeft { x, y } => {
                self.pc = self.op_8xye(x, y);
            },
            Instruction::SkipNe { x, y } => {
                self.pc = self.op_9xy0(x, y);
            },
            Instruction::LoadIndex { nnn } => {
                self.pc = self.op_annn(nnn);
            },
            Instruction::JumpOffset { nnn } => {
                self.pc = self.op_bnnn(nnn);
            },
            Instruction::Random { x, nn } => {
                let next = match injected {
                    Some(byte) => self.op_cxnn_with(x, nn, byte),
                    None => {
                        let next = self.op_cxnn(x, nn);
                        proof {
                            rnd = choose|byte: u8| self@ == #[trigger] before.with_reg(x, byte & nn);
                        }
                        next
                    },
                };
                self.pc = next;
            },
            Instruction::Draw { x, y, n } => {
                if self.i as usize + n as usize > RAM_SIZE {
                    self.ready = false;
                    out = Outcome::SpriteOutOfMemory { pc, opcode };
                } else {
                    self.pc = self.op_dxyn(x, y, n);
                }
            },
            Instruction::SkipKey { x } => {
                out = Outcome::NotImplemented { pc, opcode };
                self.pc = self.op_ex9e(x);
            },
            Instruction::Unknown => {
                out = Outcome::NotImplemented { pc, opcode };
                self.running = false;
            },
        }
        assert(self@ == before.step(rnd));
        out
    }

    /// Advances the machine by one instruction and says what was done.
    ///
    /// A machine that is not ready or not running is left as it is. A machine
    /// whose program counter has run past the end of memory, or whose next
    /// instruction would read past it, halts. Otherwise the instruction at
    /// the program counter is fetched, decoded and run, and the program
    /// counter takes the value that the instruction gives. If the
    /// instruction is `CXNN`, its byte comes from the random source.
    ///
    /// Neither flag is ever set by a step: a machine that has halted or
    /// stopped stays so.
    pub fn tick(&mut self) -> (out: Outcome)
        requires
            old(self).wf(),
        ensures
            final(self).wf(),
            out == old(self)@.outcome(),
            exists|rnd: u8| final(self)@ == #[trigger] old(self)@.step(rnd),
            !(old(self)@.current() is Random) ==> final(self)@ == old(self)@.step(0),
            final(self)@.ready ==> old(self)@.ready,
            final(self)@.running ==> old(self)@.running,
    {
        let out = self.dispatch(None);
        proof {
            let rnd = choose|rnd: u8| self@ == #[trigger] old(self)@.step(rnd);
            lemma_random_only(old(self)@, rnd, 0);
            lemma_halt_is_final(old(self)@, rnd);
        }
        out
    }

    /// [`Chip8::tick`] with the random source replaced by the byte `rnd`, for
    /// runs that must be repeatable.
    pub fn tick_with(&mut self, rnd: u8) -> (out: Outcome)
        requires
            old(self).wf(),
        ensures
            final(self).wf(),
            out == old(self)@.outcome(),
            final(self)@ == old(self)@.step(rnd),
    {
        self.dispatch(Some(rnd))
    }
}

} // verus!
