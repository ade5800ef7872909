//! The architectural state as a mathematical value, and what each instruction
//! does to it.
//!
//! Every instruction is a function from state to state. The functions here
//! leave the program counter alone: an instruction's handler hands the next
//! program counter back and its caller assigns it, which [`State::execute`]
//! does for the model.

use vstd::prelude::*;
use crate::display::{blank, collides, grid_wf, toggled, Grid};
use crate::opcode::{decoded, instruction_of, word_of, Instruction};

verus! {

/// Number of addressable memory cells.
pub const RAM_SIZE: usize = 0x1000;

/// Number of general-purpose registers.
pub const REGISTER_COUNT: usize = 16;

/// Size of the low region of memory kept for the interpreter. Programs are
/// loaded at this address and start running there.
pub const RESERVED_SPACE: usize = 0x200;

/// The largest program image that fits above the reserved region.
pub const MAX_ROM_SIZE: usize = 0x1000 - RESERVED_SPACE;

/// Capacity of the call stack.
pub const STACK_SIZE: usize = 16;

/// The number of the flag register, VF.
pub const FLAG: u8 = 0xF;

/// The glyphs of the sixteen hexadecimal digits, five rows each, four pixels
/// wide in the high nibble of each row.
pub const FONTSET: [u8; 80] = [
    0xF0, 0x90, 0x90, 0x90, 0xF0,
    0x20, 0x60, 0x20, 0x20, 0x70,
    0xF0, 0x10, 0xF0, 0x80, 0xF0,
    0xF0, 0x10, 0xF0, 0x10, 0xF0,
    0x90, 0x90, 0xF0, 0x10, 0x10,
    0xF0, 0x80, 0xF0, 0x10, 0xF0,
    0xF0, 0x80, 0xF0, 0x90, 0xF0,
    0xF0, 0x10, 0x20, 0x40, 0x40,
    0xF0, 0x90, 0xF0, 0x90, 0xF0,
    0xF0, 0x90, 0xF0, 0x10, 0xF0,
    0xF0, 0x90, 0xF0, 0x90, 0x90,
    0xE0, 0x90, 0xE0, 0x90, 0xE0,
    0xF0, 0x80, 0x80, 0x80, 0xF0,
    0xE0, 0x90, 0x90, 0x90, 0xE0,
    0xF0, 0x80, 0xF0, 0x80, 0xF0,
    0xF0, 0x80, 0xF0, 0x80, 0x80,
];

/// Everything the machine holds.
pub ghost struct State {
    /// A program is loaded and nothing has halted it.
    pub ready: bool,
    /// No unimplemented instruction has been met.
    pub running: bool,
    /// Address of the next instruction.
    pub pc: u16,
    /// The return addresses of the calls in progress, the innermost last.
    pub stack: Seq<u16>,
    /// The display.
    pub vram: Grid,
    /// Memory.
    pub ram: Seq<u8>,
    /// The registers V0 to VF.
    pub v: Seq<u8>,
    /// The index register.
    pub i: u16,
}

impl State {
    /// Memory, registers and display have their sizes, and the stack is within
    /// its capacity.
    pub open spec fn wf(self) -> bool {
        &&& self.stack.len() <= STACK_SIZE
        &&& grid_wf(self.vram)
        &&& self.ram.len() == RAM_SIZE
        &&& self.v.len() == REGISTER_COUNT
    }

    /// The state of a new machine: the font in the first 80 cells and zero
    /// everywhere else, the program counter at the start of program space,
    /// running and not yet ready.
    pub open spec fn initial() -> State {
        State {
            ready: false,
            running: true,
            pc: RESERVED_SPACE as u16,
            stack: Seq::empty(),
            vram: blank(),
            ram: Seq::new(RAM_SIZE as nat, |a: int| if a < 80 { FONTSET@[a] } else { 0u8 }),
            v: Seq::new(REGISTER_COUNT as nat, |r: int| 0u8),
            i: 0,
        }
    }

    /// The state once the image `rom` is in memory at the start of program
    /// space and the machine is marked ready.
    pub open spec fn loaded(self, rom: Seq<u8>) -> State {
        State {
            ready: true,
            ram: Seq::new(
                RAM_SIZE as nat,
                |a: int|
                    if RESERVED_SPACE <= a < RESERVED_SPACE + rom.len() {
                        rom[a - RESERVED_SPACE]
                    } else {
                        self.ram[a]
                    },
            ),
            ..self
        }
    }

    /// The state with register `x` set to `val`.
    pub open spec fn with_reg(self, x: u8, val: u8) -> State {
        State { v: self.v.update(x as int, val), ..self }
    }

    /// The state with the flag register set to `val`.
    pub open spec fn with_flag(self, val: u8) -> State {
        self.with_reg(FLAG, val)
    }

    /// The state with the program counter at `pc`.
    pub open spec fn at(self, pc: int) -> State {
        State { pc: pc as u16, ..self }
    }

    /// The state with `ready` cleared: halted by a fault of the program.
    pub open spec fn halted(self) -> State {
        State { ready: false, ..self }
    }

    /// The state with `running` cleared: halted by an instruction that has no
    /// semantics here.
    pub open spec fn stopped(self) -> State {
        State { running: false, ..self }
    }

    /// Screen clear: every pixel off.
    pub open spec fn clear_screen(self) -> State {
        State { vram: blank(), ..self }
    }

    /// Return: the innermost return address leaves the stack. On an empty stack
    /// the machine halts instead.
    pub open spec fn ret(self) -> State {
        if self.stack.len() == 0 {
            self.halted()
        } else {
            State { stack: self.stack.drop_last(), ..self }
        }
    }

    /// Jump: nothing changes but the program counter, unless the jump leads to
    /// its own address, which halts the machine.
    pub open spec fn jump(self, nnn: u16) -> State {
        if nnn == self.pc {
            self.halted()
        } else {
            self
        }
    }

    /// Call: the address after the call goes on the stack. On a full stack the
    /// machine halts instead.
    pub open spec fn call(self) -> State {
        if self.stack.len() >= STACK_SIZE {
            self.halted()
        } else {
            State { stack: self.stack.push((self.pc + 2) as u16), ..self }
        }
    }

    /// Add immediate: `Vx = (Vx + nn) mod 256`, the flag untouched.
    pub open spec fn add_imm(self, x: u8, nn: u8) -> State {
        self.with_reg(x, ((self.v[x as int] + nn) % 256) as u8)
    }

    /// Add with flag: `Vx = (Vx + Vy) mod 256`, then `VF = 1` if the sum fitted
    /// in a byte and `VF = 0` if it did not.
    pub open spec fn add_carry(self, x: u8, y: u8) -> State {
        let sum = self.v[x as int] + self.v[y as int];
        self.with_reg(x, (sum % 256) as u8).with_flag(if sum <= 255 { 1u8 } else { 0u8 })
    }

    /// Subtract: `Vx = (Vx - Vy) mod 256`, then `VF = 0` on borrow and `VF = 1`
    /// otherwise.
    pub open spec fn sub_borrow(self, x: u8, y: u8) -> State {
        let a = self.v[x as int];
        let b = self.v[y as int];
        self.with_reg(x, ((a - b) % 256) as u8).with_flag(if a < b { 0u8 } else { 1u8 })
    }

    /// Reverse subtract: `Vx = (Vy - Vx) mod 256`, then `VF = 1` on borrow and
    /// `VF = 0` otherwise.
    pub open spec fn sub_reverse(self, x: u8, y: u8) -> State {
        let a = self.v[y as int];
        let b = self.v[x as int];
        self.with_reg(x, ((a - b) % 256) as u8).with_flag(if a < b { 1u8 } else { 0u8 })
    }

    /// Shift right: `Vx = Vy / 2`, then `VF` = the low bit of `Vy`.
    pub open spec fn shift_right(self, x: u8, y: u8) -> State {
        let v = self.v[y as int];
        self.with_reg(x, v / 2).with_flag(v % 2)
    }

    /// Shift left: `Vx = (Vy * 2) mod 256`, then `VF` = the high bit of `Vy`.
    pub open spec fn shift_left(self, x: u8, y: u8) -> State {
        let v = self.v[y as int];
        self.with_reg(x, ((v * 2) % 256) as u8).with_flag(v / 128)
    }

    /// The `n` sprite rows that the index register points at.
    pub open spec fn sprite(self, n: u8) -> Seq<u8> {
        self.ram.subrange(self.i as int, self.i + n)
    }

    /// Draw: the sprite is toggled onto the display with its origin at
    /// `(Vx, Vy)`, then `VF = 1` if that turned a set pixel off. Without such a
    /// collision the flag keeps its value.
    pub open spec fn draw(self, x: u8, y: u8, n: u8) -> State {
        let sprite = self.sprite(n);
        let ox = self.v[x as int] as int;
        let oy = self.v[y as int] as int;
        let drawn = State { vram: toggled(self.vram, sprite, ox, oy), ..self };
        if collides(self.vram, sprite, ox, oy) {
            drawn.with_flag(1)
        } else {
            drawn
        }
    }

    /// The program counter leaves room in memory for an instruction word.
    pub open spec fn fetchable(self) -> bool {
        self.pc + 1 < RAM_SIZE
    }

    /// The instruction word at the program counter.
    pub open spec fn fetch(self) -> u16 {
        word_of(self.ram[self.pc as int], self.ram[self.pc + 1])
    }

    /// The instruction at the program counter.
    pub open spec fn current(self) -> Instruction {
        instruction_of(decoded(self.fetch()))
    }

    /// Whether the machine can run `ins` without reading past the end of
    /// memory. Only a draw reads memory.
    pub open spec fn in_memory(self, ins: Instruction) -> bool {
        ins matches Instruction::Draw { n, .. } ==> self.i + n <= RAM_SIZE
    }

    /// The state after `ins` has run at the program counter, which it moves:
    /// to the next instruction, past it on a skip that is taken, to the target
    /// of a jump, call or return, and nowhere when `ins` halts the machine.
    /// `rnd` is the byte that the random source gives if `ins` asks it.
    pub open spec fn execute(self, ins: Instruction, rnd: u8) -> State {
        let pc = self.pc as int;
        match ins {
            Instruction::Return => if self.stack.len() == 0 {
                self.ret()
            } else {
                self.ret().at(self.stack.last() as int)
            },
            Instruction::ClearScreen => self.clear_screen().at(pc + 2),
            Instruction::Jump { nnn } => self.jump(nnn).at(nnn as int),
            Instruction::Call { nnn } => if self.stack.len() >= STACK_SIZE {
                self.call()
            } else {
                self.call().at(nnn as int)
            },
            Instruction::SkipEqImm { x, nn } => self.at(
                if self.v[x as int] == nn {
                    pc + 4
                } else {
                    pc + 2
                },
            ),
            Instruction::SkipNeImm { x, nn } => self.at(
                if self.v[x as int] != nn {
                    pc + 4
                } else {
                    pc + 2
                },
            ),
            Instruction::SkipEq { x, y } => self.at(
                if self.v[x as int] == self.v[y as int] {
                    pc + 4
                } else {
                    pc + 2
                },
            ),
            Instruction::LoadImm { x, nn } => self.with_reg(x, nn).at(pc + 2),
            Instruction::AddImm { x, nn } => self.add_imm(x, nn).at(pc + 2),
            Instruction::Copy { x, y } => self.with_reg(x, self.v[y as int]).at(pc + 2),
            Instruction::Or { x, y } => self.with_reg(x, self.v[x as int] | self.v[y as int]).at(
                pc + 2,
            ),
            Instruction::And { x, y } => self.with_reg(x, self.v[x as int] & self.v[y as int]).at(
                pc + 2,
            ),
            Instruction::Xor { x, y } => self.with_reg(x, self.v[x as int] ^ self.v[y as int]).at(
                pc + 2,
            ),
            Instruction::Add { x, y } => self.add_carry(x, y).at(pc + 2),
            Instruction::Sub { x, y } => self.sub_borrow(x, y).at(pc + 2),
            Instruction::ShiftRight { x, y } => self.shift_right(x, y).at(pc + 2),
            Instruction::SubReverse { x, y } => self.sub_reverse(x, y).at(pc + 2),
            Instruction::ShiftLeft { x, y } => self.shift_left(x, y).at(pc + 2),
            Instruction::SkipNe { x, y } => self.at(
                if self.v[x as int] != self.v[y as int] {
                    pc + 4
                } else {
                    pc + 2
                },
            ),
            Instruction::LoadIndex { nnn } => State { i: nnn, ..self }.at(pc + 2),
            Instruction::JumpOffset { nnn } => self.at(nnn + self.v[0]),
            Instruction::Random { x, nn } => self.with_reg(x, rnd & nn).at(pc + 2),
            Instruction::Draw { x, y, n } => self.draw(x, y, n).at(pc + 2),
            Instruction::SkipKey { .. } | Instruction::Unknown => self.stopped(),
        }
    }

    /// One step of the machine. A machine that is not ready or not running
    /// stays as it is. One whose program counter leaves no room for an
    /// instruction word, or whose next instruction would read past the end of
    /// memory, halts. Otherwise the instruction at the program counter runs.
    pub open spec fn step(self, rnd: u8) -> State {
        if !self.ready || !self.running {
            self
        } else if !self.fetchable() {
            self.halted()
        } else if !self.in_memory(self.current()) {
            self.halted()
        } else {
            self.execute(self.current(), rnd)
        }
    }
}

} // verus!
