//! The instruction decoder. An instruction is one big-endian 16-bit word; the
//! decoder cuts it into nibbles and immediates and names the instruction it
//! stands for. Every word decodes; whether it can be executed is decided at
//! dispatch.

use vstd::prelude::*;

verus! {

/// The views of one instruction word that the handlers take their operands from.
#[derive(Clone, Copy, Debug, PartialEq, Eq)]
pub struct Decoded {
    /// The whole word.
    pub opcode: u16,
    /// The four 4-bit slices of the word, most significant first.
    pub nibbles: (u8, u8, u8, u8),
    /// The low byte.
    pub nn: u8,
    /// The low twelve bits.
    pub nnn: u16,
}

/// One instruction of the base set, with its operands. `x` and `y` are register
/// numbers, `nn` an immediate byte, `nnn` an address, `n` a sprite height.
#[derive(Clone, Copy, Debug, PartialEq, Eq)]
pub enum Instruction {
    /// `00EE`: return from a subroutine.
    Return,
    /// `00E0`: clear the display.
    ClearScreen,
    /// `1NNN`: jump to `nnn`.
    Jump { nnn: u16 },
    /// `2NNN`: call the subroutine at `nnn`.
    Call { nnn: u16 },
    /// `3XNN`: skip the next instruction if `Vx == nn`.
    SkipEqImm { x: u8, nn: u8 },
    /// `4XNN`: skip the next instruction if `Vx != nn`.
    SkipNeImm { x: u8, nn: u8 },
    /// `5XY0`: skip the next instruction if `Vx == Vy`.
    SkipEq { x: u8, y: u8 },
    /// `6XNN`: `Vx = nn`.
    LoadImm { x: u8, nn: u8 },
    /// `7XNN`: `Vx = Vx + nn`, modulo 256, no flag.
    AddImm { x: u8, nn: u8 },
    /// `8XY0`: `Vx = Vy`.
    Copy { x: u8, y: u8 },
    /// `8XY1`: `Vx = Vx | Vy`.
    Or { x: u8, y: u8 },
    /// `8XY2`: `Vx = Vx & Vy`.
    And { x: u8, y: u8 },
    /// `8XY3`: `Vx = Vx ^ Vy`.
    Xor { x: u8, y: u8 },
    /// `8XY4`: `Vx = Vx + Vy`, with the flag.
    Add { x: u8, y: u8 },
    /// `8XY5`: `Vx = Vx - Vy`, with the flag.
    Sub { x: u8, y: u8 },
    /// `8XY6`: `Vx = Vy >> 1`, with the flag.
    ShiftRight { x: u8, y: u8 },
    /// `8XY7`: `Vx = Vy - Vx`, with the flag.
    SubReverse { x: u8, y: u8 },
    /// `8XYE`: `Vx = Vy << 1`, with the flag.
    ShiftLeft { x: u8, y: u8 },
    /// `9XY0`: skip the next instruction if `Vx != Vy`.
    SkipNe { x: u8, y: u8 },
    /// `ANNN`: `I = nnn`.
    LoadIndex { nnn: u16 },
    /// `BNNN`: jump to `nnn + V0`.
    JumpOffset { nnn: u16 },
    /// `CXNN`: `Vx = random byte & nn`.
    Random { x: u8, nn: u8 },
    /// `DXYN`: draw the `n`-row sprite at `I` with its origin at `(Vx, Vy)`.
    Draw { x: u8, y: u8, n: u8 },
    /// `EX9E`: skip on key press. Recognised, and without semantics here.
    SkipKey { x: u8 },
    /// Any other word.
    Unknown,
}

/// The big-endian 16-bit word made of two consecutive bytes.
pub open spec fn word_of(hi: u8, lo: u8) -> u16 {
    (hi as int * 256 + lo as int) as u16
}

/// The fields of the word `opcode`, each as a number.
pub open spec fn decoded(opcode: u16) -> Decoded {
    Decoded {
        opcode,
        nibbles: (
            (opcode / 4096) as u8,
            (opcode / 256 % 16) as u8,
            (opcode / 16 % 16) as u8,
            (opcode % 16) as u8,
        ),
        nn: (opcode % 256) as u8,
        nnn: opcode % 4096,
    }
}

/// The instruction that a decoded word stands for: a pattern over its nibbles.
pub open spec fn instruction_of(d: Decoded) -> Instruction {
    let (op, x, y, n) = d.nibbles;
    if op == 0x0 && x == 0x0 && y == 0xE && n == 0xE {
        Instruction::Return
    } else if op == 0x0 && x == 0x0 && y == 0xE && n == 0x0 {
        Instruction::ClearScreen
    } else if op == 0x1 {
        Instruction::Jump { nnn: d.nnn }
    } else if op == 0x2 {
        Instruction::Call { nnn: d.nnn }
    } else if op == 0x3 {
        Instruction::SkipEqImm { x, nn: d.nn }
    } else if op == 0x4 {
        Instruction::SkipNeImm { x, nn: d.nn }
    } else if op == 0x5 && n == 0x0 {
        Instruction::SkipEq { x, y }
    } else if op == 0x6 {
        Instruction::LoadImm { x, nn: d.nn }
    } else if op == 0x7 {
        Instruction::AddImm { x, nn: d.nn }
    } else if op == 0x8 && n == 0x0 {
        Instruction::Copy { x, y }
    } else if op == 0x8 && n == 0x1 {
        Instruction::Or { x, y }
    } else if op == 0x8 && n == 0x2 {
        Instruction::And { x, y }
    } else if op == 0x8 && n == 0x3 {
        Instruction::Xor { x, y }
    } else if op == 0x8 && n == 0x4 {
        Instruction::Add { x, y }
    } else if op == 0x8 && n == 0x5 {
        Instruction::Sub { x, y }
    } else if op == 0x8 && n == 0x6 {
        Instruction::ShiftRight { x, y }
    } else if op == 0x8 && n == 0x7 {
        Instruction::SubReverse { x, y }
    } else if op == 0x8 && n == 0xE {
        Instruction::ShiftLeft { x, y }
    } else if op == 0x9 && n == 0x0 {
        Instruction::SkipNe { x, y }
    } else if op == 0xA {
        Instruction::LoadIndex { nnn: d.nnn }
    } else if op == 0xB {
        Instruction::JumpOffset { nnn: d.nnn }
    } else if op == 0xC {
        Instruction::Random { x, nn: d.nn }
    } else if op == 0xD {
        Instruction::Draw { x, y, n }
    } else if op == 0xE && y == 0x9 && n == 0xE {
        Instruction::SkipKey { x }
    } else {
        Instruction::Unknown
    }
}

impl Decoded {
    /// The nibbles are nibbles, and the immediates agree with them.
    pub open spec fn wf(self) -> bool {
        &&& self == decoded(self.opcode)
        &&& self.nibbles.0 < 16 && self.nibbles.1 < 16 && self.nibbles.2 < 16 && self.nibbles.3 < 16
        &&& self.nn == self.nibbles.2 * 16 + self.nibbles.3
        &&& self.nnn == self.nibbles.1 * 256 + self.nn
        &&& self.opcode == self.nibbles.0 * 4096 + self.nnn
    }

    /// Names the instruction that this word stands for.
    pub fn instruction(&self) -> (ins: Instruction)
        ensures
            ins == instruction_of(*self),
            self.wf() ==> ins.wf(),
    {
        proof {
            lemma_decoded_wf(self.opcode);
        }
        let nn = self.nn;
        let nnn = self.nnn;
        match self.nibbles {
            (0x0, 0x0, 0xE, 0xE) => Instruction::Return,
            (0x0, 0x0, 0xE, 0x0) => Instruction::ClearScreen,
            (0x1, _, _, _) => Instruction::Jump { nnn },
            (0x2, _, _, _) => Instruction::Call { nnn },
            (0x3, x, _, _) => Instruction::SkipEqImm { x, nn },
            (0x4, x, _, _) => Instruction::SkipNeImm { x, nn },
            (0x5, x, y, 0x0) => Instruction::SkipEq { x, y },
            (0x6, x, _, _) => Instruction::LoadImm { x, nn },
            (0x7, x, _, _) => Instruction::AddImm { x, nn },
            (0x8, x, y, 0x0) => Instruction::Copy { x, y },
            (0x8, x, y, 0x1) => Instruction::Or { x, y },
            (0x8, x, y, 0x2) => Instruction::And { x, y },
            (0x8, x, y, 0x3) => Instruction::Xor { x, y },
            (0x8, x, y, 0x4) => Instruction::Add { x, y },
            (0x8, x, y, 0x5) => Instruction::Sub { x, y },
            (0x8, x, y, 0x6) => Instruction::ShiftRight { x, y },
            (0x8, x, y, 0x7) => Instruction::SubReverse { x, y },
            (0x8, x, y, 0xE) => Instruction::ShiftLeft { x, y },
            (0x9, x, y, 0x0) => Instruction::SkipNe { x, y },
            (0xA, _, _, _) => Instruction::LoadIndex { nnn },
            (0xB, _, _, _) => Instruction::JumpOffset { nnn },
            (0xC, x, _, _) => Instruction::Random { x, nn },
            (0xD, x, y, n) => Instruction::Draw { x, y, n },
            (0xE, x, 0x9, 0xE) => Instruction::SkipKey { x },
            _ => Instruction::Unknown,
        }
    }
}

impl Instruction {
    /// Register numbers and the sprite height are nibbles, addresses have twelve bits.
    pub open spec fn wf(self) -> bool {
        match self {
            Instruction::Return | Instruction::ClearScreen | Instruction::Unknown => true,
            Instruction::Jump { nnn }
            | Instruction::Call { nnn }
            | Instruction::LoadIndex { nnn }
            | Instruction::JumpOffset { nnn } => nnn < 4096,
            Instruction::SkipEqImm { x, .. }
            | Instruction::SkipNeImm { x, .. }
            | Instruction::LoadImm { x, .. }
            | Instruction::AddImm { x, .. }
            | Instruction::Random { x, .. }
            | Instruction::SkipKey { x } => x < 16,
            Instruction::SkipEq { x, y }
            | Instruction::Copy { x, y }
            | Instruction::Or { x, y }
            | Instruction::And { x, y }
            | Instruction::Xor { x, y }
            | Instruction::Add { x, y }
            | Instruction::Sub { x, y }
            | Instruction::ShiftRight { x, y }
            | Instruction::SubReverse { x, y }
            | Instruction::ShiftLeft { x, y }
            | Instruction::SkipNe { x, y } => x < 16 && y < 16,
            Instruction::Draw { x, y, n } => x < 16 && y < 16 && n < 16,
        }
    }
}

/// Every word decodes to well-formed fields, and to an instruction whose
/// operands are in range.
pub proof fn lemma_decoded_wf(opcode: u16)
    ensures
        decoded(opcode).wf(),
        instruction_of(decoded(opcode)).wf(),
{
}

/// Decodes the two bytes `hi`, `lo`, read as one big-endian word.
pub fn decode(hi: u8, lo: u8) -> (d: Decoded)
    ensures
        d == decoded(word_of(hi, lo)),
        d.wf(),
{
    let opcode: u16 = ((hi as u16) << 8) | (lo as u16);
    let nibbles = (
        ((opcode & 0xF000) >> 12) as u8,
        ((opcode & 0x0F00) >> 8) as u8,
        ((opcode & 0x00F0) >> 4) as u8,
        (opcode & 0x000F) as u8,
    );
    let nn = (opcode & 0xFF) as u8;
    let nnn = opcode & 0xFFF;
    proof {
        assert(((hi as u16) << 8) | (lo as u16) == (hi as u16) * 256 + (lo as u16))
            by (bit_vector);
        assert((opcode & 0xF000) >> 12 == opcode / 4096) by (bit_vector);
        assert((opcode & 0x0F00) >> 8 == opcode / 256 % 16) by (bit_vector);
        assert((opcode & 0x00F0) >> 4 == opcode / 16 % 16) by (bit_vector);
        assert(opcode & 0x000F == opcode % 16) by (bit_vector);
        assert(opcode & 0xFF == opcode % 256) by (bit_vector);
        assert(opcode & 0xFFF == opcode % 4096) by (bit_vector);
        lemma_decoded_wf(opcode);
    }
    Decoded { opcode, nibbles, nn, nnn }
}

} // verus!
