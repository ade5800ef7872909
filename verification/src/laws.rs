//! What holds of every run of the machine, stated over the model and proved.

use vstd::prelude::*;
use crate::display::{
    collides, lemma_second_draw_collides, lemma_toggled_twice, lit, on_screen,
};
use crate::opcode::{decoded, instruction_of, lemma_decoded_wf, word_of, Instruction};
use crate::state::{State, FLAG, RAM_SIZE, STACK_SIZE};

verus! {

/// A step keeps the state well-formed.
pub proof fn lemma_step_wf(s: State, rnd: u8)
    requires
        s.wf(),
    ensures
        s.step(rnd).wf(),
{
    lemma_decoded_wf(s.fetch());
}

/// Neither flag ever comes back: a step sets neither `ready` nor `running`,
/// and a machine that has lost one of them does not change any more.
pub proof fn lemma_halt_is_final(s: State, rnd: u8)
    ensures
        s.step(rnd).ready ==> s.ready,
        s.step(rnd).running ==> s.running,
        !s.ready || !s.running ==> s.step(rnd) == s,
{
}

/// The random byte matters to a step only where the instruction is `CXNN`.
pub proof fn lemma_random_only(s: State, a: u8, b: u8)
    ensures
        !(s.current() is Random) ==> s.step(a) == s.step(b),
{
}

/// Add with flag. Afterwards VF is 1 if `Vx + Vy <= 255` and 0 otherwise,
/// and Vx holds `(Vx + Vy) mod 256`, unless Vx is VF itself, which holds the
/// flag.
pub proof fn lemma_add_carry(s: State, x: u8, y: u8, rnd: u8)
    requires
        s.wf(),
        x < 16,
        y < 16,
    ensures
        ({
            let a = s.v[x as int];
            let b = s.v[y as int];
            let r = s.execute(Instruction::Add { x, y }, rnd);
            &&& x != FLAG ==> r.v[x as int] == (a + b) % 256
            &&& r.v[FLAG as int] == 1 <==> a + b <= 255
            &&& r.v[FLAG as int] == 0 <==> a + b > 255
        }),
{
}

/// The two subtractions. `Vx - Vy` leaves VF = 0 exactly when it borrows,
/// `Vx < Vy`, and VF = 1 otherwise. `Vy - Vx` leaves VF = 1 exactly when it
/// borrows, `Vy < Vx`, and VF = 0 otherwise. Either leaves the difference
/// modulo 256 in Vx, unless Vx is VF itself. So one and the same subtraction
/// `a - b`, asked for in the one way and in the other, ends with opposite
/// flags.
pub proof fn lemma_sub_polarity(s: State, x: u8, y: u8, rnd: u8)
    requires
        s.wf(),
        x < 16,
        y < 16,
    ensures
        ({
            let a = s.v[x as int];
            let b = s.v[y as int];
            let sub = s.execute(Instruction::Sub { x, y }, rnd);
            let rev = s.execute(Instruction::SubReverse { x, y }, rnd);
            let swapped = s.execute(Instruction::SubReverse { x: y, y: x }, rnd);
            &&& sub.v[FLAG as int] == 0 <==> a < b
            &&& sub.v[FLAG as int] == 1 <==> a >= b
            &&& rev.v[FLAG as int] == 1 <==> b < a
            &&& rev.v[FLAG as int] == 0 <==> b >= a
            &&& x != FLAG ==> sub.v[x as int] == (a - b) % 256
            &&& x != FLAG ==> rev.v[x as int] == (b - a) % 256
            &&& sub.v[FLAG as int] + swapped.v[FLAG as int] == 1
        }),
{
}

/// Shift right. Afterwards VF is the low bit of Vy, and Vx holds `Vy >> 1`,
/// unless Vx is VF itself.
pub proof fn lemma_shift_right(s: State, x: u8, y: u8, rnd: u8)
    requires
        s.wf(),
        x < 16,
        y < 16,
    ensures
        ({
            let v = s.v[y as int];
            let r = s.execute(Instruction::ShiftRight { x, y }, rnd);
            &&& x != FLAG ==> r.v[x as int] == v >> 1
            &&& r.v[FLAG as int] == v & 1
        }),
{
    let v = s.v[y as int];
    assert(v >> 1 == v / 2 && v & 1 == v % 2) by (bit_vector);
}

/// After a screen clear every pixel is off, whatever the display held.
pub proof fn lemma_clear_screen(s: State, rnd: u8)
    ensures
        forall|px: int, py: int|
            on_screen(px, py) ==> !s.execute(Instruction::ClearScreen, rnd).vram[py][px],
{
}

/// Drawing twice. If a draw leaves its origin registers as they were, the
/// same draw once more gives back the display as it was before the first.
/// The second draw sets VF to 1 exactly if it turns a pixel off, which is if
/// the sprite has a set bit on a pixel that was off before the first draw;
/// otherwise it leaves VF as the first draw left it.
pub proof fn lemma_draw_twice(s: State, x: u8, y: u8, n: u8, rnd: u8)
    requires
        s.wf(),
        x < 16,
        y < 16,
        s.draw(x, y, n).v[x as int] == s.v[x as int],
        s.draw(x, y, n).v[y as int] == s.v[y as int],
    ensures
        ({
            let ox = s.v[x as int] as int;
            let oy = s.v[y as int] as int;
            let once = s.draw(x, y, n);
            let twice = once.draw(x, y, n);
            let uncovered = exists|px: int, py: int|
                on_screen(px, py) && !s.vram[py][px] && #[trigger] lit(s.sprite(n), ox, oy, px, py);
            &&& twice.vram == s.vram
            &&& uncovered == collides(once.vram, once.sprite(n), ox, oy)
            &&& uncovered ==> twice.v[FLAG as int] == 1
            &&& !uncovered ==> twice.v[FLAG as int] == once.v[FLAG as int]
            &&& twice == State { v: twice.v, ..s }
        }),
{
    let ox = s.v[x as int] as int;
    let oy = s.v[y as int] as int;
    lemma_toggled_twice(s.vram, s.sprite(n), ox, oy);
    lemma_second_draw_collides(s.vram, s.sprite(n), ox, oy);
}

/// A jump to itself. If the two bytes at the program counter `A` encode
/// "jump to `A`", the first step clears `ready` and leaves everything else,
/// and no later step does anything.
pub proof fn lemma_jump_to_self(s: State, rnd: u8, later: u8)
    requires
        s.wf(),
        s.ready,
        s.running,
        s.pc + 1 < RAM_SIZE,
        s.ram[s.pc as int] == 0x10 + s.pc / 256,
        s.ram[s.pc + 1] == s.pc % 256,
    ensures
        s.current() == (Instruction::Jump { nnn: s.pc }),
        s.step(rnd) == s.halted(),
        !s.step(rnd).ready,
        s.step(rnd).step(later) == s.step(rnd),
{
    assert(s.fetch() == 0x1000 + s.pc);
}

/// An instruction word that stands for nothing. If the word at the program
/// counter matches no instruction, the step clears `running` and leaves
/// everything else, the program counter too.
pub proof fn lemma_unknown_stops(s: State, rnd: u8)
    requires
        s.ready,
        s.running,
        s.pc + 1 < RAM_SIZE,
        s.current() is Unknown,
    ensures
        s.step(rnd) == s.stopped(),
        !s.step(rnd).running,
        s.step(rnd).pc == s.pc,
{
}

/// No instruction has the high nibble `F`: a word that begins with it
/// matches none.
pub proof fn lemma_high_nibble_f(hi: u8, lo: u8)
    requires
        hi / 16 == 0xF,
    ensures
        instruction_of(decoded(word_of(hi, lo))) is Unknown,
{
}

/// Call and return. A return that finds the stack as a call at address `A`
/// left it goes to `A + 2` and leaves the stack as it was before the call,
/// whatever else has changed in between.
pub proof fn lemma_call_return(s: State, nnn: u16, inside: State, rnd: u8)
    requires
        s.wf(),
        s.pc + 1 < RAM_SIZE,
        s.stack.len() < STACK_SIZE,
        inside.stack == s.execute(Instruction::Call { nnn }, rnd).stack,
    ensures
        s.execute(Instruction::Call { nnn }, rnd).pc == nnn,
        inside.execute(Instruction::Return, rnd).pc == s.pc + 2,
        inside.execute(Instruction::Return, rnd).stack == s.stack,
{
}

/// The round trip in steps: a call, then a return as the first instruction
/// of the subroutine, puts the program counter after the call and the stack
/// where it was, and changes nothing else.
pub proof fn lemma_call_return_steps(s: State, nnn: u16, rnd: u8, later: u8)
    requires
        s.wf(),
        s.ready,
        s.running,
        s.pc + 1 < RAM_SIZE,
        s.stack.len() < STACK_SIZE,
        s.current() == (Instruction::Call { nnn }),
        nnn + 1 < RAM_SIZE,
        s.at(nnn as int).current() == Instruction::Return,
    ensures
        s.step(rnd).pc == nnn,
        s.step(rnd).step(later) == s.at(s.pc + 2),
{
    assert(s.stack.push((s.pc + 2) as u16).drop_last() =~= s.stack);
}

} // verus!
