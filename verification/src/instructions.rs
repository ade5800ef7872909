//! The instruction handlers, one per instruction. A handler changes the
//! machine as its instruction says and hands back the address that the
//! program counter takes next; it does not move the program counter itself.
//!
//! Several instructions write the flag register VF besides their result. The
//! flag is always written last, so where an instruction names VF as its
//! target register, VF holds the flag afterwards.

use vstd::prelude::*;
use crate::display::{
    collides_before, lemma_before_all, lemma_draw_row_done, lemma_draw_step, lit, lit_before,
    on_screen, SCREEN_X_SIZE, SCREEN_Y_SIZE,
};
use crate::machine::Chip8;
use crate::random::random_byte;
use crate::state::{State, RAM_SIZE, STACK_SIZE};

verus! {

impl Chip8 {
    /// `00E0`: turns every pixel off.
    pub fn op_00e0(&mut self) -> (next: u16)
        requires
            old(self).wf(),
            old(self)@.fetchable(),
        ensures
            final(self).wf(),
            final(self)@ == old(self)@.clear_screen(),
            forall|px: int, py: int| on_screen(px, py) ==> !final(self)@.vram[py][px],
            next == old(self)@.pc + 2,
    {
        let mut y: usize = 0;
        while y < SCREEN_Y_SIZE
            invariant
                y <= SCREEN_Y_SIZE,
                self.wf(),
                self@ == (State { vram: self@.vram, ..old(self)@ }),
                forall|py: int, px: int|
                    0 <= py < y && 0 <= px < SCREEN_X_SIZE ==> !self.vram@[py]@[px],
            decreases SCREEN_Y_SIZE - y,
        {
            self.vram[y] = [false; SCREEN_X_SIZE];
            y += 1;
        }
        assert(self@.vram =~~= old(self)@.clear_screen().vram);
        self.pc + 2
    }

    /// `00EE`: returns from the subroutine in progress, to the address after
    /// its call. With no call in progress the machine halts where it is.
    pub fn op_00ee(&mut self) -> (next: u16)
        requires
            old(self).wf(),
        ensures
            final(self).wf(),
            final(self)@ == old(self)@.ret(),
            old(self)@.stack.len() > 0 ==> next == old(self)@.stack.last(),
            old(self)@.stack.len() == 0 ==> next == old(self)@.pc && !final(self)@.ready,
    {
        if self.sp == 0 {
            self.ready = false;
            return self.pc;
        }
        self.sp -= 1;
        assert(self@.stack =~= old(self)@.stack.drop_last());
        self.stack[self.sp]
    }

    /// `1NNN`: jumps to `nnn`. A jump to its own address would spin forever:
    /// it halts the machine instead.
    pub fn op_1nnn(&mut self, nnn: u16) -> (next: u16)
        requires
            old(self).wf(),
        ensures
            final(self).wf(),
            final(self)@ == old(self)@.jump(nnn),
            nnn == old(self)@.pc ==> !final(self)@.ready,
            next == nnn,
    {
        if nnn == self.pc {
            self.ready = false;
        }
        nnn
    }

    /// `2NNN`: calls the subroutine at `nnn`, leaving the address of the next
    /// instruction on the stack. On a full stack the machine halts where it is.
    pub fn op_2nnn(&mut self, nnn: u16) -> (next: u16)
        requires
            old(self).wf(),
            old(self)@.fetchable(),
        ensures
            final(self).wf(),
            final(self)@ == old(self)@.call(),
            old(self)@.stack.len() < STACK_SIZE ==> next == nnn && final(self)@.stack
                == old(self)@.stack.push((old(self)@.pc + 2) as u16),
            old(self)@.stack.len() >= STACK_SIZE ==> next == old(self)@.pc && !final(self)@.ready,
    {
        if self.sp >= STACK_SIZE {
            self.ready = false;
            return self.pc;
        }
        self.stack[self.sp] = self.pc + 2;
        self.sp += 1;
        assert(self@.stack =~= old(self)@.stack.push((old(self)@.pc + 2) as u16));
        nnn
    }

    /// `3XNN`: skips the next instruction if `Vx == nn`.
    pub fn op_3xnn(&self, vx: u8, nn: u8) -> (next: u16)
        requires
            vx < 16,
            self@.fetchable(),
        ensures
            next == if self@.v[vx as int] == nn {
                self@.pc + 4
            } else {
                self@.pc + 2
            },
    {
        if self.v[vx as usize] == nn {
            self.pc + 4
        } else {
            self.pc + 2
        }
    }

    /// `4XNN`: skips the next instruction if `Vx != nn`.
    pub fn op_4xnn(&self, vx: u8, nn: u8) -> (next: u16)
        requires
            vx < 16,
            self@.fetchable(),
        ensures
            next == if self@.v[vx as int] != nn {
                self@.pc + 4
            } else {
                self@.pc + 2
            },
    {
        if self.v[vx as usize] != nn {
            self.pc + 4
        } else {
            self.pc + 2
        }
    }

    /// `5XY0`: skips the next instruction if `Vx == Vy`.
    pub fn op_5xy0(&self, vx: u8, vy: u8) -> (next: u16)
        requires
            vx < 16,
            vy < 16,
            self@.fetchable(),
        ensures
            next == if self@.v[vx as int] == self@.v[vy as int] {
                self@.pc + 4
            } else {
                self@.pc + 2
            },
    {
        if self.v[vx as usize] == self.v[vy as usize] {
            self.pc + 4
        } else {
            self.pc + 2
        }
    }

    /// `6XNN`: `Vx = nn`.
    pub fn op_6xnn(&mut self, vx: u8, nn: u8) -> (next: u16)
        requires
            old(self).wf(),
            vx < 16,
            old(self)@.fetchable(),
        ensures
            final(self).wf(),
            final(self)@ == old(self)@.with_reg(vx, nn),
            next == old(self)@.pc + 2,
    {
        self.v[vx as usize] = nn;
        self.pc + 2
    }

    /// `7XNN`: `Vx = Vx + nn`, modulo 256. No flag is written.
    pub fn op_7xnn(&mut self, vx: u8, nn: u8) -> (next: u16)
        requires
            old(self).wf(),
            vx < 16,
            old(self)@.fetchable(),
        ensures
            final(self).wf(),
            final(self)@ == old(self)@.add_imm(vx, nn),
            next == old(self)@.pc + 2,
    {
        self.v[vx as usize] = self.v[vx as usize].wrapping_add(nn);
        self.pc + 2
    }

    /// `8XY0`: `Vx = Vy`.
    pub fn op_8xy0(&mut self, vx: u8, vy: u8) -> (next: u16)
        requires
            old(self).wf(),
            vx < 16,
            vy < 16,
            old(self)@.fetchable(),
        ensures
            final(self).wf(),
            final(self)@ == old(self)@.with_reg(vx, old(self)@.v[vy as int]),
            next == old(self)@.pc + 2,
    {
        self.v[vx as usize] = self.v[vy as usize];
        self.pc + 2
    }

    /// `8XY1`: `Vx = Vx | Vy`.
    pub fn op_8xy1(&mut self, vx: u8, vy: u8) -> (next: u16)
        requires
            old(self).wf(),
            vx < 16,
            vy < 16,
            old(self)@.fetchable(),
        ensures
            final(self).wf(),
            final(self)@ == old(self)@.with_reg(
                vx,
                old(self)@.v[vx as int] | old(self)@.v[vy as int],
            ),
            next == old(self)@.pc + 2,
    {
        self.v[vx as usize] = self.v[vx as usize] | self.v[vy as usize];
        self.pc + 2
    }

    /// `8XY2`: `Vx = Vx & Vy`.
    pub fn op_8xy2(&mut self, vx: u8, vy: u8) -> (next: u16)
        requires
            old(self).wf(),
            vx < 16,
            vy < 16,
            old(self)@.fetchable(),
        ensures
            final(self).wf(),
            final(self)@ == old(self)@.with_reg(
                vx,
                old(self)@.v[vx as int] & old(self)@.v[vy as int],
            ),
            next == old(self)@.pc + 2,
    {
        self.v[vx as usize] = self.v[vx as usize] & self.v[vy as usize];
        self.pc + 2
    }

    /// `8XY3`: `Vx = Vx ^ Vy`.
    pub fn op_8xy3(&mut self, vx: u8, vy: u8) -> (next: u16)
        requires
            old(self).wf(),
            vx < 16,
            vy < 16,
            old(self)@.fetchable(),
        ensures
            final(self).wf(),
            final(self)@ == old(self)@.with_reg(
                vx,
                old(self)@.v[vx as int] ^ old(self)@.v[vy as int],
            ),
            next == old(self)@.pc + 2,
    {
        self.v[vx as usize] = self.v[vx as usize] ^ self.v[vy as usize];
        self.pc + 2
    }

    /// `8XY4`: `Vx = Vx + Vy`, modulo 256; then `VF = 1` if the sum fitted in
    /// a byte, `VF = 0` if it did not.
    pub fn op_8xy4(&mut self, vx: u8, vy: u8) -> (next: u16)
        requires
            old(self).wf(),
            vx < 16,
            vy < 16,
            old(self)@.fetchable(),
        ensures
            final(self).wf(),
            final(self)@ == old(self)@.add_carry(vx, vy),
            vx != 0xF ==> final(self)@.v[vx as int] == (old(self)@.v[vx as int] + old(
                self,
            )@.v[vy as int]) % 256,
            final(self)@.v[0xF] == 1 <==> old(self)@.v[vx as int] + old(self)@.v[vy as int] <= 255,
            final(self)@.v[0xF] == 0 || final(self)@.v[0xF] == 1,
            next == old(self)@.pc + 2,
    {
        let a = self.v[vx as usize];
        let b = self.v[vy as usize];
        let carry = b > 255 - a;
        self.v[vx as usize] = a.wrapping_add(b);
        self.v[0xF] = if carry {
            0
        } else {
            1
        };
        self.pc + 2
    }

    /// `8XY5`: `Vx = Vx - Vy`, modulo 256; then `VF = 0` if the subtraction
    /// borrowed, `VF = 1` if it did not.
    pub fn op_8xy5(&mut self, vx: u8, vy: u8) -> (next: u16)
        requires
            old(self).wf(),
            vx < 16,
            vy < 16,
            old(self)@.fetchable(),
        ensures
            final(self).wf(),
            final(self)@ == old(self)@.sub_borrow(vx, vy),
            vx != 0xF ==> final(self)@.v[vx as int] == (old(self)@.v[vx as int] - old(
                self,
            )@.v[vy as int]) % 256,
            final(self)@.v[0xF] == 0 <==> old(self)@.v[vx as int] < old(self)@.v[vy as int],
            final(self)@.v[0xF] == 0 || final(self)@.v[0xF] == 1,
            next == old(self)@.pc + 2,
    {
        let a = self.v[vx as usize];
        let b = self.v[vy as usize];
        let borrow = a < b;
        self.v[vx as usize] = a.wrapping_sub(b);
        if borrow {
            self.v[0xF] = 0;
        } else {
            self.v[0xF] = 1;
        }
        self.pc + 2
    }

    /// `8XY6`: `Vx = Vy >> 1`; then `VF` = the bit shifted out, the low bit
    /// of `Vy`.
    pub fn op_8xy6(&mut self, vx: u8, vy: u8) -> (next: u16)
        requires
            old(self).wf(),
            vx < 16,
            vy < 16,
            old(self)@.fetchable(),
        ensures
            final(self).wf(),
            final(self)@ == old(self)@.shift_right(vx, vy),
            vx != 0xF ==> final(self)@.v[vx as int] == old(self)@.v[vy as int] >> 1,
            final(self)@.v[0xF] == old(self)@.v[vy as int] & 1,
            next == old(self)@.pc + 2,
    {
        let tmp = self.v[vy as usize];
        assert(tmp >> 1 == tmp / 2 && tmp & 1 == tmp % 2) by (bit_vector);
        self.v[vx as usize] = tmp >> 1;
        self.v[0xF] = tmp & 1;
        self.pc + 2
    }

    /// `8XY7`: `Vx = Vy - Vx`, modulo 256; then `VF = 1` if the subtraction
    /// borrowed, `VF = 0` if it did not.
    pub fn op_8xy7(&mut self, vx: u8, vy: u8) -> (next: u16)
        requires
            old(self).wf(),
            vx < 16,
            vy < 16,
            old(self)@.fetchable(),
        ensures
            final(self).wf(),
            final(self)@ == old(self)@.sub_reverse(vx, vy),
            vx != 0xF ==> final(self)@.v[vx as int] == (old(self)@.v[vy as int] - old(
                self,
            )@.v[vx as int]) % 256,
            final(self)@.v[0xF] == 1 <==> old(self)@.v[vy as int] < old(self)@.v[vx as int],
            final(self)@.v[0xF] == 0 || final(self)@.v[0xF] == 1,
            next == old(self)@.pc + 2,
    {
        let a = self.v[vy as usize];
        let b = self.v[vx as usize];
        let borrow = a < b;
        self.v[vx as usize] = a.wrapping_sub(b);
        self.v[0xF] = if borrow {
            1
        } else {
            0
        };
        self.pc + 2
    }

    /// `8XYE`: `Vx = Vy << 1`, modulo 256; then `VF` = the bit shifted out,
    /// the high bit of `Vy`.
    pub fn op_8xye(&mut self, vx: u8, vy: u8) -> (next: u16)
        requires
            old(self).wf(),
            vx < 16,
            vy < 16,
            old(self)@.fetchable(),
        ensures
            final(self).wf(),
            final(self)@ == old(self)@.shift_left(vx, vy),
            next == old(self)@.pc + 2,
    {
        let tmp = self.v[vy as usize];
        assert(tmp << 1 == (tmp * 2) % 256 && tmp >> 7 == tmp / 128) by (bit_vector);
        self.v[vx as usize] = tmp << 1;
        self.v[0xF] = tmp >> 7;
        self.pc + 2
    }

    /// `9XY0`: skips the next instruction if `Vx != Vy`.
    pub fn op_9xy0(&self, vx: u8, vy: u8) -> (next: u16)
        requires
            vx < 16,
            vy < 16,
            self@.fetchable(),
        ensures
            next == if self@.v[vx as int] != self@.v[vy as int] {
                self@.pc + 4
            } else {
                self@.pc + 2
            },
    {
        if self.v[vx as usize] != self.v[vy as usize] {
            self.pc + 4
        } else {
            self.pc + 2
        }
    }

    /// `ANNN`: `I = nnn`.
    pub fn op_annn(&mut self, nnn: u16) -> (next: u16)
        requires
            old(self).wf(),
            old(self)@.fetchable(),
        ensures
            final(self).wf(),
            final(self)@ == (State { i: nnn, ..old(self)@ }),
            next == old(self)@.pc + 2,
    {
        self.i = nnn;
        self.pc + 2
    }

    /// `BNNN`: jumps to `nnn + V0`.
    pub fn op_bnnn(&self, nnn: u16) -> (next: u16)
        requires
            nnn < 0x1000,
        ensures
            next == nnn + self@.v[0],
    {
        nnn + (self.v[0] as u16)
    }

    /// `CXNN` with the random byte given: `Vx = byte & nn`.
    pub fn op_cxnn_with(&mut self, vx: u8, nn: u8, byte: u8) -> (next: u16)
        requires
            old(self).wf(),
            vx < 16,
            old(self)@.fetchable(),
        ensures
            final(self).wf(),
            final(self)@ == old(self)@.with_reg(vx, byte & nn),
            next == old(self)@.pc + 2,
    {
        self.v[vx as usize] = byte & nn;
        self.pc + 2
    }

    /// `CXNN`: `Vx = byte & nn`, for a byte drawn from the random source.
    pub fn op_cxnn(&mut self, vx: u8, nn: u8) -> (next: u16)
        requires
            old(self).wf(),
            vx < 16,
            old(self)@.fetchable(),
        ensures
            final(self).wf(),
            exists|byte: u8| final(self)@ == #[trigger] old(self)@.with_reg(vx, byte & nn),
            next == old(self)@.pc + 2,
    {
        let byte = random_byte();
        self.op_cxnn_with(vx, nn, byte)
    }

    /// `DXYN`: draws the `n`-row sprite that `I` points at, with its origin at
    /// `(Vx, Vy)`. The pixel under each set bit is toggled; a pixel beyond an
    /// edge of the display wraps to the opposite edge. Then `VF = 1` if a
    /// pixel that was on went off. Without such a collision VF is not written.
    pub fn op_dxyn(&mut self, vx: u8, vy: u8, n: u8) -> (next: u16)
        requires
            old(self).wf(),
            vx < 16,
            vy < 16,
            n < 16,
            old(self)@.i + n <= RAM_SIZE,
            old(self)@.fetchable(),
        ensures
            final(self).wf(),
            final(self)@ == old(self)@.draw(vx, vy, n),
            next == old(self)@.pc + 2,
    {
        let ox = self.v[vx as usize] as usize;
        let oy = self.v[vy as usize] as usize;
        let base = self.i as usize;
        let ghost sprite = self@.sprite(n);
        let ghost before = self@.vram;
        let mut hit = false;
        let mut row: usize = 0;
        while row < n as usize
            invariant
                row <= n < 16,
                vx < 16,
                vy < 16,
                ox == old(self)@.v[vx as int],
                oy == old(self)@.v[vy as int],
                base + n <= RAM_SIZE,
                self.wf(),
                self@ == (State { vram: self@.vram, ..old(self)@ }),
                sprite == old(self)@.sprite(n),
                base == old(self)@.i,
                before == old(self)@.vram,
                forall|px: int, py: int|
                    on_screen(px, py) ==> self@.vram[py][px] == (before[py][px] != #[trigger] lit_before(
                        sprite,
                        ox as int,
                        oy as int,
                        px,
                        py,
                        row as int,
                        0,
                    )),
                hit == collides_before(before, sprite, ox as int, oy as int, row as int, 0),
            decreases n - row,
        {
            let line = self.ram[base + row];
            let y = (oy + row) % SCREEN_Y_SIZE;
            let mut col: u8 = 0;
            while col < 8
                invariant
                    row < n < 16,
                    col <= 8,
                    vx < 16,
                    vy < 16,
                    ox == old(self)@.v[vx as int],
                    oy == old(self)@.v[vy as int],
                    y == (oy + row) % (SCREEN_Y_SIZE as int),
                    self.wf(),
                    self@ == (State { vram: self@.vram, ..old(self)@ }),
                    sprite == old(self)@.sprite(n),
                    base + n <= RAM_SIZE,
                    base == old(self)@.i,
                    line == sprite[row as int],
                    before == old(self)@.vram,
                    forall|px: int, py: int|
                        on_screen(px, py) ==> self@.vram[py][px] == (before[py][px] != #[trigger] lit_before(
                            sprite,
                            ox as int,
                            oy as int,
                            px,
                            py,
                            row as int,
                            col as int,
                        )),
                    hit == collides_before(
                        before,
                        sprite,
                        ox as int,
                        oy as int,
                        row as int,
                        col as int,
                    ),
                decreases 8 - col,
            {
                let x = (ox + col as usize) % SCREEN_X_SIZE;
                proof {
                    lemma_draw_step(before, sprite, ox as int, oy as int, row as int, col as int);
                }
                if line & (0x80u8 >> col) != 0 {
                    if self.vram[y][x] {
                        hit = true;
                    }
                    self.vram[y][x] = !self.vram[y][x];
                }
                col += 1;
            }
            proof {
                lemma_draw_row_done(before, sprite, ox as int, oy as int, row as int);
            }
            row += 1;
        }
        if hit {
            self.v[0xF] = 1;
        }
        proof {
            lemma_before_all(before, sprite, ox as int, oy as int);
            let drawn = old(self)@.draw(vx, vy, n).vram;
            assert forall|px: int, py: int| on_screen(px, py) implies self@.vram[py][px]
                == drawn[py][px] by {
                assert(lit_before(sprite, ox as int, oy as int, px, py, n as int, 0) == lit(
                    sprite,
                    ox as int,
                    oy as int,
                    px,
                    py,
                ));
            }
            assert(self@.vram =~~= drawn);
        }
        self.pc + 2
    }

    /// `EX9E`: skip on key press. It has no semantics here, and meeting it
    /// stops the machine where it is.
    pub fn op_ex9e(&mut self, vx: u8) -> (next: u16)
        requires
            old(self).wf(),
        ensures
            final(self).wf(),
            final(self)@ == old(self)@.stopped(),
            !final(self)@.running,
            next == old(self)@.pc,
    {
        self.running = false;
        self.pc
    }
}

} // verus!
