//! The machine: the storage behind the architectural state, how it is made,
//! how a program gets into it and how its state is read from outside.

use vstd::prelude::*;
use crate::display::{on_screen, SCREEN_X_SIZE, SCREEN_Y_SIZE};
use crate::state::{
    State, FONTSET, MAX_ROM_SIZE, RAM_SIZE, REGISTER_COUNT, RESERVED_SPACE, STACK_SIZE,
};

verus! {

/// The virtual machine. Its state is read through the accessors and changes
/// only through [`Chip8::load_rom`] and the instructions.
pub struct Chip8 {
    pub(crate) ready: bool,
    pub(crate) running: bool,
    pub(crate) pc: u16,
    pub(crate) stack: [u16; STACK_SIZE],
    pub(crate) sp: usize,
    pub(crate) vram: [[bool; SCREEN_X_SIZE]; SCREEN_Y_SIZE],
    pub(crate) ram: [u8; RAM_SIZE],
    pub(crate) v: [u8; REGISTER_COUNT],
    pub(crate) i: u16,
}

/// Why a program image was not loaded.
#[derive(Clone, Copy, Debug, PartialEq, Eq)]
pub enum LoadError {
    /// The image has `size` bytes, more than [`MAX_ROM_SIZE`].
    TooLarge { size: usize },
}

impl Chip8 {
    /// The state that the machine holds. Of the stack only the entries below
    /// the stack pointer count.
    pub open(crate) spec fn view(&self) -> State {
        State {
            ready: self.ready,
            running: self.running,
            pc: self.pc,
            stack: self.stack@.subrange(0, self.sp as int),
            vram: Seq::new(SCREEN_Y_SIZE as nat, |y: int| self.vram@[y]@),
            ram: self.ram@,
            v: self.v@,
            i: self.i,
        }
    }

    /// The stack pointer is within the stack. Every function here keeps it so.
    pub open(crate) spec fn wf(&self) -> bool {
        self.sp <= STACK_SIZE
    }

    /// The state of a well-formed machine is well-formed.
    pub proof fn lemma_view_wf(&self)
        requires
            self.wf(),
        ensures
            self@.wf(),
    {
    }

    /// A new machine: the font in low memory, everything else zero, the
    /// program counter at the start of program space. It waits for a program.
    pub fn new() -> (ch: Chip8)
        ensures
            ch.wf(),
            ch@ == State::initial(),
    {
        let mut ram = [0u8; RAM_SIZE];
        let mut k: usize = 0;
        while k < 80
            invariant
                k <= 80,
                forall|a: int| 0 <= a < k ==> ram@[a] == FONTSET@[a],
                forall|a: int| k <= a < RAM_SIZE ==> ram@[a] == 0,
            decreases 80 - k,
        {
            ram[k] = FONTSET[k];
            k += 1;
        }
        let ch = Chip8 {
            ready: false,
            running: true,
            pc: RESERVED_SPACE as u16,
            stack: [0; STACK_SIZE],
            sp: 0,
            vram: [[false; SCREEN_X_SIZE]; SCREEN_Y_SIZE],
            ram,
            v: [0; REGISTER_COUNT],
            i: 0,
        };
        proof {
            let init = State::initial();
            assert(ch@.stack =~= init.stack);
            assert(ch@.vram =~~= init.vram);
            assert(ch@.ram =~= init.ram);
            assert(ch@.v =~= init.v);
        }
        ch
    }

    /// Loads the program image `rom` at the start of program space and marks
    /// the machine ready. An image of more than [`MAX_ROM_SIZE`] bytes is
    /// refused, and the machine is then left as it was.
    pub fn load_rom(&mut self, rom: &[u8]) -> (res: Result<(), LoadError>)
        requires
            old(self).wf(),
        ensures
            final(self).wf(),
            rom@.len() <= MAX_ROM_SIZE ==> res is Ok && final(self)@ == old(self)@.loaded(rom@),
            rom@.len() <= MAX_ROM_SIZE ==> final(self)@.ready && final(self)@.ram.subrange(
                RESERVED_SPACE as int,
                RESERVED_SPACE + rom@.len(),
            ) == rom@,
            forall|a: int| 0 <= a < RESERVED_SPACE ==> final(self)@.ram[a] == old(self)@.ram[a],
            rom@.len() > MAX_ROM_SIZE ==> res == Err::<(), LoadError>(
                LoadError::TooLarge { size: rom.len() },
            ) && final(self)@ == old(self)@,
    {
        let size = rom.len();
        if size > MAX_ROM_SIZE {
            return Err(LoadError::TooLarge { size });
        }
        let mut k: usize = 0;
        while k < size
            invariant
                k <= size == rom@.len() <= MAX_ROM_SIZE,
                self.wf(),
                self@ == (State { ram: self.ram@, ..old(self)@ }),
                forall|a: int|
                    RESERVED_SPACE <= a < RESERVED_SPACE + k ==> self.ram@[a] == rom@[a
                        - RESERVED_SPACE],
                forall|a: int|
                    0 <= a < RAM_SIZE && !(RESERVED_SPACE <= a < RESERVED_SPACE + k)
                        ==> self.ram@[a] == old(self).ram@[a],
            decreases size - k,
        {
            self.ram[RESERVED_SPACE + k] = rom[k];
            k += 1;
        }
        self.ready = true;
        assert(self@.ram =~= old(self)@.loaded(rom@).ram);
        Ok(())
    }

    /// Whether a program is loaded and no fault of the program has halted it.
    pub fn ready(&self) -> (b: bool)
        ensures
            b == self@.ready,
    {
        self.ready
    }

    /// Whether no unimplemented instruction has been met.
    pub fn running(&self) -> (b: bool)
        ensures
            b == self@.running,
    {
        self.running
    }

    /// The program counter.
    pub fn pc(&self) -> (pc: u16)
        ensures
            pc == self@.pc,
    {
        self.pc
    }

    /// The index register.
    pub fn i(&self) -> (i: u16)
        ensures
            i == self@.i,
    {
        self.i
    }

    /// The number of calls in progress.
    pub fn sp(&self) -> (depth: usize)
        ensures
            self.wf() ==> depth == self@.stack.len(),
    {
        self.sp
    }

    /// The registers V0 to VF.
    pub fn v(&self) -> (regs: &[u8; REGISTER_COUNT])
        ensures
            regs@ == self@.v,
    {
        &self.v
    }

    /// Memory.
    pub fn ram(&self) -> (cells: &[u8; RAM_SIZE])
        ensures
            cells@ == self@.ram,
    {
        &self.ram
    }

    /// The frame buffer, `grid[y][x]`, for a renderer to read.
    pub fn vram(&self) -> (grid: &[[bool; SCREEN_X_SIZE]; SCREEN_Y_SIZE])
        ensures
            forall|px: int, py: int| on_screen(px, py) ==> grid@[py]@[px] == self@.vram[py][px],
    {
        &self.vram
    }
}

} // verus!
