use vstd::prelude::*;

use rand_chacha::ChaCha8Rng;

use crate::chip8_state::{copy_into, Chip8State};
use crate::instruction::{decode_instruction, operands_in_range, Instruction};
use crate::machine_spec::{
    any_key_down, apply_spec, blank_display, cycle_spec, draw_collides, drawn_display, fetch_spec,
    instruction_fault, is_first_key_down, next_instruction, sprite_col, sprite_covers, sprite_row,
    Chip8Error, MachineView,
};
use vstd::arithmetic::div_mod::{
    lemma_fundamental_div_mod, lemma_mod_multiples_vanish, lemma_small_mod,
};

use crate::random::{os_seeded_rng, random_byte, seeded_rng};

verus! {

/// Width of the framebuffer in cells.
pub const SCREEN_WIDTH: usize = 64;

/// Height of the framebuffer in cells.
pub const SCREEN_HEIGHT: usize = 32;

/// Number of keys in the input latch.
pub const KEYBOARD_SIZE: usize = 16;

/// A complete machine: state, framebuffer, input latch and the generator
/// that `RND` draws from.
pub struct Chip8MachineState {
    pub cycles: u64,
    pub display: [[bool; SCREEN_WIDTH]; SCREEN_HEIGHT],
    pub keyboard: [bool; KEYBOARD_SIZE],
    pub state: Chip8State,
    pub random: ChaCha8Rng,
}

impl View for Chip8MachineState {
    type V = MachineView;

    open spec fn view(&self) -> MachineView {
        MachineView {
            v: self.state.v@,
            i: self.state.i,
            delay_timer: self.state.delay_timer,
            sound_timer: self.state.sound_timer,
            pc: self.state.pc,
            sp: self.state.sp,
            stack: self.state.stack@,
            memory: self.state.memory@,
            display: Seq::new(32, |y: int| self.display@[y]@),
            keyboard: self.keyboard@,
            cycles: self.cycles,
        }
    }
}

/// Whether `op` can run on `m`, whose program counter has been advanced past it.
pub open spec fn ready(m: MachineView, op: Instruction) -> bool {
    &&& operands_in_range(op)
    &&& instruction_fault(m, op, 0) is None
    &&& 2 <= m.pc <= 4097
}

/// Whether `r` and `new` are what one cycle on `old` yields with `random`
/// as the byte for `RND`: the next state on success, an unchanged state with
/// the error otherwise.
pub open spec fn cycle_outcome(
    old: MachineView,
    random: u8,
    r: Result<(), Chip8Error>,
    new: MachineView,
) -> bool {
    match cycle_spec(old, random) {
        Ok(m) => r is Ok && new == m,
        Err(e) => r == Err::<(), Chip8Error>(e) && new == old,
    }
}

/// Cells drawn so far when the blit has reached sprite row `j`, bit `i`.
spec fn drawn_before(r: int, c: int, j: int, i: int) -> bool {
    r < j || (r == j && c < i)
}

/// The framebuffer part way through the blit.
spec fn partially_drawn(m: MachineView, n: u8, vx: u8, vy: u8, j: int, i: int) -> Seq<Seq<bool>> {
    Seq::new(
        32,
        |cy: int|
            Seq::new(
                64,
                |cx: int|
                    m.display[cy][cx] != (sprite_covers(m, n, vx, vy, cx, cy) && drawn_before(
                        sprite_row(cy, vy),
                        sprite_col(cx, vx),
                        j,
                        i,
                    )),
            ),
    )
}

/// Whether the blit has met a lit cell by the time it reaches row `j`, bit `i`.
spec fn collides_before(m: MachineView, n: u8, vx: u8, vy: u8, j: int, i: int) -> bool {
    exists|cx: int, cy: int|
        0 <= cx < 64 && 0 <= cy < 32 && #[trigger] sprite_covers(m, n, vx, vy, cx, cy)
            && drawn_before(sprite_row(cy, vy), sprite_col(cx, vx), j, i) && m.display[cy][cx]
}

/// Coordinates wrap: offset `k` from `base` lands on one cell, and that
/// cell alone maps back to `k`.
proof fn lemma_wrap(base: int, k: int, size: int, c: int)
    requires
        0 <= base,
        0 <= k < size,
        0 <= c < size,
        size == 32 || size == 64,
    ensures
        ((base + k) % size - base) % size == k,
        (c - base) % size == k ==> c == (base + k) % size,
{
    let s = base + k;
    lemma_fundamental_div_mod(s, size);
    lemma_mod_multiples_vanish(-(s / size), k, size);
    lemma_small_mod(k as nat, size as nat);
    assert(s % size - base == size * (-(s / size)) + k) by (nonlinear_arith)
        requires
            s == size * (s / size) + s % size,
            s == base + k,
    ;
    if (c - base) % size == k {
        let d = c - base;
        lemma_fundamental_div_mod(d, size);
        lemma_mod_multiples_vanish(d / size, s, size);
        lemma_small_mod(c as nat, size as nat);
        assert(c == size * (d / size) + s) by (nonlinear_arith)
            requires
                d == size * (d / size) + d % size,
                d % size == k,
                d == c - base,
                s == base + k,
        ;
    }
}

/// Only `RND` depends on the random byte.
proof fn lemma_apply_ignores_random(m: MachineView, op: Instruction, random: u8)
    requires
        !(op is Rnd),
    ensures
        apply_spec(m, op, random) == apply_spec(m, op, 0),
{
}

impl Chip8MachineState {
    /// A fresh machine with a blank framebuffer, no key down, and a generator
    /// seeded from the operating system.
    pub fn new() -> (r: Self)
        ensures
            r.state.is_initial(),
            r@.display == blank_display(),
            r@.keyboard == Seq::new(16, |k: int| false),
            r.cycles == 0,
    {
        Self::with_rng(os_seeded_rng())
    }

    /// A fresh machine whose generator is seeded with `seed`, so that `RND`
    /// draws the same bytes on every run.
    pub fn with_seed(seed: u64) -> (r: Self)
        ensures
            r.state.is_initial(),
            r@.display == blank_display(),
            r@.keyboard == Seq::new(16, |k: int| false),
            r.cycles == 0,
    {
        Self::with_rng(seeded_rng(seed))
    }

    fn with_rng(random: ChaCha8Rng) -> (r: Self)
        ensures
            r.state.is_initial(),
            r@.display == blank_display(),
            r@.keyboard == Seq::new(16, |k: int| false),
            r.cycles == 0,
    {
        let r = Self {
            cycles: 0,
            display: [[false; SCREEN_WIDTH]; SCREEN_HEIGHT],
            keyboard: [false; KEYBOARD_SIZE],
            state: Chip8State::new(),
            random,
        };
        assert(r@.display =~~= blank_display());
        assert(r@.keyboard =~= Seq::new(16, |k: int| false));
        r
    }

    /// Runs one fetch-decode-execute cycle, drawing a byte from the generator
    /// only when the instruction is `RND`.
    pub fn execute_cycle(&mut self) -> (r: Result<(), Chip8Error>)
        ensures
            exists|random: u8| cycle_outcome(old(self)@, random, r, final(self)@),
            !(next_instruction(old(self)@) matches Some(Instruction::Rnd(_, _))) ==> cycle_outcome(
                old(self)@,
                0,
                r,
                final(self)@,
            ),
    {
        let needs_random = match self.fetch_instruction() {
            Ok((hi, lo)) => matches!(decode_instruction(hi, lo), Some(Instruction::Rnd(_, _))),
            Err(_) => false,
        };
        let random = if needs_random {
            random_byte(&mut self.random)
        } else {
            0
        };
        self.execute_cycle_with_random(random)
    }

    /// Runs one fetch-decode-execute cycle in which `RND` uses `random`.
    pub fn execute_cycle_with_random(&mut self, random: u8) -> (r: Result<(), Chip8Error>)
        ensures
            cycle_outcome(old(self)@, random, r, final(self)@),
    {
        let address = self.state.pc;
        let (hi, lo) = match self.fetch_instruction() {
            Ok(bytes) => bytes,
            Err(e) => return Err(e),
        };
        let op = match decode_instruction(hi, lo) {
            Some(op) => op,
            None => {
                return Err(Chip8Error::UnknownInstruction { address, opcode: (hi as u16) * 256 + lo as u16 });
            },
        };
        if let Some(e) = self.check_instruction(op, address) {
            return Err(e);
        }
        let ghost before = self@;
        self.state.pc = self.state.pc + 2;
        assert(self@ == MachineView { pc: (address + 2) as u16, ..before });
        self.execute_instruction(op, random);
        self.cycles = self.cycles.wrapping_add(1);
        Ok(())
    }

    /// The two bytes at the program counter.
    fn fetch_instruction(&self) -> (r: Result<(u8, u8), Chip8Error>)
        ensures
            self.state.pc < 4096 ==> r == Ok::<(u8, u8), Chip8Error>(fetch_spec(self@)),
            self.state.pc >= 4096 ==> r == Err::<(u8, u8), Chip8Error>(
                Chip8Error::ProgramCounterOutOfBounds { address: self.state.pc },
            ),
    {
        let address = self.state.pc as usize;
        if address >= self.state.memory.len() {
            return Err(Chip8Error::ProgramCounterOutOfBounds { address: self.state.pc });
        }
        if address + 1 < self.state.memory.len() {
            Ok((self.state.memory[address], self.state.memory[address + 1]))
        } else {
            Ok((self.state.memory[address], self.state.memory[0]))
        }
    }

    /// The error, if any, that stops `op` fetched at `address` from running.
    fn check_instruction(&self, op: Instruction, address: u16) -> (r: Option<Chip8Error>)
        requires
            operands_in_range(op),
        ensures
            r == instruction_fault(self@, op, address),
    {
        match op {
            Instruction::Ret => if self.state.sp == 0 {
                Some(Chip8Error::StackUnderflow { address })
            } else if self.state.sp as usize > self.state.stack.len() {
                Some(Chip8Error::StackOverflow { address })
            } else {
                None
            },
            Instruction::Sys(_) | Instruction::Call(_) => if self.state.sp as usize >= self.state.stack.len() {
                Some(Chip8Error::StackOverflow { address })
            } else {
                None
            },
            Instruction::Drw(_, _, n) => if self.state.i as usize + n as usize > self.state.memory.len() {
                Some(Chip8Error::MemoryOutOfBounds { address })
            } else {
                None
            },
            Instruction::LdBVx(_) => if self.state.i as usize + 3 > self.state.memory.len() {
                Some(Chip8Error::MemoryOutOfBounds { address })
            } else {
                None
            },
            Instruction::StoreRegs(_) | Instruction::LoadRegs(_) => if self.state.i as usize
                + self.state.v.len() > self.state.memory.len() {
                Some(Chip8Error::MemoryOutOfBounds { address })
            } else {
                None
            },
            Instruction::Skp(x) | Instruction::Sknp(x) => if self.state.v[x as usize] as usize
                >= self.keyboard.len() {
                Some(Chip8Error::InvalidKey { address })
            } else {
                None
            },
            _ => None,
        }
    }

    /// Carries out `op`; `random` is the byte that `RND` masks.
    fn execute_instruction(&mut self, op: Instruction, random: u8)
        requires
            ready(old(self)@, op),
        ensures
            final(self)@ == apply_spec(old(self)@, op, random),
            final(self).cycles == old(self).cycles,
    {
        proof {
            if !(op is Rnd) {
                lemma_apply_ignores_random(old(self)@, op, random);
            }
        }
        match op {
            Instruction::Cls => self.execute_cls(),
            Instruction::Ret => self.execute_ret(),
            Instruction::Sys(a) => self.execute_sys_addr(a),
            Instruction::Jp(a) => self.execute_jp_addr(a),
            Instruction::Call(a) => self.execute_call_addr(a),
            Instruction::SeByte(x, kk) => self.execute_se_vx_byte(x, kk),
            Instruction::SneByte(x, kk) => self.execute_sne_vx_byte(x, kk),
            Instruction::SeReg(x, y) => self.execute_se_vx_vy(x, y),
            Instruction::LdByte(x, kk) => self.execute_ld_vx_byte(x, kk),
            Instruction::AddByte(x, kk) => self.execute_add_vx_byte(x, kk),
            Instruction::LdReg(x, y) => self.execute_ld_vx_vy(x, y),
            Instruction::Or(x, y) => self.execute_or_vx_vy(x, y),
            Instruction::And(x, y) => self.execute_and_vx_vy(x, y),
            Instruction::Xor(x, y) => self.execute_xor_vx_vy(x, y),
            Instruction::AddReg(x, y) => self.execute_add_vx_vy(x, y),
            Instruction::Sub(x, y) => self.execute_sub_vx_vy(x, y),
            Instruction::Shr(x) => self.execute_shr_vx(x),
            Instruction::Subn(x, y) => self.execute_subn_vx_vy(x, y),
            Instruction::Shl(x) => self.execute_shl_vx(x),
            Instruction::SneReg(x, y) => self.execute_sne_vx_vy(x, y),
            Instruction::LdI(a) => self.execute_ld_i_addr(a),
            Instruction::JpV0(a) => self.execute_jp_v0_addr(a),
            Instruction::Rnd(x, kk) => self.execute_rnd_vx_byte(x, kk, random),
            Instruction::Drw(x, y, n) => self.execute_draw_vx_vy_nibble(x, y, n),
            Instruction::Skp(x) => self.execute_skp_vx(x),
            Instruction::Sknp(x) => self.execute_sknp_vx(x),
            Instruction::LdVxDt(x) => self.execute_ld_vx_dt(x),
            Instruction::LdVxK(x) => self.execute_ld_vx_k(x),
            Instruction::LdDtVx(x) => self.execute_ld_dt_vx(x),
            Instruction::LdStVx(x) => self.execute_ld_st_vx(x),
            Instruction::AddIVx(x) => self.execute_add_i_vx(x),
            Instruction::LdFVx(x) => self.execute_ld_f_vx(x),
            Instruction::LdBVx(x) => self.execute_ld_b_vx(x),
            Instruction::StoreRegs(x) => {
                self.execute_ld_ref_i_vx();
                assert(self@ == apply_spec(old(self)@, Instruction::StoreRegs(x), 0));
            },
            Instruction::LoadRegs(x) => {
                self.execute_ld_vx_ref_i();
                assert(self@ == apply_spec(old(self)@, Instruction::LoadRegs(x), 0));
            },
        }
    }

    fn execute_cls(&mut self)
        ensures
            final(self)@ == apply_spec(old(self)@, Instruction::Cls, 0),
            final(self).cycles == old(self).cycles,
    {
        self.display = [[false; SCREEN_WIDTH]; SCREEN_HEIGHT];
        assert(self@ =~~= apply_spec(old(self)@, Instruction::Cls, 0));
    }

    fn execute_ret(&mut self)
        requires
            ready(old(self)@, Instruction::Ret),
        ensures
            final(self)@ == apply_spec(old(self)@, Instruction::Ret, 0),
            final(self).cycles == old(self).cycles,
    {
        self.state.sp = self.state.sp - 1;
        self.state.pc = self.state.stack[self.state.sp as usize];
        assert(self@ =~~= apply_spec(old(self)@, Instruction::Ret, 0));
    }

    /// `SYS` is carried out as `CALL`, as on the historical host interpreter.
    fn execute_sys_addr(&mut self, address: u16)
        requires
            ready(old(self)@, Instruction::Sys(address)),
        ensures
            final(self)@ == apply_spec(old(self)@, Instruction::Sys(address), 0),
            final(self).cycles == old(self).cycles,
    {
        self.execute_call_addr(address);
    }

    fn execute_jp_addr(&mut self, address: u16)
        ensures
            final(self)@ == apply_spec(old(self)@, Instruction::Jp(address), 0),
            final(self).cycles == old(self).cycles,
    {
        self.state.pc = address;
        assert(self@ =~~= apply_spec(old(self)@, Instruction::Jp(address), 0));
    }

    fn execute_call_addr(&mut self, address: u16)
        requires
            ready(old(self)@, Instruction::Call(address)),
        ensures
            final(self)@ == apply_spec(old(self)@, Instruction::Call(address), 0),
            final(self).cycles == old(self).cycles,
    {
        self.state.stack[self.state.sp as usize] = self.state.pc;
        self.state.sp = self.state.sp + 1;
        self.state.pc = address;
        assert(self@ =~~= apply_spec(old(self)@, Instruction::Call(address), 0));
    }

    fn execute_se_vx_byte(&mut self, x: u8, byte: u8)
        requires
            ready(old(self)@, Instruction::SeByte(x, byte)),
        ensures
            final(self)@ == apply_spec(old(self)@, Instruction::SeByte(x, byte), 0),
            final(self).cycles == old(self).cycles,
    {
        if self.state.v[x as usize] == byte {
            self.state.pc = self.state.pc + 2;
        }
        assert(self@ =~~= apply_spec(old(self)@, Instruction::SeByte(x, byte), 0));
    }

    fn execute_sne_vx_byte(&mut self, x: u8, byte: u8)
        requires
            ready(old(self)@, Instruction::SneByte(x, byte)),
        ensures
            final(self)@ == apply_spec(old(self)@, Instruction::SneByte(x, byte), 0),
            final(self).cycles == old(self).cycles,
    {
        if self.state.v[x as usize] != byte {
            self.state.pc = self.state.pc + 2;
        }
        assert(self@ =~~= apply_spec(old(self)@, Instruction::SneByte(x, byte), 0));
    }

    fn execute_se_vx_vy(&mut self, x: u8, y: u8)
        requires
            ready(old(self)@, Instruction::SeReg(x, y)),
        ensures
            final(self)@ == apply_spec(old(self)@, Instruction::SeReg(x, y), 0),
            final(self).cycles == old(self).cycles,
    {
        if self.state.v[x as usize] == self.state.v[y as usize] {
            self.state.pc = self.state.pc + 2;
        }
        assert(self@ =~~= apply_spec(old(self)@, Instruction::SeReg(x, y), 0));
    }

    fn execute_ld_vx_byte(&mut self, x: u8, byte: u8)
        requires
            ready(old(self)@, Instruction::LdByte(x, byte)),
        ensures
            final(self)@ == apply_spec(old(self)@, Instruction::LdByte(x, byte), 0),
            final(self).cycles == old(self).cycles,
    {
        self.state.v[x as usize] = byte;
        assert(self@ =~~= apply_spec(old(self)@, Instruction::LdByte(x, byte), 0));
    }

    fn execute_add_vx_byte(&mut self, x: u8, byte: u8)
        requires
            ready(old(self)@, Instruction::AddByte(x, byte)),
        ensures
            final(self)@ == apply_spec(old(self)@, Instruction::AddByte(x, byte), 0),
            final(self).cycles == old(self).cycles,
    {
        self.state.v[x as usize] = self.state.v[x as usize].wrapping_add(byte);
        assert(self@ =~~= apply_spec(old(self)@, Instruction::AddByte(x, byte), 0));
    }

    fn execute_ld_vx_vy(&mut self, x: u8, y: u8)
        requires
            ready(old(self)@, Instruction::LdReg(x, y)),
        ensures
            final(self)@ == apply_spec(old(self)@, Instruction::LdReg(x, y), 0),
            final(self).cycles == old(self).cycles,
    {
        self.state.v[x as usize] = self.state.v[y as usize];
        assert(self@ =~~= apply_spec(old(self)@, Instruction::LdReg(x, y), 0));
    }

    fn execute_or_vx_vy(&mut self, x: u8, y: u8)
        requires
            ready(old(self)@, Instruction::Or(x, y)),
        ensures
            final(self)@ == apply_spec(old(self)@, Instruction::Or(x, y), 0),
            final(self).cycles == old(self).cycles,
    {
        self.state.v[x as usize] = self.state.v[x as usize] | self.state.v[y as usize];
        assert(self@ =~~= apply_spec(old(self)@, Instruction::Or(x, y), 0));
    }

    fn execute_and_vx_vy(&mut self, x: u8, y: u8)
        requires
            ready(old(self)@, Instruction::And(x, y)),
        ensures
            final(self)@ == apply_spec(old(self)@, Instruction::And(x, y), 0),
            final(self).cycles == old(self).cycles,
    {
        self.state.v[x as usize] = self.state.v[x as usize] & self.state.v[y as usize];
        assert(self@ =~~= apply_spec(old(self)@, Instruction::And(x, y), 0));
    }

    fn execute_xor_vx_vy(&mut self, x: u8, y: u8)
        requires
            ready(old(self)@, Instruction::Xor(x, y)),
        ensures
            final(self)@ == apply_spec(old(self)@, Instruction::Xor(x, y), 0),
            final(self).cycles == old(self).cycles,
    {
        self.state.v[x as usize] = self.state.v[x as usize] ^ self.state.v[y as usize];
        assert(self@ =~~= apply_spec(old(self)@, Instruction::Xor(x, y), 0));
    }

    fn execute_add_vx_vy(&mut self, x: u8, y: u8)
        requires
            ready(old(self)@, Instruction::AddReg(x, y)),
        ensures
            final(self)@ == apply_spec(old(self)@, Instruction::AddReg(x, y), 0),
            final(self).cycles == old(self).cycles,
    {
        let a = self.state.v[x as usize];
        let b = self.state.v[y as usize];
        let carry = a as u16 + b as u16 > 255;
        self.state.v[x as usize] = a.wrapping_add(b);
        self.state.v[0xF] = if carry { 1 } else { 0 };
        assert(self@ =~~= apply_spec(old(self)@, Instruction::AddReg(x, y), 0));
    }

    fn execute_sub_vx_vy(&mut self, x: u8, y: u8)
        requires
            ready(old(self)@, Instruction::Sub(x, y)),
        ensures
            final(self)@ == apply_spec(old(self)@, Instruction::Sub(x, y), 0),
            final(self).cycles == old(self).cycles,
    {
        let a = self.state.v[x as usize];
        let b = self.state.v[y as usize];
        self.state.v[x as usize] = a.wrapping_sub(b);
        // The flag is set when no borrow occurs.
        self.state.v[0xF] = if a >= b { 1 } else { 0 };
        assert(self@ =~~= apply_spec(old(self)@, Instruction::Sub(x, y), 0));
    }

    fn execute_shr_vx(&mut self, x: u8)
        requires
            ready(old(self)@, Instruction::Shr(x)),
        ensures
            final(self)@ == apply_spec(old(self)@, Instruction::Shr(x), 0),
            final(self).cycles == old(self).cycles,
    {
        self.state.v[0xF] = self.state.v[x as usize] & 0x1;
        self.state.v[x as usize] = self.state.v[x as usize] >> 1;
        proof {
            let b = old(self).state.v[x as int];
            assert(b & 1u8 == b % 2) by (bit_vector);
            let c = self.state.v[x as int];
            let d = old(self)@.v.update(15, b % 2)[x as int];
            assert(c == d >> 1u8);
            assert(d >> 1u8 == d / 2) by (bit_vector);
        }
        assert(self@ =~~= apply_spec(old(self)@, Instruction::Shr(x), 0));
    }

    fn execute_subn_vx_vy(&mut self, x: u8, y: u8)
        requires
            ready(old(self)@, Instruction::Subn(x, y)),
        ensures
            final(self)@ == apply_spec(old(self)@, Instruction::Subn(x, y), 0),
            final(self).cycles == old(self).cycles,
    {
        let a = self.state.v[x as usize];
        let b = self.state.v[y as usize];
        self.state.v[x as usize] = b.wrapping_sub(a);
        // The flag is set when no borrow occurs.
        self.state.v[0xF] = if b >= a { 1 } else { 0 };
        assert(self@ =~~= apply_spec(old(self)@, Instruction::Subn(x, y), 0));
    }

    fn execute_shl_vx(&mut self, x: u8)
        requires
            ready(old(self)@, Instruction::Shl(x)),
        ensures
            final(self)@ == apply_spec(old(self)@, Instruction::Shl(x), 0),
            final(self).cycles == old(self).cycles,
    {
        self.state.v[0xF] = (self.state.v[x as usize] & 0x80) >> 7;
        self.state.v[x as usize] = self.state.v[x as usize] << 1;
        proof {
            let b = old(self).state.v[x as int];
            assert((b & 0x80u8) >> 7u8 == b / 128) by (bit_vector);
            let d = old(self)@.v.update(15, b / 128)[x as int];
            assert(d << 1u8 == (d * 2) % 256) by (bit_vector);
        }
        assert(self@ =~~= apply_spec(old(self)@, Instruction::Shl(x), 0));
    }

    fn execute_sne_vx_vy(&mut self, x: u8, y: u8)
        requires
            ready(old(self)@, Instruction::SneReg(x, y)),
        ensures
            final(self)@ == apply_spec(old(self)@, Instruction::SneReg(x, y), 0),
            final(self).cycles == old(self).cycles,
    {
        self.state.pc = self.state.pc + if self.state.v[x as usize] != self.state.v[y as usize] {
            2
        } else {
            0
        };
        assert(self@ =~~= apply_spec(old(self)@, Instruction::SneReg(x, y), 0));
    }

    fn execute_ld_i_addr(&mut self, address: u16)
        ensures
            final(self)@ == apply_spec(old(self)@, Instruction::LdI(address), 0),
            final(self).cycles == old(self).cycles,
    {
        self.state.i = address;
        assert(self@ =~~= apply_spec(old(self)@, Instruction::LdI(address), 0));
    }

    fn execute_jp_v0_addr(&mut self, address: u16)
        requires
            ready(old(self)@, Instruction::JpV0(address)),
        ensures
            final(self)@ == apply_spec(old(self)@, Instruction::JpV0(address), 0),
            final(self).cycles == old(self).cycles,
    {
        self.state.pc = address + self.state.v[0] as u16;
        assert(self@ =~~= apply_spec(old(self)@, Instruction::JpV0(address), 0));
    }

    fn execute_rnd_vx_byte(&mut self, x: u8, byte: u8, random: u8)
        requires
            ready(old(self)@, Instruction::Rnd(x, byte)),
        ensures
            final(self)@ == apply_spec(old(self)@, Instruction::Rnd(x, byte), random),
            final(self).cycles == old(self).cycles,
    {
        self.state.v[x as usize] = random & byte;
        assert(self@ =~~= apply_spec(old(self)@, Instruction::Rnd(x, byte), random));
    }

    /// Turns cell `(x, y)` on or off.
    pub fn set_pixel(&mut self, x: usize, y: usize, on: bool)
        requires
            x < SCREEN_WIDTH,
            y < SCREEN_HEIGHT,
        ensures
            final(self)@ == (MachineView {
                display: old(self)@.display.update(
                    y as int,
                    old(self)@.display[y as int].update(x as int, on),
                ),
                ..old(self)@
            }),
            final(self).cycles == old(self).cycles,
    {
        self.display[y][x] = on;
        assert(self@ =~~= (MachineView {
            display: old(self)@.display.update(y as int, old(self)@.display[y as int].update(x as int, on)),
            ..old(self)@
        }));
    }

    /// Whether cell `(x, y)` is on.
    pub fn get_pixel(&self, x: usize, y: usize) -> (r: bool)
        requires
            x < SCREEN_WIDTH,
            y < SCREEN_HEIGHT,
        ensures
            r == self@.display[y as int][x as int],
    {
        self.display[y][x]
    }

    /// Records whether key `key` is down.
    pub fn set_key(&mut self, key: usize, down: bool)
        requires
            key < KEYBOARD_SIZE,
        ensures
            final(self)@ == (MachineView {
                keyboard: old(self)@.keyboard.update(key as int, down),
                ..old(self)@
            }),
            final(self).cycles == old(self).cycles,
    {
        self.keyboard[key] = down;
        assert(self@ =~~= (MachineView { keyboard: old(self)@.keyboard.update(key as int, down), ..old(self)@ }));
    }

    /// Counts both timers down by one, stopping at zero. Meant to be called
    /// at a fixed rate by whoever drives the machine.
    pub fn decrement_timers(&mut self)
        ensures
            final(self)@ == (MachineView {
                delay_timer: if old(self)@.delay_timer > 0 { (old(self)@.delay_timer - 1) as u8 } else { 0 },
                sound_timer: if old(self)@.sound_timer > 0 { (old(self)@.sound_timer - 1) as u8 } else { 0 },
                ..old(self)@
            }),
            final(self).cycles == old(self).cycles,
    {
        if self.state.delay_timer > 0 {
            self.state.delay_timer = self.state.delay_timer - 1;
        }
        if self.state.sound_timer > 0 {
            self.state.sound_timer = self.state.sound_timer - 1;
        }
        assert(self@ =~~= (MachineView {
            delay_timer: if old(self)@.delay_timer > 0 { (old(self)@.delay_timer - 1) as u8 } else { 0 },
            sound_timer: if old(self)@.sound_timer > 0 { (old(self)@.sound_timer - 1) as u8 } else { 0 },
            ..old(self)@
        }));
    }

    fn execute_skp_vx(&mut self, x: u8)
        requires
            ready(old(self)@, Instruction::Skp(x)),
        ensures
            final(self)@ == apply_spec(old(self)@, Instruction::Skp(x), 0),
            final(self).cycles == old(self).cycles,
    {
        self.state.pc = self.state.pc + if self.keyboard[self.state.v[x as usize] as usize] {
            2
        } else {
            0
        };
        assert(self@ =~~= apply_spec(old(self)@, Instruction::Skp(x), 0));
    }

    fn execute_sknp_vx(&mut self, x: u8)
        requires
            ready(old(self)@, Instruction::Sknp(x)),
        ensures
            final(self)@ == apply_spec(old(self)@, Instruction::Sknp(x), 0),
            final(self).cycles == old(self).cycles,
    {
        self.state.pc = self.state.pc + if self.keyboard[self.state.v[x as usize] as usize] {
            0
        } else {
            2
        };
        assert(self@ =~~= apply_spec(old(self)@, Instruction::Sknp(x), 0));
    }

    fn execute_ld_vx_dt(&mut self, x: u8)
        requires
            ready(old(self)@, Instruction::LdVxDt(x)),
        ensures
            final(self)@ == apply_spec(old(self)@, Instruction::LdVxDt(x), 0),
            final(self).cycles == old(self).cycles,
    {
        self.state.v[x as usize] = self.state.delay_timer;
        assert(self@ =~~= apply_spec(old(self)@, Instruction::LdVxDt(x), 0));
    }

    /// Waits for a key: the program counter goes back to this instruction
    /// unless some key is down, in which case the lowest such key is stored.
    fn execute_ld_vx_k(&mut self, x: u8)
        requires
            ready(old(self)@, Instruction::LdVxK(x)),
        ensures
            final(self)@ == apply_spec(old(self)@, Instruction::LdVxK(x), 0),
            final(self).cycles == old(self).cycles,
    {
        self.state.pc = self.state.pc - 2;
        let mut key: usize = 0;
        while key < self.keyboard.len() && !self.keyboard[key]
            invariant
                key <= 16,
                forall|j: int| 0 <= j < key ==> !self.keyboard@[j],
            decreases 16 - key,
        {
            key = key + 1;
        }
        let ghost keys = old(self)@.keyboard;
        if key < self.keyboard.len() {
            self.state.v[x as usize] = key as u8;
            self.state.pc = self.state.pc + 2;
            proof {
                assert(is_first_key_down(keys, key as int));
                assert(any_key_down(keys));
                let k = choose|k: int| is_first_key_down(keys, k);
                assert(k == key as int) by {
                    if k < key {
                        assert(!keys[k]);
                    } else if k > key {
                        assert(!keys[key as int]);
                    }
                }
            }
        } else {
            assert(!any_key_down(keys));
        }
        assert(self@ =~~= apply_spec(old(self)@, Instruction::LdVxK(x), 0));
    }

    fn execute_ld_dt_vx(&mut self, x: u8)
        requires
            ready(old(self)@, Instruction::LdDtVx(x)),
        ensures
            final(self)@ == apply_spec(old(self)@, Instruction::LdDtVx(x), 0),
            final(self).cycles == old(self).cycles,
    {
        self.state.delay_timer = self.state.v[x as usize];
        assert(self@ =~~= apply_spec(old(self)@, Instruction::LdDtVx(x), 0));
    }

    fn execute_ld_st_vx(&mut self, x: u8)
        requires
            ready(old(self)@, Instruction::LdStVx(x)),
        ensures
            final(self)@ == apply_spec(old(self)@, Instruction::LdStVx(x), 0),
            final(self).cycles == old(self).cycles,
    {
        self.state.sound_timer = self.state.v[x as usize];
        assert(self@ =~~= apply_spec(old(self)@, Instruction::LdStVx(x), 0));
    }

    fn execute_add_i_vx(&mut self, x: u8)
        requires
            ready(old(self)@, Instruction::AddIVx(x)),
        ensures
            final(self)@ == apply_spec(old(self)@, Instruction::AddIVx(x), 0),
            final(self).cycles == old(self).cycles,
    {
        self.state.i = self.state.i.wrapping_add(self.state.v[x as usize] as u16);
        assert(self@ =~~= apply_spec(old(self)@, Instruction::AddIVx(x), 0));
    }

    fn execute_ld_f_vx(&mut self, x: u8)
        requires
            ready(old(self)@, Instruction::LdFVx(x)),
        ensures
            final(self)@ == apply_spec(old(self)@, Instruction::LdFVx(x), 0),
            final(self).cycles == old(self).cycles,
    {
        self.state.i = self.state.v[x as usize] as u16 * 5;
        assert(self@ =~~= apply_spec(old(self)@, Instruction::LdFVx(x), 0));
    }

    fn execute_ld_b_vx(&mut self, x: u8)
        requires
            ready(old(self)@, Instruction::LdBVx(x)),
        ensures
            final(self)@ == apply_spec(old(self)@, Instruction::LdBVx(x), 0),
            final(self).cycles == old(self).cycles,
    {
        let index = self.state.i as usize;
        let value = self.state.v[x as usize];
        self.state.memory[index] = value / 100;
        self.state.memory[index + 1] = (value / 10) % 10;
        self.state.memory[index + 2] = value % 10;
        assert(self@ =~~= apply_spec(old(self)@, Instruction::LdBVx(x), 0));
    }

    fn execute_ld_ref_i_vx(&mut self)
        requires
            ready(old(self)@, Instruction::StoreRegs(0)),
        ensures
            forall|x: u8| final(self)@ == #[trigger] apply_spec(old(self)@, Instruction::StoreRegs(x), 0),
            final(self).cycles == old(self).cycles,
    {
        let base = self.state.i as usize;
        let mut k: usize = 0;
        while k < self.state.v.len()
            invariant
                k <= 16,
                base == old(self).state.i,
                base + 16 <= 4096,
                self@ == (MachineView {
                    memory: copy_into(old(self)@.memory, old(self)@.v.take(k as int), base as int),
                    ..old(self)@
                }),
                self.cycles == old(self).cycles,
            decreases 16 - k,
        {
            self.state.memory[base + k] = self.state.v[k];
            k = k + 1;
            assert(self@ =~~= (MachineView {
                memory: copy_into(old(self)@.memory, old(self)@.v.take(k as int), base as int),
                ..old(self)@
            }));
        }
        assert(old(self)@.v.take(16) =~= old(self)@.v);
    }

    fn execute_ld_vx_ref_i(&mut self)
        requires
            ready(old(self)@, Instruction::LoadRegs(0)),
        ensures
            forall|x: u8| final(self)@ == #[trigger] apply_spec(old(self)@, Instruction::LoadRegs(x), 0),
            final(self).cycles == old(self).cycles,
    {
        let base = self.state.i as usize;
        let mut k: usize = 0;
        while k < self.state.v.len()
            invariant
                k <= 16,
                base == old(self).state.i,
                base + 16 <= 4096,
                self@ == (MachineView {
                    v: old(self)@.memory.subrange(base as int, base + k) + old(self)@.v.skip(k as int),
                    ..old(self)@
                }),
                self.cycles == old(self).cycles,
            decreases 16 - k,
        {
            self.state.v[k] = self.state.memory[base + k];
            k = k + 1;
            assert(self@ =~~= (MachineView {
                v: old(self)@.memory.subrange(base as int, base + k) + old(self)@.v.skip(k as int),
                ..old(self)@
            }));
        }
        assert(self@ =~~= apply_spec(old(self)@, Instruction::LoadRegs(0), 0));
    }

    /// XOR-draws the `nibble`-row sprite at `memory[I..]` at `(V[x], V[y])`,
    /// wrapping at the screen edges, and sets `V[F]` to whether a lit cell
    /// was turned off.
    fn execute_draw_vx_vy_nibble(&mut self, x: u8, y: u8, nibble: u8)
        requires
            ready(old(self)@, Instruction::Drw(x, y, nibble)),
        ensures
            final(self)@ == apply_spec(old(self)@, Instruction::Drw(x, y, nibble), 0),
            final(self).cycles == old(self).cycles,
    {
        let ghost m = self@;
        let vx = self.state.v[x as usize];
        let vy = self.state.v[y as usize];
        let start = self.state.i as usize;
        let mut collision = false;
        let mut j: u8 = 0;
        assert(self@.display =~~= partially_drawn(m, nibble, vx, vy, 0, 0));
        while j < nibble
            invariant
                j <= nibble < 16,
                start == m.i,
                start + nibble <= 4096,
                vx == m.v[x as int],
                vy == m.v[y as int],
                self@ == (MachineView { display: self@.display, ..m }),
                self.cycles == old(self).cycles,
                self@.display == partially_drawn(m, nibble, vx, vy, j as int, 0),
                collision == collides_before(m, nibble, vx, vy, j as int, 0),
            decreases nibble - j,
        {
            let row = self.state.memory[start + j as usize];
            let mut i: u8 = 0;
            while i < 8
                invariant
                    j < nibble < 16,
                    i <= 8,
                    start == m.i,
                    start + nibble <= 4096,
                    vx == m.v[x as int],
                    vy == m.v[y as int],
                    row == m.memory[m.i + j],
                    self@ == (MachineView { display: self@.display, ..m }),
                    self.cycles == old(self).cycles,
                    self@.display == partially_drawn(m, nibble, vx, vy, j as int, i as int),
                    collision == collides_before(m, nibble, vx, vy, j as int, i as int),
                decreases 8 - i,
            {
                let xi = (vx as usize + i as usize) % SCREEN_WIDTH;
                let yj = (vy as usize + j as usize) % SCREEN_HEIGHT;
                let ghost before = self@.display;
                let ghost was_colliding = collision;
                proof {
                    lemma_wrap(vx as int, i as int, 64, 0);
                    lemma_wrap(vy as int, j as int, 32, 0);
                    assert(sprite_col(xi as int, vx) == i);
                    assert(sprite_row(yj as int, vy) == j);
                }
                let bit = (row >> (7 - i)) & 0x01;
                if bit == 1 {
                    let old_value = self.get_pixel(xi, yj);
                    if old_value {
                        collision = true;
                    }
                    self.set_pixel(xi, yj, (bit == 1) != old_value);
                }
                proof {
                    assert forall|cx: int, cy: int| 0 <= cx < 64 && 0 <= cy < 32 implies
                        (sprite_col(cx, vx) == i && sprite_row(cy, vy) == j) == (cx == xi && cy == yj) by {
                        lemma_wrap(vx as int, i as int, 64, cx);
                        lemma_wrap(vy as int, j as int, 32, cy);
                    }
                    assert(self@.display =~~= partially_drawn(m, nibble, vx, vy, j as int, i + 1));
                    if collision {
                        if !was_colliding {
                            assert(sprite_covers(m, nibble, vx, vy, xi as int, yj as int));
                        }
                    } else {
                        assert forall|cx: int, cy: int|
                            0 <= cx < 64 && 0 <= cy < 32 && #[trigger] sprite_covers(m, nibble, vx, vy, cx, cy)
                                && drawn_before(sprite_row(cy, vy), sprite_col(cx, vx), j as int, i + 1)
                            implies !m.display[cy][cx] by {
                            if !drawn_before(sprite_row(cy, vy), sprite_col(cx, vx), j as int, i as int) {
                                assert(cx == xi && cy == yj);
                            }
                        }
                    }
                }
                i = i + 1;
            }
            proof {
                assert(self@.display =~~= partially_drawn(m, nibble, vx, vy, j + 1, 0));
                assert(collides_before(m, nibble, vx, vy, j as int, 8) == collides_before(m, nibble, vx, vy, j + 1, 0)) by {
                    if collides_before(m, nibble, vx, vy, j + 1, 0) {
                        let (cx, cy) = choose|cx: int, cy: int|
                            0 <= cx < 64 && 0 <= cy < 32 && #[trigger] sprite_covers(m, nibble, vx, vy, cx, cy)
                                && drawn_before(sprite_row(cy, vy), sprite_col(cx, vx), j + 1, 0) && m.display[cy][cx];
                        assert(drawn_before(sprite_row(cy, vy), sprite_col(cx, vx), j as int, 8));
                    }
                }
            }
            j = j + 1;
        }
        self.state.v[0xF] = if collision { 1 } else { 0 };
        proof {
            assert(partially_drawn(m, nibble, vx, vy, nibble as int, 0) =~~= drawn_display(m, nibble, vx, vy));
            assert(collides_before(m, nibble, vx, vy, nibble as int, 0) == draw_collides(m, nibble, vx, vy)) by {
                if draw_collides(m, nibble, vx, vy) {
                    let (cx, cy) = choose|cx: int, cy: int|
                        0 <= cx < 64 && 0 <= cy < 32 && #[trigger] sprite_covers(m, nibble, vx, vy, cx, cy)
                            && m.display[cy][cx];
                    assert(drawn_before(sprite_row(cy, vy), sprite_col(cx, vx), nibble as int, 0));
                }
            }
        }
        assert(self@ =~~= apply_spec(old(self)@, Instruction::Drw(x, y, nibble), 0));
    }
}

} // verus!
