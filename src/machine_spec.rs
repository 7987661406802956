use vstd::prelude::*;

use crate::chip8_state::copy_into;
use crate::instruction::{decode_spec, Instruction};

verus! {

/// The machine as a mathematical value: registers, timers, call stack,
/// memory, framebuffer (`display[y][x]`), input latch and cycle counter.
#[verifier::ext_equal]
pub struct MachineView {
    pub v: Seq<u8>,
    pub i: u16,
    pub delay_timer: u8,
    pub sound_timer: u8,
    pub pc: u16,
    pub sp: u8,
    pub stack: Seq<u16>,
    pub memory: Seq<u8>,
    pub display: Seq<Seq<bool>>,
    pub keyboard: Seq<bool>,
    pub cycles: u64,
}

/// Why a cycle could not execute the instruction at `address`.
#[derive(Clone, Copy, Debug, PartialEq, Eq, Structural)]
pub enum Chip8Error {
    /// The program counter lies outside memory.
    ProgramCounterOutOfBounds { address: u16 },
    /// The two bytes at `address`, read as `opcode`, encode no instruction.
    UnknownInstruction { address: u16, opcode: u16 },
    /// A call with all return-address slots in use.
    StackOverflow { address: u16 },
    /// A return with an empty call stack.
    StackUnderflow { address: u16 },
    /// The instruction would read or write memory past its end.
    MemoryOutOfBounds { address: u16 },
    /// A key test on a register that holds no key index.
    InvalidKey { address: u16 },
}

/// A framebuffer with every cell off.
pub open spec fn blank_display() -> Seq<Seq<bool>> {
    Seq::new(32, |y: int| Seq::new(64, |x: int| false))
}

/// The two bytes fetched at `pc`; the second one wraps to address 0 at the top of memory.
pub open spec fn fetch_spec(m: MachineView) -> (u8, u8) {
    let pc = m.pc as int;
    (m.memory[pc], if pc + 1 < 4096 { m.memory[pc + 1] } else { m.memory[0] })
}

/// `m` with register `x` set to `b`.
pub open spec fn set_register(m: MachineView, x: u8, b: u8) -> MachineView {
    MachineView { v: m.v.update(x as int, b), ..m }
}

/// `m` with the program counter advanced past the next instruction when `cond` holds.
pub open spec fn skip_if(m: MachineView, cond: bool) -> MachineView {
    if cond {
        MachineView { pc: (m.pc + 2) as u16, ..m }
    } else {
        m
    }
}

/// Bit `col` of a sprite row, counted from the most significant bit.
pub open spec fn sprite_bit(row: u8, col: u8) -> bool {
    (row >> (7 - col) as u8) & 1u8 == 1u8
}

/// The sprite row that covers framebuffer row `cy` for a sprite drawn at row `vy`.
pub open spec fn sprite_row(cy: int, vy: u8) -> int {
    (cy - vy) % 32
}

/// The sprite column that covers framebuffer column `cx` for a sprite drawn at column `vx`.
pub open spec fn sprite_col(cx: int, vx: u8) -> int {
    (cx - vx) % 64
}

/// Whether the `n`-row sprite at `memory[i..]`, drawn at `(vx, vy)` with
/// coordinates wrapping around the screen edges, has a set bit on cell `(cx, cy)`.
pub open spec fn sprite_covers(m: MachineView, n: u8, vx: u8, vy: u8, cx: int, cy: int) -> bool {
    let r = sprite_row(cy, vy);
    let c = sprite_col(cx, vx);
    r < n && c < 8 && sprite_bit(m.memory[m.i + r], c as u8)
}

/// The framebuffer after XOR-drawing the sprite: covered cells flip, the others stay.
pub open spec fn drawn_display(m: MachineView, n: u8, vx: u8, vy: u8) -> Seq<Seq<bool>> {
    Seq::new(
        32,
        |cy: int| Seq::new(64, |cx: int| m.display[cy][cx] != sprite_covers(m, n, vx, vy, cx, cy)),
    )
}

/// Whether drawing the sprite turns off a cell that was on.
pub open spec fn draw_collides(m: MachineView, n: u8, vx: u8, vy: u8) -> bool {
    exists|cx: int, cy: int|
        0 <= cx < 64 && 0 <= cy < 32 && #[trigger] sprite_covers(m, n, vx, vy, cx, cy)
            && m.display[cy][cx]
}

/// Whether key `k` is the lowest-numbered key that is down.
pub open spec fn is_first_key_down(keys: Seq<bool>, k: int) -> bool {
    0 <= k < keys.len() && keys[k] && forall|j: int| 0 <= j < k ==> !keys[j]
}

/// Whether some key is down.
pub open spec fn any_key_down(keys: Seq<bool>) -> bool {
    exists|k: int| 0 <= k < keys.len() && keys[k]
}

/// The lowest-numbered key that is down, if any.
pub open spec fn first_key_down(keys: Seq<bool>) -> Option<int> {
    if any_key_down(keys) {
        Some(choose|k: int| is_first_key_down(keys, k))
    } else {
        None
    }
}

/// The error, if any, that stops `op` fetched at `address` from executing on `m`.
pub open spec fn instruction_fault(m: MachineView, op: Instruction, address: u16) -> Option<
    Chip8Error,
> {
    match op {
        Instruction::Ret => if m.sp == 0 {
            Some(Chip8Error::StackUnderflow { address })
        } else if m.sp > 16 {
            Some(Chip8Error::StackOverflow { address })
        } else {
            None
        },
        Instruction::Sys(_) | Instruction::Call(_) => if m.sp >= 16 {
            Some(Chip8Error::StackOverflow { address })
        } else {
            None
        },
        Instruction::Drw(_, _, n) => if m.i + n > 4096 {
            Some(Chip8Error::MemoryOutOfBounds { address })
        } else {
            None
        },
        Instruction::LdBVx(_) => if m.i + 3 > 4096 {
            Some(Chip8Error::MemoryOutOfBounds { address })
        } else {
            None
        },
        Instruction::StoreRegs(_) | Instruction::LoadRegs(_) => if m.i + 16 > 4096 {
            Some(Chip8Error::MemoryOutOfBounds { address })
        } else {
            None
        },
        Instruction::Skp(x) | Instruction::Sknp(x) => if m.v[x as int] >= 16 {
            Some(Chip8Error::InvalidKey { address })
        } else {
            None
        },
        _ => None,
    }
}

/// The effect of `op` on `m`, whose program counter has already been
/// advanced past the instruction; `random` is the byte that `RND` masks.
pub open spec fn apply_spec(m: MachineView, op: Instruction, random: u8) -> MachineView {
    match op {
        Instruction::Cls => MachineView { display: blank_display(), ..m },
        Instruction::Ret => MachineView {
            sp: (m.sp - 1) as u8,
            pc: m.stack[m.sp - 1],
            ..m
        },
        Instruction::Sys(a) | Instruction::Call(a) => MachineView {
            stack: m.stack.update(m.sp as int, m.pc),
            sp: (m.sp + 1) as u8,
            pc: a,
            ..m
        },
        Instruction::Jp(a) => MachineView { pc: a, ..m },
        Instruction::SeByte(x, kk) => skip_if(m, m.v[x as int] == kk),
        Instruction::SneByte(x, kk) => skip_if(m, m.v[x as int] != kk),
        Instruction::SeReg(x, y) => skip_if(m, m.v[x as int] == m.v[y as int]),
        Instruction::SneReg(x, y) => skip_if(m, m.v[x as int] != m.v[y as int]),
        Instruction::LdByte(x, kk) => set_register(m, x, kk),
        Instruction::AddByte(x, kk) => set_register(m, x, ((m.v[x as int] + kk) % 256) as u8),
        Instruction::LdReg(x, y) => set_register(m, x, m.v[y as int]),
        Instruction::Or(x, y) => set_register(m, x, m.v[x as int] | m.v[y as int]),
        Instruction::And(x, y) => set_register(m, x, m.v[x as int] & m.v[y as int]),
        Instruction::Xor(x, y) => set_register(m, x, m.v[x as int] ^ m.v[y as int]),
        Instruction::AddReg(x, y) => {
            let sum = m.v[x as int] + m.v[y as int];
            set_register(
                set_register(m, x, (sum % 256) as u8),
                15,
                if sum > 255 { 1 } else { 0 },
            )
        },
        Instruction::Sub(x, y) => {
            let (a, b) = (m.v[x as int], m.v[y as int]);
            set_register(
                set_register(m, x, ((a - b) % 256) as u8),
                15,
                if a >= b { 1 } else { 0 },
            )
        },
        Instruction::Subn(x, y) => {
            let (a, b) = (m.v[x as int], m.v[y as int]);
            set_register(
                set_register(m, x, ((b - a) % 256) as u8),
                15,
                if b >= a { 1 } else { 0 },
            )
        },
        Instruction::Shr(x) => {
            let m1 = set_register(m, 15, m.v[x as int] % 2);
            set_register(m1, x, m1.v[x as int] / 2)
        },
        Instruction::Shl(x) => {
            let m1 = set_register(m, 15, m.v[x as int] / 128);
            set_register(m1, x, ((m1.v[x as int] * 2) % 256) as u8)
        },
        Instruction::LdI(a) => MachineView { i: a, ..m },
        Instruction::JpV0(a) => MachineView { pc: (a + m.v[0]) as u16, ..m },
        Instruction::Rnd(x, kk) => set_register(m, x, random & kk),
        Instruction::Drw(x, y, n) => {
            let (vx, vy) = (m.v[x as int], m.v[y as int]);
            set_register(
                MachineView { display: drawn_display(m, n, vx, vy), ..m },
                15,
                if draw_collides(m, n, vx, vy) { 1 } else { 0 },
            )
        },
        Instruction::Skp(x) => skip_if(m, m.keyboard[m.v[x as int] as int]),
        Instruction::Sknp(x) => skip_if(m, !m.keyboard[m.v[x as int] as int]),
        Instruction::LdVxDt(x) => set_register(m, x, m.delay_timer),
        Instruction::LdVxK(x) => match first_key_down(m.keyboard) {
            Some(k) => set_register(m, x, k as u8),
            None => MachineView { pc: (m.pc - 2) as u16, ..m },
        },
        Instruction::LdDtVx(x) => MachineView { delay_timer: m.v[x as int], ..m },
        Instruction::LdStVx(x) => MachineView { sound_timer: m.v[x as int], ..m },
        Instruction::AddIVx(x) => MachineView { i: ((m.i + m.v[x as int]) % 65536) as u16, ..m },
        Instruction::LdFVx(x) => MachineView { i: (m.v[x as int] * 5) as u16, ..m },
        Instruction::LdBVx(x) => {
            let b = m.v[x as int];
            let i = m.i as int;
            MachineView {
                memory: m.memory.update(i, b / 100).update(i + 1, (b / 10) % 10).update(
                    i + 2,
                    b % 10,
                ),
                ..m
            }
        },
        Instruction::StoreRegs(_) => MachineView {
            memory: copy_into(m.memory, m.v, m.i as int),
            ..m
        },
        Instruction::LoadRegs(_) => MachineView {
            v: m.memory.subrange(m.i as int, m.i + 16),
            ..m
        },
    }
}

/// The outcome of one fetch-decode-execute cycle on `m`, with `random` as
/// the byte an `RND` instruction draws. On success the program counter is
/// advanced by two before the instruction takes effect and the cycle counter
/// goes up by one (wrapping).
pub open spec fn cycle_spec(m: MachineView, random: u8) -> Result<MachineView, Chip8Error> {
    let address = m.pc;
    if address >= 4096 {
        Err(Chip8Error::ProgramCounterOutOfBounds { address })
    } else {
        let (hi, lo) = fetch_spec(m);
        match decode_spec(hi, lo) {
            None => Err(Chip8Error::UnknownInstruction { address, opcode: (hi * 256 + lo) as u16 }),
            Some(op) => match instruction_fault(m, op, address) {
                Some(e) => Err(e),
                None => {
                    let advanced = MachineView { pc: (address + 2) as u16, ..m };
                    let done = apply_spec(advanced, op, random);
                    Ok(MachineView { cycles: ((done.cycles + 1) % 0x1_0000_0000_0000_0000) as u64, ..done })
                },
            },
        }
    }
}

/// The instruction that the next cycle on `m` would decode, if the program
/// counter lies in memory and the bytes there encode one.
pub open spec fn next_instruction(m: MachineView) -> Option<Instruction> {
    if m.pc >= 4096 {
        None
    } else {
        decode_spec(fetch_spec(m).0, fetch_spec(m).1)
    }
}

} // verus!
