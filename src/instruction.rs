use vstd::prelude::*;

verus! {

/// One decoded CHIP-8 instruction. Register operands are indices `0..16`,
/// addresses are twelve bits wide and sprite heights four bits wide.
#[derive(Clone, Copy, Debug, PartialEq, Eq, Structural)]
pub enum Instruction {
    /// `00E0`: clear the framebuffer.
    Cls,
    /// `00EE`: return from a subroutine.
    Ret,
    /// `0NNN`: behaves exactly as `CALL NNN`, as on the historical host interpreter.
    Sys(u16),
    /// `1NNN`: jump to `NNN`.
    Jp(u16),
    /// `2NNN`: call the subroutine at `NNN`.
    Call(u16),
    /// `3XKK`: skip the next instruction if `V[X] == KK`.
    SeByte(u8, u8),
    /// `4XKK`: skip the next instruction if `V[X] != KK`.
    SneByte(u8, u8),
    /// `5XY0`: skip the next instruction if `V[X] == V[Y]`.
    SeReg(u8, u8),
    /// `6XKK`: `V[X] = KK`.
    LdByte(u8, u8),
    /// `7XKK`: `V[X] += KK`, wrapping, flags untouched.
    AddByte(u8, u8),
    /// `8XY0`: `V[X] = V[Y]`.
    LdReg(u8, u8),
    /// `8XY1`: `V[X] |= V[Y]`.
    Or(u8, u8),
    /// `8XY2`: `V[X] &= V[Y]`.
    And(u8, u8),
    /// `8XY3`: `V[X] ^= V[Y]`.
    Xor(u8, u8),
    /// `8XY4`: `V[X] += V[Y]`, `V[F]` = carry.
    AddReg(u8, u8),
    /// `8XY5`: `V[X] -= V[Y]`, `V[F]` = not borrow.
    Sub(u8, u8),
    /// `8XY6`: `V[F]` = low bit of `V[X]`, then `V[X] >>= 1`.
    Shr(u8),
    /// `8XY7`: `V[X] = V[Y] - V[X]`, `V[F]` = not borrow.
    Subn(u8, u8),
    /// `8XYE`: `V[F]` = high bit of `V[X]`, then `V[X] <<= 1`.
    Shl(u8),
    /// `9XY0`: skip the next instruction if `V[X] != V[Y]`.
    SneReg(u8, u8),
    /// `ANNN`: `I = NNN`.
    LdI(u16),
    /// `BNNN`: jump to `NNN + V[0]`.
    JpV0(u16),
    /// `CXKK`: `V[X]` = a random byte masked with `KK`.
    Rnd(u8, u8),
    /// `DXYN`: draw the `N`-row sprite at `memory[I..]` at `(V[X], V[Y])`.
    Drw(u8, u8, u8),
    /// `EX9E`: skip the next instruction if key `V[X]` is down.
    Skp(u8),
    /// `EXA1`: skip the next instruction if key `V[X]` is up.
    Sknp(u8),
    /// `FX07`: `V[X]` = delay timer.
    LdVxDt(u8),
    /// `FX0A`: wait for a key press and store its index in `V[X]`.
    LdVxK(u8),
    /// `FX15`: delay timer = `V[X]`.
    LdDtVx(u8),
    /// `FX18`: sound timer = `V[X]`.
    LdStVx(u8),
    /// `FX1E`: `I += V[X]`.
    AddIVx(u8),
    /// `FX29`: `I` = address of the font glyph for `V[X]`.
    LdFVx(u8),
    /// `FX33`: store the decimal digits of `V[X]` at `memory[I..I + 3]`.
    LdBVx(u8),
    /// `FX55`: store all registers at `memory[I..I + 16]`.
    StoreRegs(u8),
    /// `FX65`: load all registers from `memory[I..I + 16]`.
    LoadRegs(u8),
}

/// The high nibble of a byte.
pub open spec fn high_nibble(b: u8) -> u8 {
    (b / 16) as u8
}

/// The low nibble of a byte.
pub open spec fn low_nibble(b: u8) -> u8 {
    (b % 16) as u8
}

/// The twelve-bit address operand `NNN` of the instruction `hi lo`.
pub open spec fn address_operand(hi: u8, lo: u8) -> u16 {
    ((hi % 16) * 256 + lo) as u16
}

/// The instruction that the two bytes `hi lo` encode, if any.
pub open spec fn decode_spec(hi: u8, lo: u8) -> Option<Instruction> {
    let x = low_nibble(hi);
    let y = high_nibble(lo);
    let n = low_nibble(lo);
    let nnn = address_operand(hi, lo);
    match (high_nibble(hi), x, y, n) {
        (0x0, 0x0, 0xE, 0x0) => Some(Instruction::Cls),
        (0x0, 0x0, 0xE, 0xE) => Some(Instruction::Ret),
        (0x0, _, _, _) => Some(Instruction::Sys(nnn)),
        (0x1, _, _, _) => Some(Instruction::Jp(nnn)),
        (0x2, _, _, _) => Some(Instruction::Call(nnn)),
        (0x3, _, _, _) => Some(Instruction::SeByte(x, lo)),
        (0x4, _, _, _) => Some(Instruction::SneByte(x, lo)),
        (0x5, _, _, 0x0) => Some(Instruction::SeReg(x, y)),
        (0x6, _, _, _) => Some(Instruction::LdByte(x, lo)),
        (0x7, _, _, _) => Some(Instruction::AddByte(x, lo)),
        (0x8, _, _, 0x0) => Some(Instruction::LdReg(x, y)),
        (0x8, _, _, 0x1) => Some(Instruction::Or(x, y)),
        (0x8, _, _, 0x2) => Some(Instruction::And(x, y)),
        (0x8, _, _, 0x3) => Some(Instruction::Xor(x, y)),
        (0x8, _, _, 0x4) => Some(Instruction::AddReg(x, y)),
        (0x8, _, _, 0x5) => Some(Instruction::Sub(x, y)),
        (0x8, _, _, 0x6) => Some(Instruction::Shr(x)),
        (0x8, _, _, 0x7) => Some(Instruction::Subn(x, y)),
        (0x8, _, _, 0xE) => Some(Instruction::Shl(x)),
        (0x9, _, _, 0x0) => Some(Instruction::SneReg(x, y)),
        (0xA, _, _, _) => Some(Instruction::LdI(nnn)),
        (0xB, _, _, _) => Some(Instruction::JpV0(nnn)),
        (0xC, _, _, _) => Some(Instruction::Rnd(x, lo)),
        (0xD, _, _, _) => Some(Instruction::Drw(x, y, n)),
        (0xE, _, 0x9, 0xE) => Some(Instruction::Skp(x)),
        (0xE, _, 0xA, 0x1) => Some(Instruction::Sknp(x)),
        (0xF, _, 0x0, 0x7) => Some(Instruction::LdVxDt(x)),
        (0xF, _, 0x0, 0xA) => Some(Instruction::LdVxK(x)),
        (0xF, _, 0x1, 0x5) => Some(Instruction::LdDtVx(x)),
        (0xF, _, 0x1, 0x8) => Some(Instruction::LdStVx(x)),
        (0xF, _, 0x1, 0xE) => Some(Instruction::AddIVx(x)),
        (0xF, _, 0x2, 0x9) => Some(Instruction::LdFVx(x)),
        (0xF, _, 0x3, 0x3) => Some(Instruction::LdBVx(x)),
        (0xF, _, 0x5, 0x5) => Some(Instruction::StoreRegs(x)),
        (0xF, _, 0x6, 0x5) => Some(Instruction::LoadRegs(x)),
        _ => None,
    }
}

/// Every operand of `op` lies in the range its field can encode.
pub open spec fn operands_in_range(op: Instruction) -> bool {
    match op {
        Instruction::Cls | Instruction::Ret => true,
        Instruction::Sys(a) | Instruction::Jp(a) | Instruction::Call(a) | Instruction::LdI(a)
        | Instruction::JpV0(a) => a < 0x1000,
        Instruction::SeByte(x, _) | Instruction::SneByte(x, _) | Instruction::LdByte(x, _)
        | Instruction::AddByte(x, _) | Instruction::Rnd(x, _) => x < 16,
        Instruction::SeReg(x, y) | Instruction::LdReg(x, y) | Instruction::Or(x, y)
        | Instruction::And(x, y) | Instruction::Xor(x, y) | Instruction::AddReg(x, y)
        | Instruction::Sub(x, y) | Instruction::Subn(x, y) | Instruction::SneReg(x, y) => x < 16
            && y < 16,
        Instruction::Drw(x, y, n) => x < 16 && y < 16 && n < 16,
        Instruction::Shr(x) | Instruction::Shl(x) | Instruction::Skp(x) | Instruction::Sknp(x)
        | Instruction::LdVxDt(x) | Instruction::LdVxK(x) | Instruction::LdDtVx(x)
        | Instruction::LdStVx(x) | Instruction::AddIVx(x) | Instruction::LdFVx(x)
        | Instruction::LdBVx(x) | Instruction::StoreRegs(x) | Instruction::LoadRegs(x) => x < 16,
    }
}

/// Splits the instruction `hi lo` into its nibble fields and operands and
/// matches them against the opcode table; `None` for an unknown opcode.
pub fn decode_instruction(hi: u8, lo: u8) -> (r: Option<Instruction>)
    ensures
        r == decode_spec(hi, lo),
        r is Some ==> operands_in_range(r->0),
{
    let position3 = hi >> 4;
    let position2 = hi & 0x0F;
    let position1 = lo >> 4;
    let position0 = lo & 0x0F;
    let address = ((hi as u16 & 0x0F) << 8) | (lo as u16);
    proof {
        assert(hi >> 4u8 == hi / 16) by (bit_vector);
        assert(hi & 0x0Fu8 == hi % 16) by (bit_vector);
        assert(lo >> 4u8 == lo / 16) by (bit_vector);
        assert(lo & 0x0Fu8 == lo % 16) by (bit_vector);
        assert(((hi as u16 & 0x0Fu16) << 8u16) | (lo as u16) == (hi % 16) as u16 * 256 + lo as u16)
            by (bit_vector);
    }
    let x = position2;
    let y = position1;
    let nibble = position0;
    let byte = lo;
    match (position3, position2, position1, position0) {
        (0x0, 0x0, 0xE, 0x0) => Some(Instruction::Cls),
        (0x0, 0x0, 0xE, 0xE) => Some(Instruction::Ret),
        (0x0, _, _, _) => Some(Instruction::Sys(address)),
        (0x1, _, _, _) => Some(Instruction::Jp(address)),
        (0x2, _, _, _) => Some(Instruction::Call(address)),
        (0x3, _, _, _) => Some(Instruction::SeByte(x, byte)),
        (0x4, _, _, _) => Some(Instruction::SneByte(x, byte)),
        (0x5, _, _, 0x0) => Some(Instruction::SeReg(x, y)),
        (0x6, _, _, _) => Some(Instruction::LdByte(x, byte)),
        (0x7, _, _, _) => Some(Instruction::AddByte(x, byte)),
        (0x8, _, _, 0x0) => Some(Instruction::LdReg(x, y)),
        (0x8, _, _, 0x1) => Some(Instruction::Or(x, y)),
        (0x8, _, _, 0x2) => Some(Instruction::And(x, y)),
        (0x8, _, _, 0x3) => Some(Instruction::Xor(x, y)),
        (0x8, _, _, 0x4) => Some(Instruction::AddReg(x, y)),
        (0x8, _, _, 0x5) => Some(Instruction::Sub(x, y)),
        (0x8, _, _, 0x6) => Some(Instruction::Shr(x)),
        (0x8, _, _, 0x7) => Some(Instruction::Subn(x, y)),
        (0x8, _, _, 0xE) => Some(Instruction::Shl(x)),
        (0x9, _, _, 0x0) => Some(Instruction::SneReg(x, y)),
        (0xA, _, _, _) => Some(Instruction::LdI(address)),
        (0xB, _, _, _) => Some(Instruction::JpV0(address)),
        (0xC, _, _, _) => Some(Instruction::Rnd(x, byte)),
        (0xD, _, _, _) => Some(Instruction::Drw(x, y, nibble)),
        (0xE, _, 0x9, 0xE) => Some(Instruction::Skp(x)),
        (0xE, _, 0xA, 0x1) => Some(Instruction::Sknp(x)),
        (0xF, _, 0x0, 0x7) => Some(Instruction::LdVxDt(x)),
        (0xF, _, 0x0, 0xA) => Some(Instruction::LdVxK(x)),
        (0xF, _, 0x1, 0x5) => Some(Instruction::LdDtVx(x)),
        (0xF, _, 0x1, 0x8) => Some(Instruction::LdStVx(x)),
        (0xF, _, 0x1, 0xE) => Some(Instruction::AddIVx(x)),
        (0xF, _, 0x2, 0x9) => Some(Instruction::LdFVx(x)),
        (0xF, _, 0x3, 0x3) => Some(Instruction::LdBVx(x)),
        (0xF, _, 0x5, 0x5) => Some(Instruction::StoreRegs(x)),
        (0xF, _, 0x6, 0x5) => Some(Instruction::LoadRegs(x)),
        _ => None,
    }
}

} // verus!
