use vstd::prelude::*;
use vstd::string::*;

use crate::chip8_state::{Chip8State, MEMORY_SIZE};
use crate::instruction::{decode_instruction, decode_spec, Instruction};

verus! {

/// The upper-case hexadecimal digit for `d < 16`.
pub open spec fn hex_char(d: nat) -> char {
    seq!['0', '1', '2', '3', '4', '5', '6', '7', '8', '9', 'A', 'B', 'C', 'D', 'E', 'F'][d as int]
}

/// `n` in upper-case hexadecimal, without leading zeros but padded with
/// zeros to at least `width` digits (and at least one digit).
pub open spec fn hex_digits(n: nat, width: nat) -> Seq<char>
    decreases n, width,
{
    if n < 16 && width <= 1 {
        seq![hex_char(n)]
    } else {
        hex_digits(n / 16, if width > 0 { (width - 1) as nat } else { 0 }) + seq![hex_char(n % 16)]
    }
}

/// A register operand, `V` and its index.
pub open spec fn reg_text(x: u8) -> Seq<char> {
    "V"@ + hex_digits(x as nat, 1)
}

/// A byte operand, `0x` and two digits.
pub open spec fn byte_text(b: u8) -> Seq<char> {
    "0x"@ + hex_digits(b as nat, 2)
}

/// An address operand, `0x` and three digits.
pub open spec fn addr_text(a: u16) -> Seq<char> {
    "0x"@ + hex_digits(a as nat, 3)
}

/// The mnemonic form of a decoded instruction, or `Unknown instruction`.
pub open spec fn mnemonic(op: Option<Instruction>) -> Seq<char> {
    match op {
        None => "Unknown instruction"@,
        Some(Instruction::Cls) => "CLS"@,
        Some(Instruction::Ret) => "RET"@,
        Some(Instruction::Sys(a)) => "SYS "@ + addr_text(a),
        Some(Instruction::Jp(a)) => "JP "@ + addr_text(a),
        Some(Instruction::Call(a)) => "CALL "@ + addr_text(a),
        Some(Instruction::SeByte(x, kk)) => "SE "@ + reg_text(x) + ", "@ + byte_text(kk),
        Some(Instruction::SneByte(x, kk)) => "SNE "@ + reg_text(x) + ", "@ + byte_text(kk),
        Some(Instruction::SeReg(x, y)) => "SE "@ + reg_text(x) + ", "@ + reg_text(y),
        Some(Instruction::LdByte(x, kk)) => "LD "@ + reg_text(x) + ", "@ + byte_text(kk),
        Some(Instruction::AddByte(x, kk)) => "ADD "@ + reg_text(x) + ", "@ + byte_text(kk),
        Some(Instruction::LdReg(x, y)) => "LD "@ + reg_text(x) + ", "@ + reg_text(y),
        Some(Instruction::Or(x, y)) => "OR "@ + reg_text(x) + ", "@ + reg_text(y),
        Some(Instruction::And(x, y)) => "AND "@ + reg_text(x) + ", "@ + reg_text(y),
        Some(Instruction::Xor(x, y)) => "XOR "@ + reg_text(x) + ", "@ + reg_text(y),
        Some(Instruction::AddReg(x, y)) => "ADD "@ + reg_text(x) + ", "@ + reg_text(y),
        Some(Instruction::Sub(x, y)) => "SUB "@ + reg_text(x) + ", "@ + reg_text(y),
        Some(Instruction::Shr(x)) => "SHR "@ + reg_text(x),
        Some(Instruction::Subn(x, y)) => "SUBN "@ + reg_text(x) + ", "@ + reg_text(y),
        Some(Instruction::Shl(x)) => "SHL "@ + reg_text(x),
        Some(Instruction::SneReg(x, y)) => "SNE "@ + reg_text(x) + ", "@ + reg_text(y),
        Some(Instruction::LdI(a)) => "LD I, "@ + addr_text(a),
        Some(Instruction::JpV0(a)) => "JP V0, "@ + addr_text(a),
        Some(Instruction::Rnd(x, kk)) => "RND "@ + reg_text(x) + ", "@ + hex_digits(kk as nat, 1),
        Some(Instruction::Drw(x, y, n)) => "DRW "@ + reg_text(x) + ", "@ + reg_text(y) + ", 0x"@
            + hex_digits(n as nat, 1),
        Some(Instruction::Skp(x)) => "SKP "@ + reg_text(x),
        Some(Instruction::Sknp(x)) => "SKNP "@ + reg_text(x),
        Some(Instruction::LdVxDt(x)) => "LD "@ + reg_text(x) + ", DT"@,
        Some(Instruction::LdVxK(x)) => "LD "@ + reg_text(x) + ", K"@,
        Some(Instruction::LdDtVx(x)) => "LD DT, "@ + reg_text(x),
        Some(Instruction::LdStVx(x)) => "LD ST, "@ + reg_text(x),
        Some(Instruction::AddIVx(x)) => "ADD I, "@ + reg_text(x),
        Some(Instruction::LdFVx(x)) => "LD F, "@ + reg_text(x),
        Some(Instruction::LdBVx(x)) => "LD B, "@ + reg_text(x),
        Some(Instruction::StoreRegs(x)) => "LD [I], "@ + reg_text(x),
        Some(Instruction::LoadRegs(x)) => "LD "@ + reg_text(x) + ", [I]"@,
    }
}

/// A textual, side-effect-free view of the instruction stored at an address.
pub trait DisassemblyOutput {
    /// Whether an instruction can be read at `address`.
    spec fn can_disassemble(&self, address: usize) -> bool;

    /// The text produced for the instruction at `address`.
    spec fn disassembly(&self, address: usize) -> Seq<char>;

    /// The text for the instruction at `address`; changes nothing.
    fn disassemble(&self, address: usize) -> (r: String)
        requires
            self.can_disassemble(address),
        ensures
            r@ == self.disassembly(address),
    ;
}

impl DisassemblyOutput for Chip8State {
    /// Both bytes of the instruction lie in memory.
    open spec fn can_disassemble(&self, address: usize) -> bool {
        address + 1 < MEMORY_SIZE
    }

    /// `0x` and the address, the two instruction bytes, and the mnemonic,
    /// as in `0x200: 00E0 -> CLS`.
    open spec fn disassembly(&self, address: usize) -> Seq<char> {
        let hi = self.memory@[address as int];
        let lo = self.memory@[address + 1];
        "0x"@ + hex_digits(address as nat, 2) + ": "@ + hex_digits(hi as nat, 2) + hex_digits(
            lo as nat,
            2,
        ) + " -> "@ + mnemonic(decode_spec(hi, lo))
    }

    fn disassemble(&self, address: usize) -> (r: String) {
        let hi = self.memory[address];
        let lo = self.memory[address + 1];
        let mut s = String::from_str("0x");
        push_hex(&mut s, address as u32, 2);
        s.append(": ");
        push_hex(&mut s, hi as u32, 2);
        push_hex(&mut s, lo as u32, 2);
        s.append(" -> ");
        let text = decrypt_chip8_instruction(&[hi, lo]);
        s.append(text.as_str());
        s
    }
}

/// The one-character string of the hexadecimal digit `d`.
fn hex_digit(d: u32) -> (r: &'static str)
    requires
        d < 16,
    ensures
        r@ == seq![hex_char(d as nat)],
{
    proof {
        reveal_strlit("0");
        reveal_strlit("1");
        reveal_strlit("2");
        reveal_strlit("3");
        reveal_strlit("4");
        reveal_strlit("5");
        reveal_strlit("6");
        reveal_strlit("7");
        reveal_strlit("8");
        reveal_strlit("9");
        reveal_strlit("A");
        reveal_strlit("B");
        reveal_strlit("C");
        reveal_strlit("D");
        reveal_strlit("E");
        reveal_strlit("F");
    }
    match d {
        0 => "0",
        1 => "1",
        2 => "2",
        3 => "3",
        4 => "4",
        5 => "5",
        6 => "6",
        7 => "7",
        8 => "8",
        9 => "9",
        10 => "A",
        11 => "B",
        12 => "C",
        13 => "D",
        14 => "E",
        _ => "F",
    }
}

/// Appends `n` in hexadecimal, zero-padded to at least `width` digits.
fn push_hex(s: &mut String, n: u32, width: u32)
    ensures
        final(s)@ == old(s)@ + hex_digits(n as nat, width as nat),
    decreases n, width,
{
    if n < 16 && width <= 1 {
        s.append(hex_digit(n));
    } else {
        let ghost start = s@;
        push_hex(s, n / 16, if width > 0 { width - 1 } else { 0 });
        s.append(hex_digit(n % 16));
        assert(s@ =~= start + hex_digits(n as nat, width as nat));
    }
}

/// Appends a register operand.
fn push_reg(s: &mut String, x: u8)
    ensures
        final(s)@ == old(s)@ + reg_text(x),
{
    let ghost start = s@;
    s.append("V");
    push_hex(s, x as u32, 1);
    assert(s@ =~= start + reg_text(x));
}

/// Appends a byte operand.
fn push_byte(s: &mut String, b: u8)
    ensures
        final(s)@ == old(s)@ + byte_text(b),
{
    let ghost start = s@;
    s.append("0x");
    push_hex(s, b as u32, 2);
    assert(s@ =~= start + byte_text(b));
}

/// Appends an address operand.
fn push_addr(s: &mut String, a: u16)
    ensures
        final(s)@ == old(s)@ + addr_text(a),
{
    let ghost start = s@;
    s.append("0x");
    push_hex(s, a as u32, 3);
    assert(s@ =~= start + addr_text(a));
}

/// The mnemonic form of the two-byte instruction at the start of `instruction`.
pub fn decrypt_chip8_instruction(instruction: &[u8]) -> (r: String)
    requires
        instruction@.len() >= 2,
    ensures
        r@ == mnemonic(decode_spec(instruction@[0], instruction@[1])),
{
    let op = decode_instruction(instruction[0], instruction[1]);
    match op {
        None => String::from_str("Unknown instruction"),
        Some(Instruction::Cls) => String::from_str("CLS"),
        Some(Instruction::Ret) => String::from_str("RET"),
        Some(Instruction::Sys(a)) => {
            let mut s = String::from_str("SYS ");
            push_addr(&mut s, a);
            s
        },
        Some(Instruction::Jp(a)) => {
            let mut s = String::from_str("JP ");
            push_addr(&mut s, a);
            s
        },
        Some(Instruction::Call(a)) => {
            let mut s = String::from_str("CALL ");
            push_addr(&mut s, a);
            s
        },
        Some(Instruction::SeByte(x, kk)) => reg_and_byte("SE ", x, kk),
        Some(Instruction::SneByte(x, kk)) => reg_and_byte("SNE ", x, kk),
        Some(Instruction::SeReg(x, y)) => two_regs("SE ", x, y),
        Some(Instruction::LdByte(x, kk)) => reg_and_byte("LD ", x, kk),
        Some(Instruction::AddByte(x, kk)) => reg_and_byte("ADD ", x, kk),
        Some(Instruction::LdReg(x, y)) => two_regs("LD ", x, y),
        Some(Instruction::Or(x, y)) => two_regs("OR ", x, y),
        Some(Instruction::And(x, y)) => two_regs("AND ", x, y),
        Some(Instruction::Xor(x, y)) => two_regs("XOR ", x, y),
        Some(Instruction::AddReg(x, y)) => two_regs("ADD ", x, y),
        Some(Instruction::Sub(x, y)) => two_regs("SUB ", x, y),
        Some(Instruction::Shr(x)) => one_reg("SHR ", x),
        Some(Instruction::Subn(x, y)) => two_regs("SUBN ", x, y),
        Some(Instruction::Shl(x)) => one_reg("SHL ", x),
        Some(Instruction::SneReg(x, y)) => two_regs("SNE ", x, y),
        Some(Instruction::LdI(a)) => {
            let mut s = String::from_str("LD I, ");
            push_addr(&mut s, a);
            s
        },
        Some(Instruction::JpV0(a)) => {
            let mut s = String::from_str("JP V0, ");
            push_addr(&mut s, a);
            s
        },
        Some(Instruction::Rnd(x, kk)) => {
            let mut s = String::from_str("RND ");
            push_reg(&mut s, x);
            s.append(", ");
            push_hex(&mut s, kk as u32, 1);
            s
        },
        Some(Instruction::Drw(x, y, n)) => {
            let mut s = two_regs("DRW ", x, y);
            s.append(", 0x");
            push_hex(&mut s, n as u32, 1);
            s
        },
        Some(Instruction::Skp(x)) => one_reg("SKP ", x),
        Some(Instruction::Sknp(x)) => one_reg("SKNP ", x),
        Some(Instruction::LdVxDt(x)) => {
            let mut s = one_reg("LD ", x);
            s.append(", DT");
            s
        },
        Some(Instruction::LdVxK(x)) => {
            let mut s = one_reg("LD ", x);
            s.append(", K");
            s
        },
        Some(Instruction::LdDtVx(x)) => one_reg("LD DT, ", x),
        Some(Instruction::LdStVx(x)) => one_reg("LD ST, ", x),
        Some(Instruction::AddIVx(x)) => one_reg("ADD I, ", x),
        Some(Instruction::LdFVx(x)) => one_reg("LD F, ", x),
        Some(Instruction::LdBVx(x)) => one_reg("LD B, ", x),
        Some(Instruction::StoreRegs(x)) => one_reg("LD [I], ", x),
        Some(Instruction::LoadRegs(x)) => {
            let mut s = one_reg("LD ", x);
            s.append(", [I]");
            s
        },
    }
}

/// `name` followed by a register operand.
fn one_reg(name: &str, x: u8) -> (r: String)
    ensures
        r@ == name@ + reg_text(x),
{
    let mut s = String::from_str(name);
    push_reg(&mut s, x);
    s
}

/// `name` followed by two register operands.
fn two_regs(name: &str, x: u8, y: u8) -> (r: String)
    ensures
        r@ == name@ + reg_text(x) + ", "@ + reg_text(y),
{
    let mut s = one_reg(name, x);
    s.append(", ");
    push_reg(&mut s, y);
    s
}

/// `name` followed by a register and a byte operand.
fn reg_and_byte(name: &str, x: u8, kk: u8) -> (r: String)
    ensures
        r@ == name@ + reg_text(x) + ", "@ + byte_text(kk),
{
    let mut s = one_reg(name, x);
    s.append(", ");
    push_byte(&mut s, kk);
    s
}

} // verus!
