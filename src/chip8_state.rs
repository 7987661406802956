use vstd::prelude::*;

verus! {

/// Number of general-purpose registers `V[0..16]`.
pub const V_SIZE: usize = 16;

/// Number of return addresses the call stack holds.
pub const STACK_SIZE: usize = 16;

/// Size of the byte-addressable memory.
pub const MEMORY_SIZE: usize = 4096;

/// Address at which programs are loaded and execution starts.
pub const PROGRAM_START: u16 = 0x200;

/// Registers, timers, call stack and memory of the machine.
#[derive(Debug)]
pub struct Chip8State {
    pub v: [u8; V_SIZE],
    pub i: u16,
    pub delay_timer: u8,
    pub sound_timer: u8,
    pub pc: u16,
    pub sp: u8,
    pub stack: [u16; STACK_SIZE],
    pub memory: [u8; MEMORY_SIZE],
}

/// A program does not fit in memory at the requested address.
#[derive(Clone, Copy, Debug, PartialEq, Eq, Structural)]
pub struct RomTooLarge {
    pub address: usize,
    pub length: usize,
}

/// The program that exercises every opcode once, followed by one unknown opcode.
pub open spec fn all_instructions_program() -> Seq<u8> {
    seq![
        0x00, 0xE0, 0x00, 0xEE, 0x01, 0x11, 0x12, 0x22, 0x23, 0x33, 0x3E, 0xAA, 0x4F, 0xBB,
        0x51, 0x20, 0x6F, 0x10, 0x70, 0x01, 0x81, 0x10, 0x82, 0x21, 0x83, 0x32, 0x84, 0x43,
        0x85, 0x54, 0x86, 0x65, 0x87, 0x76, 0x88, 0x87, 0x89, 0x9E, 0x98, 0x80, 0xA9, 0x99,
        0xBA, 0xAA, 0xCF, 0xBB, 0xD1, 0x23, 0xE0, 0x9E, 0xE0, 0xA1, 0xF1, 0x07, 0xF2, 0x0A,
        0xF3, 0x15, 0xF4, 0x18, 0xF5, 0x1E, 0xF6, 0x29, 0xF7, 0x33, 0xF8, 0x55, 0xF9, 0x65,
        0xFA, 0x81,
    ]
}

/// Memory with every byte zero.
pub open spec fn zeroed_memory() -> Seq<u8> {
    Seq::new(4096, |k: int| 0u8)
}

/// `mem` after copying `bytes` into it starting at `address`.
pub open spec fn copy_into(mem: Seq<u8>, bytes: Seq<u8>, address: int) -> Seq<u8> {
    Seq::new(
        mem.len(),
        |k: int|
            if address <= k < address + bytes.len() {
                bytes[k - address]
            } else {
                mem[k]
            },
    )
}

impl Chip8State {
    /// Whether registers, timers and stack are those of a freshly started
    /// machine: execution at the program start, everything else zero.
    pub open spec fn registers_initial(&self) -> bool {
        &&& self.v@ == Seq::new(16, |k: int| 0u8)
        &&& self.i == 0
        &&& self.delay_timer == 0
        &&& self.sound_timer == 0
        &&& self.pc == PROGRAM_START
        &&& self.sp == 0
        &&& self.stack@ == Seq::new(16, |k: int| 0u16)
    }

    /// Whether this is the state of a freshly started machine.
    pub open spec fn is_initial(&self) -> bool {
        &&& self.registers_initial()
        &&& self.memory@ == zeroed_memory()
    }

    /// Whether `other` differs from `self` at most in memory.
    pub open spec fn same_but_memory(&self, other: &Chip8State) -> bool {
        &&& self.v == other.v
        &&& self.i == other.i
        &&& self.delay_timer == other.delay_timer
        &&& self.sound_timer == other.sound_timer
        &&& self.pc == other.pc
        &&& self.sp == other.sp
        &&& self.stack == other.stack
    }

    /// A zeroed machine with the program counter at the program start.
    pub fn new() -> (r: Self)
        ensures
            r.is_initial(),
    {
        let r = Self {
            v: [0; V_SIZE],
            i: 0,
            delay_timer: 0,
            sound_timer: 0,
            pc: PROGRAM_START,
            sp: 0,
            stack: [0; STACK_SIZE],
            memory: [0; MEMORY_SIZE],
        };
        assert(r.v@ =~= Seq::new(16, |k: int| 0u8));
        assert(r.stack@ =~= Seq::new(16, |k: int| 0u16));
        assert(r.memory@ =~= zeroed_memory());
        r
    }

    /// A fresh machine whose memory holds, at the program start, one instance
    /// of every opcode followed by an unknown one.
    pub fn with_all_instructions() -> (r: Chip8State)
        ensures
            r.registers_initial(),
            r.memory@ == copy_into(zeroed_memory(), all_instructions_program(), PROGRAM_START as int),
    {
        let mut chip8 = Chip8State::new();
        let instructions: [u8; 72] = [
            0x00, 0xE0, 0x00, 0xEE, 0x01, 0x11, 0x12, 0x22, 0x23, 0x33, 0x3E, 0xAA, 0x4F, 0xBB,
            0x51, 0x20, 0x6F, 0x10, 0x70, 0x01, 0x81, 0x10, 0x82, 0x21, 0x83, 0x32, 0x84, 0x43,
            0x85, 0x54, 0x86, 0x65, 0x87, 0x76, 0x88, 0x87, 0x89, 0x9E, 0x98, 0x80, 0xA9, 0x99,
            0xBA, 0xAA, 0xCF, 0xBB, 0xD1, 0x23, 0xE0, 0x9E, 0xE0, 0xA1, 0xF1, 0x07, 0xF2, 0x0A,
            0xF3, 0x15, 0xF4, 0x18, 0xF5, 0x1E, 0xF6, 0x29, 0xF7, 0x33, 0xF8, 0x55, 0xF9, 0x65,
            0xFA, 0x81,
        ];
        assert(instructions@ =~= all_instructions_program());
        let mut i: usize = 0;
        while i < instructions.len()
            invariant
                i <= instructions@.len(),
                instructions@ == all_instructions_program(),
                chip8.registers_initial(),
                chip8.memory@ == copy_into(
                    zeroed_memory(),
                    all_instructions_program().take(i as int),
                    PROGRAM_START as int,
                ),
            decreases instructions.len() - i,
        {
            chip8.memory[0x200 + i] = instructions[i];
            i = i + 1;
            assert(chip8.memory@ =~= copy_into(
                zeroed_memory(),
                all_instructions_program().take(i as int),
                PROGRAM_START as int,
            ));
        }
        assert(all_instructions_program().take(72) =~= all_instructions_program());
        chip8
    }

    /// Copies `rom` into memory starting at `address`. Fails, leaving the
    /// state unchanged, when the program would run past the end of memory.
    pub fn load_rom(&mut self, rom: &[u8], address: usize) -> (r: Result<(), RomTooLarge>)
        ensures
            final(self).same_but_memory(old(self)),
            address + rom@.len() <= MEMORY_SIZE ==> r is Ok && final(self).memory@ == copy_into(
                old(self).memory@,
                rom@,
                address as int,
            ),
            address + rom@.len() > MEMORY_SIZE ==> r == Err::<(), RomTooLarge>(
                (RomTooLarge { address, length: rom@.len() as usize }),
            ) && final(self).memory == old(self).memory,
    {
        if rom.len() > MEMORY_SIZE || address > MEMORY_SIZE - rom.len() {
            return Err(RomTooLarge { address, length: rom.len() });
        }
        let mut k: usize = 0;
        while k < rom.len()
            invariant
                k <= rom@.len(),
                address + rom@.len() <= MEMORY_SIZE,
                self.same_but_memory(old(self)),
                self.memory@ == copy_into(old(self).memory@, rom@.take(k as int), address as int),
            decreases rom.len() - k,
        {
            self.memory[address + k] = rom[k];
            k = k + 1;
            assert(self.memory@ =~= copy_into(old(self).memory@, rom@.take(k as int), address as int));
        }
        assert(rom@.take(rom@.len() as int) =~= rom@);
        Ok(())
    }
}

} // verus!
