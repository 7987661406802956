pub mod chip8_machine;
pub mod chip8_state;
pub mod disassembly;
pub mod instruction;
pub mod laws;
pub mod machine_spec;
mod random;
