use vstd::prelude::*;

use crate::chip8_state::copy_into;
use crate::instruction::Instruction;
use crate::machine_spec::{cycle_spec, next_instruction, MachineView};

verus! {

/// Whether `m` has the shape of a machine: sixteen registers, a sixteen-slot
/// stack, 4096 bytes of memory, a 64×32 framebuffer and sixteen keys.
pub open spec fn well_formed(m: MachineView) -> bool {
    &&& m.v.len() == 16
    &&& m.stack.len() == 16
    &&& m.memory.len() == 4096
    &&& m.display.len() == 32
    &&& forall|y: int| 0 <= y < 32 ==> #[trigger] m.display[y].len() == 64
    &&& m.keyboard.len() == 16
}

/// A cycle that executes `CLS` succeeds and leaves every framebuffer cell
/// off, whatever was on before.
pub proof fn lemma_cls_clears_every_cell(m: MachineView, random: u8, x: int, y: int)
    requires
        next_instruction(m) == Some(Instruction::Cls),
        0 <= x < 64,
        0 <= y < 32,
    ensures
        cycle_spec(m, random) is Ok,
        !cycle_spec(m, random)->Ok_0.display[y][x],
{
}

/// A `RET` executed right after a successful `CALL` returns to the address
/// that follows the `CALL`, and pops exactly the one entry the call pushed.
pub proof fn lemma_ret_after_call(m: MachineView, r1: u8, r2: u8)
    requires
        well_formed(m),
        next_instruction(m) matches Some(Instruction::Call(_)),
        cycle_spec(m, r1) is Ok,
        next_instruction(cycle_spec(m, r1)->Ok_0) == Some(Instruction::Ret),
    ensures
        ({
            let m1 = cycle_spec(m, r1)->Ok_0;
            &&& cycle_spec(m1, r2) is Ok
            &&& cycle_spec(m1, r2)->Ok_0.pc == m.pc + 2
            &&& cycle_spec(m1, r2)->Ok_0.sp == m1.sp - 1
            &&& cycle_spec(m1, r2)->Ok_0.sp == m.sp
        }),
{
}

/// Storing all registers at `I` (`LD [I], Vx`) and then loading them back
/// from `I` (`LD Vx, [I]`) gives back the registers as they were.
pub proof fn lemma_store_then_load_restores_registers(m: MachineView, r1: u8, r2: u8)
    requires
        well_formed(m),
        next_instruction(m) matches Some(Instruction::StoreRegs(_)),
        cycle_spec(m, r1) is Ok,
        next_instruction(cycle_spec(m, r1)->Ok_0) matches Some(Instruction::LoadRegs(_)),
    ensures
        cycle_spec(cycle_spec(m, r1)->Ok_0, r2) is Ok,
        cycle_spec(cycle_spec(m, r1)->Ok_0, r2)->Ok_0.v == m.v,
{
    let m1 = cycle_spec(m, r1)->Ok_0;
    assert(m1.memory == copy_into(m.memory, m.v, m.i as int));
    assert(m1.memory.subrange(m.i as int, m.i + 16) =~= m.v);
}

} // verus!
