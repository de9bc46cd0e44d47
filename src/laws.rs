use vstd::prelude::*;

use crate::cpu::{execute_spec, flag, step_spec, Fault, Machine};
use crate::instr::Instruction;
use crate::mem::{glyph_table, initial_memory};

verus! {

/// `6xkk` leaves exactly `kk` in `Vx`, for every `kk`.
pub proof fn lemma_load_immediate(m: Machine, x: u8, kk: u8, rnd: u8)
    requires
        x < 16,
        m.v.len() == 16,
    ensures
        execute_spec(m, Instruction::LdImm(x, kk), rnd) matches Ok(m2) && m2.v[x as int] == kk,
{
}

/// A step on the instruction word `6xkk` leaves exactly `kk` in `Vx` and
/// moves on to the next instruction.
pub proof fn lemma_step_load_immediate(m: Machine, x: u8, kk: u8, rnd: u8)
    requires
        x < 16,
        m.v.len() == 16,
        m.mem.len() == 4096,
        m.waiting is None,
        m.pc < 4095,
        m.mem[m.pc as int] == 0x60 + x,
        m.mem[m.pc + 1] == kk,
    ensures
        step_spec(m, rnd) matches Ok(m2) && m2.v[x as int] == kk && m2.pc == m.pc + 2,
{
    let op = (m.mem[m.pc as int] * 256 + m.mem[m.pc + 1]) as u16;
    assert(op / 4096 == 6 && op / 256 % 16 == x && op % 256 == kk) by (nonlinear_arith)
        requires op == (0x60 + x) * 256 + kk, x < 16, kk < 256;
}

/// `7xkk` adds modulo 256 and touches no other register: no carry shows
/// in `VF`.
pub proof fn lemma_add_immediate_wraps(m: Machine, x: u8, kk: u8, rnd: u8)
    requires
        x < 16,
        m.v.len() == 16,
    ensures
        execute_spec(m, Instruction::AddImm(x, kk), rnd) matches Ok(m2) && m2.v[x as int] == (m.v[x as int]
            + kk) % 256 && forall|j: int| 0 <= j < 16 && j != x ==> m2.v[j] == m.v[j],
{
}

/// For registers other than `VF`: `8xy4` leaves the sum modulo 256 in `Vx`
/// and the carry in `VF`; `8xy5` leaves the difference modulo 256 in `Vx`
/// and 1 in `VF` exactly when `Vx > Vy`.
pub proof fn lemma_carry_and_borrow(m: Machine, x: u8, y: u8, rnd: u8)
    requires
        x < 15,
        y < 15,
        m.v.len() == 16,
    ensures
        execute_spec(m, Instruction::AddReg(x, y), rnd) matches Ok(m2) && m2.v[15] == flag(
            m.v[x as int] + m.v[y as int] > 255,
        ) && m2.v[x as int] == (m.v[x as int] + m.v[y as int]) % 256,
        execute_spec(m, Instruction::Sub(x, y), rnd) matches Ok(m2) && m2.v[15] == flag(
            m.v[x as int] > m.v[y as int],
        ) && m2.v[x as int] == (m.v[x as int] - m.v[y as int]) % 256,
{
}

/// For registers other than `VF`, `8xy6` shifts `Vy` into `Vx` with the
/// legacy shift on and `Vx` itself with it off; the bit shifted out goes
/// to `VF`.
pub proof fn lemma_shift_right_source(m: Machine, x: u8, y: u8, rnd: u8)
    requires
        x < 15,
        y < 15,
        m.v.len() == 16,
    ensures
        ({
            let s = if m.legacy_shl_shr { y as int } else { x as int };
            execute_spec(m, Instruction::Shr(x, y), rnd) matches Ok(m2) && m2.v[15] == m.v[s] & 1
                && m2.v[x as int] == m.v[s] >> 1u8
        }),
{
}

/// A call fails exactly when sixteen return addresses are stored, a
/// return exactly when none is; a call followed by a return comes back
/// to the instruction after the call with the stack as it was.
pub proof fn lemma_stack_discipline(m: Machine, nnn: u16, rnd: u8)
    requires
        m.pc < 4095,
    ensures
        execute_spec(m, Instruction::Call(nnn), rnd) is Err <==> m.stack.len() >= 16,
        m.stack.len() >= 16 ==> execute_spec(m, Instruction::Call(nnn), rnd) == Err::<Machine, _>(
            Fault::StackOverflow,
        ),
        execute_spec(m, Instruction::Ret, rnd) is Err <==> m.stack.len() == 0,
        m.stack.len() == 0 ==> execute_spec(m, Instruction::Ret, rnd) == Err::<Machine, _>(
            Fault::StackUnderflow,
        ),
        m.stack.len() < 16 ==> (execute_spec(m, Instruction::Call(nnn), rnd) matches Ok(m1)
            && m1.stack.len() == m.stack.len() + 1 && m1.pc == nnn
            && (execute_spec(m1, Instruction::Ret, rnd) matches Ok(m2) && m2.pc == m.pc + 2
            && m2.stack == m.stack)),
{
    if m.stack.len() < 16 {
        let m1 = Machine { stack: m.stack.push(m.pc), pc: nnn, ..m };
        assert(m1.stack.drop_last() =~= m.stack);
    }
}

/// `Fx29` on a freshly built machine points `I` at five bytes that are
/// the glyph of the digit in `Vx`.
pub proof fn lemma_glyph(m: Machine, x: u8, rnd: u8)
    requires
        x < 16,
        m.v.len() == 16,
        m.v[x as int] < 16,
        m.mem == initial_memory(),
    ensures
        execute_spec(m, Instruction::LdF(x), rnd) matches Ok(m2) && m2.i == 5 * m.v[x as int] && forall|k: int|
            0 <= k < 5 ==> #[trigger] m2.mem[m2.i + k] == glyph_table()[5 * m.v[x as int] + k],
{
}

/// `Fx33` writes three decimal digits at `I`, `I + 1`, `I + 2` whose
/// value is `Vx`.
pub proof fn lemma_bcd(m: Machine, x: u8, rnd: u8)
    requires
        x < 16,
        m.v.len() == 16,
        m.mem.len() == 4096,
        m.i + 2 < 4096,
    ensures
        execute_spec(m, Instruction::LdB(x), rnd) matches Ok(m2) && m2.mem[m.i as int] < 10 && m2.mem[m.i + 1]
            < 10 && m2.mem[m.i + 2] < 10 && 100 * m2.mem[m.i as int] + 10 * m2.mem[m.i + 1] + m2.mem[m.i
            + 2] == m.v[x as int],
{
}

/// `Fx55` then, whatever `V0..=Vx` hold afterwards and with `I` set back,
/// `Fx65` gives back the registers stored; `I` ends past them with the
/// legacy switch on and where it was with it off.
pub proof fn lemma_store_load_round_trip(m: Machine, x: u8, clobbered: Seq<u8>, rnd: u8)
    requires
        x < 16,
        m.v.len() == 16,
        m.mem.len() == 4096,
        m.i + x < 4096,
        clobbered.len() == 16,
        forall|j: int| x < j < 16 ==> clobbered[j] == m.v[j],
    ensures
        ({
            let r1 = execute_spec(m, Instruction::StoreRegs(x), rnd);
            let m1 = r1->Ok_0;
            let r3 = execute_spec(Machine { v: clobbered, i: m.i, ..m1 }, Instruction::LoadRegs(x), rnd);
            &&& r1 is Ok
            &&& m1.i == if m.legacy_ld_sta { m.i + x + 1 } else { m.i as int }
            &&& r3 is Ok
            &&& r3->Ok_0.v == m.v
            &&& r3->Ok_0.i == m1.i
        }),
{
    let m1 = execute_spec(m, Instruction::StoreRegs(x), rnd)->Ok_0;
    let m2 = Machine { v: clobbered, i: m.i, ..m1 };
    let m3 = execute_spec(m2, Instruction::LoadRegs(x), rnd)->Ok_0;
    assert(m3.v =~= m.v);
}

} // verus!
