use vstd::prelude::*;

use crate::gfx::{blank, draw_collides, draw_rows, pixel_index, Screen, HEIGHT, WIDTH};
use crate::instr::{decode, decode_spec, ins_wf, Instruction};
use crate::mem::{initial_memory, Memory, Registers, Stack, MEM_SIZE, NUM_REGS, PROGRAM_START, STACK_SIZE};

verus! {

/// The largest program that fits above the reserved area.
pub const MAX_ROM_SIZE: usize = 3584;

/// A condition that stops the machine.
#[derive(Clone, Copy, Debug, PartialEq, Eq, Structural)]
pub enum Fault {
    /// The word at the program counter encodes no instruction.
    InvalidOpcode(u16),
    /// A call with sixteen return addresses already stored.
    StackOverflow,
    /// A return with no return address stored.
    StackUnderflow,
    /// An access past the last address of memory.
    AddressOutOfRange,
    /// A key test on a register that holds no key number (above 15).
    InvalidKey(u8),
}

/// Why a program was not loaded.
#[derive(Clone, Copy, Debug, PartialEq, Eq, Structural)]
pub enum LoadError {
    /// The program does not fit between its start address and the end of memory.
    TooLarge,
}

/// The whole observable state of the machine.
#[verifier::ext_equal]
pub struct Machine {
    /// The 4096 bytes of memory.
    pub mem: Seq<u8>,
    /// The sixteen general registers.
    pub v: Seq<u8>,
    /// The address register.
    pub i: u16,
    /// The delay timer.
    pub dt: u8,
    /// The sound timer.
    pub st: u8,
    /// The stored return addresses, bottom first.
    pub stack: Seq<u16>,
    /// The program counter.
    pub pc: u16,
    /// The 64x32 pixels, row-major.
    pub screen: Seq<bool>,
    /// Which of the sixteen keys are down.
    pub input: Seq<bool>,
    /// The register that receives the next key press, while the machine
    /// waits for one.
    pub waiting: Option<u8>,
    /// Whether `Fx55` and `Fx65` advance `I` past the registers they move.
    pub legacy_ld_sta: bool,
    /// Whether `8xy6` and `8xyE` shift `Vy` rather than `Vx`.
    pub legacy_shl_shr: bool,
}

/// The state of a machine just built.
pub open spec fn initial_machine() -> Machine {
    Machine {
        mem: initial_memory(),
        v: Seq::new(16, |k: int| 0u8),
        i: 0,
        dt: 0,
        st: 0,
        stack: Seq::empty(),
        pc: 512,
        screen: blank(),
        input: Seq::new(16, |k: int| false),
        waiting: None,
        legacy_ld_sta: false,
        legacy_shl_shr: false,
    }
}

/// 1 for true, 0 for false.
pub open spec fn flag(b: bool) -> u8 {
    if b {
        1
    } else {
        0
    }
}

/// `m` with register `x` set to `val`.
pub open spec fn with_v(m: Machine, x: int, val: u8) -> Machine {
    Machine { v: m.v.update(x, val), ..m }
}

/// `m` with the program counter moved on by `k` instructions.
pub open spec fn advance(m: Machine, k: int) -> Machine {
    Machine { pc: (m.pc + 2 * k) as u16, ..m }
}

/// `m` moved on past the next instruction, and past one more if `skip`.
pub open spec fn skip_if(m: Machine, skip: bool) -> Machine {
    advance(m, if skip { 2 } else { 1 })
}

/// The register that `8xy6` and `8xyE` read.
pub open spec fn shift_source(m: Machine, x: u8, y: u8) -> int {
    if m.legacy_shl_shr {
        y as int
    } else {
        x as int
    }
}

/// What executing `ins` does to `m`, with `rnd` as the random byte that
/// `Cxkk` draws, or the fault that stops it.
pub open spec fn execute_spec(m: Machine, ins: Instruction, rnd: u8) -> Result<Machine, Fault> {
    match ins {
        Instruction::Cls => Ok(advance(Machine { screen: blank(), ..m }, 1)),
        Instruction::Ret => if m.stack.len() == 0 {
            Err(Fault::StackUnderflow)
        } else {
            Ok(Machine { pc: ((m.stack.last() + 2) % 65536) as u16, stack: m.stack.drop_last(), ..m })
        },
        Instruction::Sys(_) => Ok(advance(m, 1)),
        Instruction::Jp(nnn) => Ok(Machine { pc: nnn, ..m }),
        Instruction::Call(nnn) => if m.stack.len() >= 16 {
            Err(Fault::StackOverflow)
        } else {
            Ok(Machine { stack: m.stack.push(m.pc), pc: nnn, ..m })
        },
        Instruction::SeImm(x, kk) => Ok(skip_if(m, m.v[x as int] == kk)),
        Instruction::SneImm(x, kk) => Ok(skip_if(m, m.v[x as int] != kk)),
        Instruction::SeReg(x, y) => Ok(skip_if(m, m.v[x as int] == m.v[y as int])),
        Instruction::LdImm(x, kk) => Ok(advance(with_v(m, x as int, kk), 1)),
        Instruction::AddImm(x, kk) => Ok(
            advance(with_v(m, x as int, ((m.v[x as int] + kk) % 256) as u8), 1),
        ),
        Instruction::LdReg(x, y) => Ok(advance(with_v(m, x as int, m.v[y as int]), 1)),
        Instruction::Or(x, y) => Ok(advance(with_v(m, x as int, m.v[x as int] | m.v[y as int]), 1)),
        Instruction::And(x, y) => Ok(advance(with_v(m, x as int, m.v[x as int] & m.v[y as int]), 1)),
        Instruction::Xor(x, y) => Ok(advance(with_v(m, x as int, m.v[x as int] ^ m.v[y as int]), 1)),
        Instruction::AddReg(x, y) => {
            let sum = m.v[x as int] + m.v[y as int];
            let m1 = with_v(m, 15, flag(sum > 255));
            Ok(advance(with_v(m1, x as int, (sum % 256) as u8), 1))
        },
        Instruction::Sub(x, y) => {
            let m1 = with_v(m, 15, flag(m.v[x as int] > m.v[y as int]));
            Ok(advance(with_v(m1, x as int, ((m1.v[x as int] - m1.v[y as int]) % 256) as u8), 1))
        },
        Instruction::Shr(x, y) => {
            let s = shift_source(m, x, y);
            let m1 = with_v(m, 15, m.v[s] & 1);
            Ok(advance(with_v(m1, x as int, m1.v[s] >> 1u8), 1))
        },
        Instruction::Subn(x, y) => {
            let m1 = with_v(m, 15, flag(m.v[y as int] > m.v[x as int]));
            Ok(advance(with_v(m1, x as int, ((m1.v[y as int] - m1.v[x as int]) % 256) as u8), 1))
        },
        Instruction::Shl(x, y) => {
            let s = shift_source(m, x, y);
            let m1 = with_v(m, 15, (m.v[s] & 0x80) >> 7u8);
            Ok(advance(with_v(m1, x as int, ((m1.v[s] * 2) % 256) as u8), 1))
        },
        Instruction::SneReg(x, y) => Ok(skip_if(m, m.v[x as int] != m.v[y as int])),
        Instruction::LdI(nnn) => Ok(advance(Machine { i: nnn, ..m }, 1)),
        Instruction::JpV0(nnn) => Ok(Machine { pc: (nnn + m.v[0]) as u16, ..m }),
        Instruction::Rnd(x, kk) => Ok(advance(with_v(m, x as int, rnd & kk), 1)),
        Instruction::Drw(x, y, n) => if m.i + n > 4096 {
            Err(Fault::AddressOutOfRange)
        } else {
            let rows = m.mem.subrange(m.i as int, m.i + n);
            let ox = m.v[x as int] as int;
            let oy = m.v[y as int] as int;
            let m1 = Machine { screen: draw_rows(m.screen, ox, oy, rows), ..m };
            Ok(advance(with_v(m1, 15, flag(draw_collides(m.screen, ox, oy, rows))), 1))
        },
        Instruction::Skp(x) => if m.v[x as int] >= 16 {
            Err(Fault::InvalidKey(m.v[x as int]))
        } else {
            Ok(skip_if(m, m.input[m.v[x as int] as int]))
        },
        Instruction::Sknp(x) => if m.v[x as int] >= 16 {
            Err(Fault::InvalidKey(m.v[x as int]))
        } else {
            Ok(skip_if(m, !m.input[m.v[x as int] as int]))
        },
        Instruction::LdVxDt(x) => Ok(advance(with_v(m, x as int, m.dt), 1)),
        Instruction::LdKey(x) => Ok(advance(Machine { waiting: Some(x), ..m }, 1)),
        Instruction::LdDt(x) => Ok(advance(Machine { dt: m.v[x as int], ..m }, 1)),
        Instruction::LdSt(x) => Ok(advance(Machine { st: m.v[x as int], ..m }, 1)),
        Instruction::AddI(x) => Ok(advance(Machine { i: ((m.i + m.v[x as int]) % 65536) as u16, ..m }, 1)),
        Instruction::LdF(x) => Ok(advance(Machine { i: (m.v[x as int] * 5) as u16, ..m }, 1)),
        Instruction::LdB(x) => if m.i + 2 >= 4096 {
            Err(Fault::AddressOutOfRange)
        } else {
            let vx = m.v[x as int];
            let mem = m.mem.update(m.i as int, vx / 100).update(m.i + 1, vx / 10 % 10).update(m.i + 2, vx % 10);
            Ok(advance(Machine { mem: mem, ..m }, 1))
        },
        Instruction::StoreRegs(x) => if m.i + x >= 4096 {
            Err(Fault::AddressOutOfRange)
        } else {
            let mem = Seq::new(
                m.mem.len(),
                |a: int| if m.i <= a <= m.i + x { m.v[a - m.i] } else { m.mem[a] },
            );
            let i = if m.legacy_ld_sta { (m.i + x + 1) as u16 } else { m.i };
            Ok(advance(Machine { mem: mem, i: i, ..m }, 1))
        },
        Instruction::LoadRegs(x) => if m.i + x >= 4096 {
            Err(Fault::AddressOutOfRange)
        } else {
            let v = Seq::new(m.v.len(), |k: int| if k <= x { m.mem[m.i + k] } else { m.v[k] });
            let i = if m.legacy_ld_sta { (m.i + x + 1) as u16 } else { m.i };
            Ok(advance(Machine { v: v, i: i, ..m }, 1))
        },
    }
}

/// The instruction word at the program counter, high byte first.
pub open spec fn opcode_at(m: Machine) -> u16 {
    (m.mem[m.pc as int] * 256 + m.mem[m.pc + 1]) as u16
}

/// What one step does to `m`, with `rnd` as the random byte that a `Cxkk`
/// would draw: nothing while the machine waits for a key; else fetch,
/// decode and execute the instruction at the program counter.
pub open spec fn step_spec(m: Machine, rnd: u8) -> Result<Machine, Fault> {
    if m.waiting is Some {
        Ok(m)
    } else if m.pc + 1 >= 4096 {
        Err(Fault::AddressOutOfRange)
    } else {
        match decode_spec(opcode_at(m)) {
            None => Err(Fault::InvalidOpcode(opcode_at(m))),
            Some(ins) => execute_spec(m, ins, rnd),
        }
    }
}

/// Whether a call that reported `r` and left the machine in `new` did what
/// `expected` describes for a machine that was in `old`: on a fault the
/// machine is left as it was.
pub open spec fn outcome(old: Machine, expected: Result<Machine, Fault>, r: Result<(), Fault>, new: Machine) -> bool {
    match expected {
        Ok(m) => r == Ok::<(), Fault>(()) && new == m,
        Err(e) => r == Err::<(), Fault>(e) && new == old,
    }
}

/// What setting key `key` to `pressed` does to `m`: a key that goes down
/// while the machine waits for one lands in the waiting register and ends
/// the wait. (The waiting register is always one of the sixteen: only
/// `Fx0A` sets it, from a four-bit field.)
pub open spec fn key_spec(m: Machine, key: u8, pressed: bool) -> Machine {
    let m1 = Machine { input: m.input.update(key as int, pressed), ..m };
    match m.waiting {
        Some(x) => if pressed && !m.input[key as int] && x < 16 {
            Machine { v: m1.v.update(x as int, key), waiting: None, ..m1 }
        } else {
            m1
        },
        None => m1,
    }
}

/// One 60 Hz tick: each timer above zero goes down by one.
pub open spec fn tick_spec(m: Machine) -> Machine {
    Machine {
        dt: if m.dt > 0 { (m.dt - 1) as u8 } else { 0 },
        st: if m.st > 0 { (m.st - 1) as u8 } else { 0 },
        ..m
    }
}

/// `m` with `rom` copied to memory from the program start on.
pub open spec fn load_spec(m: Machine, rom: Seq<u8>) -> Machine {
    Machine {
        mem: Seq::new(
            m.mem.len(),
            |a: int| if 512 <= a < 512 + rom.len() { rom[a - 512] } else { m.mem[a] },
        ),
        ..m
    }
}

} // verus!

verus! {

/// Relies on `rand::random::<u8>` (thread-local generator) for one byte;
/// nothing is known of its value.
#[verifier::external_body]
fn random_byte() -> (r: u8) {
    rand::random::<u8>()
}

/// The interpreter: memory, registers, call stack, display, keys and the
/// two legacy switches.
pub struct CPU {
    screen: Screen,
    input: [bool; 16],
    mem: Memory,
    regs: Registers,
    stack: Stack,
    pc: u16,
    waiting: Option<u8>,
    legacy_ld_sta: bool,
    legacy_shl_shr: bool,
}

impl View for CPU {
    type V = Machine;

    closed spec fn view(&self) -> Machine {
        Machine {
            mem: self.mem@,
            v: self.regs@,
            i: self.regs.i,
            dt: self.regs.dt,
            st: self.regs.st,
            stack: self.stack@,
            pc: self.pc,
            screen: self.screen@,
            input: self.input@,
            waiting: self.waiting,
            legacy_ld_sta: self.legacy_ld_sta,
            legacy_shl_shr: self.legacy_shl_shr,
        }
    }
}

/// The instructions that only move the program counter, clear the
/// display or use the stack.
spec fn is_flow(ins: Instruction) -> bool {
    match ins {
        Instruction::Cls | Instruction::Ret | Instruction::Sys(_) | Instruction::Jp(_)
        | Instruction::Call(_) | Instruction::SeImm(_, _) | Instruction::SneImm(_, _)
        | Instruction::SeReg(_, _) | Instruction::SneReg(_, _) | Instruction::JpV0(_) => true,
        _ => false,
    }
}

/// The instructions that set one register from registers and immediates.
spec fn is_alu(ins: Instruction) -> bool {
    match ins {
        Instruction::LdImm(_, _) | Instruction::AddImm(_, _) | Instruction::LdReg(_, _)
        | Instruction::Or(_, _) | Instruction::And(_, _) | Instruction::Xor(_, _)
        | Instruction::Rnd(_, _) => true,
        _ => false,
    }
}

/// The instructions that set a register and the flag register.
spec fn is_arith(ins: Instruction) -> bool {
    match ins {
        Instruction::AddReg(_, _) | Instruction::Sub(_, _) | Instruction::Shr(_, _)
        | Instruction::Subn(_, _) | Instruction::Shl(_, _) => true,
        _ => false,
    }
}

/// The instructions on timers, keys and the address register that
/// cannot fail but for a key number out of range.
spec fn is_misc(ins: Instruction) -> bool {
    match ins {
        Instruction::LdI(_) | Instruction::Skp(_) | Instruction::Sknp(_) | Instruction::LdVxDt(_)
        | Instruction::LdKey(_) | Instruction::LdDt(_) | Instruction::LdSt(_) | Instruction::AddI(_)
        | Instruction::LdF(_) => true,
        _ => false,
    }
}

impl CPU {
    /// A machine with the glyph table loaded, all registers, timers and
    /// keys clear, an empty stack, a blank display, the program counter at
    /// the program start and both legacy switches off.
    pub fn new() -> (r: CPU)
        ensures
            r@ == initial_machine(),
    {
        let r = CPU {
            screen: Screen::new(),
            input: [false; 16],
            mem: Memory::new(),
            regs: Registers::new(),
            stack: Stack::new(),
            pc: PROGRAM_START as u16,
            waiting: None,
            legacy_ld_sta: false,
            legacy_shl_shr: false,
        };
        assert(r.input@ =~= Seq::new(16, |k: int| false));
        assert(r@ =~= initial_machine());
        r
    }

    /// Sets register `x` to `val`.
    fn set_v(&mut self, x: u8, val: u8)
        requires
            x < NUM_REGS,
        ensures
            final(self)@ == with_v(old(self)@, x as int, val),
    {
        self.regs.setv(x, val);
        assert(self@ =~= with_v(old(self)@, x as int, val));
    }

    /// Moves the program counter on by `k` instructions.
    fn next(&mut self, k: u16)
        requires
            1 <= k <= 2,
            old(self)@.pc < 4095,
        ensures
            final(self)@ == advance(old(self)@, k as int),
    {
        self.pc = self.pc + 2 * k;
        assert(self@ =~= advance(old(self)@, k as int));
    }

    /// Executes a control-flow instruction: display clear, return, jumps,
    /// call and the skips that compare registers.
    fn execute_flow(&mut self, ins: Instruction) -> (r: Result<(), Fault>)
        requires
            old(self)@.pc < 4095,
            ins_wf(ins),
            is_flow(ins),
        ensures
            outcome(old(self)@, execute_spec(old(self)@, ins, 0), r, final(self)@),
    {
        let ghost m = self@;
        match ins {
            Instruction::Cls => {
                self.screen.clear_screen();
                assert(self@ =~= Machine { screen: blank(), ..m });
                self.next(1);
            },
            Instruction::Ret => {
                if self.stack.len() == 0 {
                    return Err(Fault::StackUnderflow);
                }
                let a = self.stack.pop();
                self.pc = ((a as u32 + 2) % 65536) as u16;
                assert(self@ =~= Machine { pc: ((m.stack.last() + 2) % 65536) as u16, stack: m.stack.drop_last(), ..m });
            },
            Instruction::Sys(_) => {
                self.next(1);
            },
            Instruction::Jp(nnn) => {
                self.pc = nnn;
                assert(self@ =~= Machine { pc: nnn, ..m });
            },
            Instruction::Call(nnn) => {
                if self.stack.len() >= STACK_SIZE {
                    return Err(Fault::StackOverflow);
                }
                self.stack.push(self.pc);
                self.pc = nnn;
                assert(self@ =~= Machine { stack: m.stack.push(m.pc), pc: nnn, ..m });
            },
            Instruction::SeImm(x, kk) => {
                let skip = self.regs.getv(x) == kk;
                self.next(if skip { 2 } else { 1 });
            },
            Instruction::SneImm(x, kk) => {
                let skip = self.regs.getv(x) != kk;
                self.next(if skip { 2 } else { 1 });
            },
            Instruction::SeReg(x, y) => {
                let skip = self.regs.getv(x) == self.regs.getv(y);
                self.next(if skip { 2 } else { 1 });
            },
            Instruction::SneReg(x, y) => {
                let skip = self.regs.getv(x) != self.regs.getv(y);
                self.next(if skip { 2 } else { 1 });
            },
            Instruction::JpV0(nnn) => {
                self.pc = nnn + self.regs.getv(0) as u16;
                assert(self@ =~= Machine { pc: (nnn + m.v[0]) as u16, ..m });
            },
            _ => {},
        }
        Ok(())
    }

    /// Executes an instruction that sets one register and no flag: loads,
    /// add of an immediate, logic and the random byte `rnd & kk`.
    fn execute_alu(&mut self, ins: Instruction, rnd: u8) -> (r: Result<(), Fault>)
        requires
            old(self)@.pc < 4095,
            ins_wf(ins),
            is_alu(ins),
        ensures
            outcome(old(self)@, execute_spec(old(self)@, ins, rnd), r, final(self)@),
    {
        match ins {
            Instruction::LdImm(x, kk) => {
                self.set_v(x, kk);
            },
            Instruction::AddImm(x, kk) => {
                let sum = ((self.regs.getv(x) as u16 + kk as u16) % 256) as u8;
                self.set_v(x, sum);
            },
            Instruction::LdReg(x, y) => {
                let vy = self.regs.getv(y);
                self.set_v(x, vy);
            },
            Instruction::Or(x, y) => {
                let val = self.regs.getv(x) | self.regs.getv(y);
                self.set_v(x, val);
            },
            Instruction::And(x, y) => {
                let val = self.regs.getv(x) & self.regs.getv(y);
                self.set_v(x, val);
            },
            Instruction::Xor(x, y) => {
                let val = self.regs.getv(x) ^ self.regs.getv(y);
                self.set_v(x, val);
            },
            Instruction::Rnd(x, kk) => {
                self.set_v(x, rnd & kk);
            },
            _ => {},
        }
        self.next(1);
        Ok(())
    }

    /// `VF := carry out of Vx + Vy`, then `Vx := Vx + Vy` wrapping.
    fn add_with_carry(&mut self, x: u8, y: u8)
        requires
            x < 16,
            y < 16,
        ensures
            ({
                let m = old(self)@;
                let sum = m.v[x as int] + m.v[y as int];
                final(self)@ == with_v(with_v(m, 15, flag(sum > 255)), x as int, (sum % 256) as u8)
            }),
    {
        let sum: u16 = self.regs.getv(x) as u16 + self.regs.getv(y) as u16;
        self.set_v(0xF, if sum > 255 { 1 } else { 0 });
        self.set_v(x, (sum % 256) as u8);
    }

    /// `VF := (Va > Vb)`, then `Vx := Va - Vb` wrapping, both read after
    /// the flag is written.
    fn sub_with_flag(&mut self, x: u8, a: u8, b: u8)
        requires
            x < 16,
            a < 16,
            b < 16,
        ensures
            ({
                let m = old(self)@;
                let m1 = with_v(m, 15, flag(m.v[a as int] > m.v[b as int]));
                final(self)@ == with_v(m1, x as int, ((m1.v[a as int] - m1.v[b as int]) % 256) as u8)
            }),
    {
        let no_borrow = self.regs.getv(a) > self.regs.getv(b);
        self.set_v(0xF, if no_borrow { 1 } else { 0 });
        let ghost m1 = self@;
        let val = ((self.regs.getv(a) as u16 + 256 - self.regs.getv(b) as u16) % 256) as u8;
        assert(val == ((m1.v[a as int] - m1.v[b as int]) % 256) as u8);
        self.set_v(x, val);
    }

    /// `VF :=` lowest bit of `Vs`, then `Vx := Vs >> 1`.
    fn shift_right(&mut self, x: u8, s: u8)
        requires
            x < 16,
            s < 16,
        ensures
            ({
                let m = old(self)@;
                let m1 = with_v(m, 15, m.v[s as int] & 1);
                final(self)@ == with_v(m1, x as int, m1.v[s as int] >> 1u8)
            }),
    {
        self.set_v(0xF, self.regs.getv(s) & 1);
        let val = self.regs.getv(s) >> 1;
        self.set_v(x, val);
    }

    /// `VF :=` highest bit of `Vs`, then `Vx := Vs << 1` wrapping.
    fn shift_left(&mut self, x: u8, s: u8)
        requires
            x < 16,
            s < 16,
        ensures
            ({
                let m = old(self)@;
                let m1 = with_v(m, 15, (m.v[s as int] & 0x80) >> 7u8);
                final(self)@ == with_v(m1, x as int, ((m1.v[s as int] * 2) % 256) as u8)
            }),
    {
        self.set_v(0xF, (self.regs.getv(s) & 0x80) >> 7);
        let val = ((self.regs.getv(s) as u16 * 2) % 256) as u8;
        self.set_v(x, val);
    }

    /// Executes an instruction that sets a register and the flag register
    /// `VF`, the flag first: add with carry, subtractions and shifts.
    fn execute_arith(&mut self, ins: Instruction) -> (r: Result<(), Fault>)
        requires
            old(self)@.pc < 4095,
            ins_wf(ins),
            is_arith(ins),
        ensures
            outcome(old(self)@, execute_spec(old(self)@, ins, 0), r, final(self)@),
    {
        match ins {
            Instruction::AddReg(x, y) => self.add_with_carry(x, y),
            Instruction::Sub(x, y) => self.sub_with_flag(x, x, y),
            Instruction::Subn(x, y) => self.sub_with_flag(x, y, x),
            Instruction::Shr(x, y) => {
                let s = if self.legacy_shl_shr { y } else { x };
                self.shift_right(x, s);
            },
            Instruction::Shl(x, y) => {
                let s = if self.legacy_shl_shr { y } else { x };
                self.shift_left(x, s);
            },
            _ => {},
        }
        self.next(1);
        Ok(())
    }

    /// Executes an instruction on timers, keys or the address register.
    fn execute_misc(&mut self, ins: Instruction) -> (r: Result<(), Fault>)
        requires
            old(self)@.pc < 4095,
            ins_wf(ins),
            is_misc(ins),
        ensures
            outcome(old(self)@, execute_spec(old(self)@, ins, 0), r, final(self)@),
    {
        let ghost m = self@;
        match ins {
            Instruction::LdI(nnn) => {
                self.regs.i = nnn;
                assert(self@ =~= Machine { i: nnn, ..m });
            },
            Instruction::Skp(x) | Instruction::Sknp(x) => {
                let key = self.regs.getv(x);
                if key as usize >= NUM_REGS {
                    return Err(Fault::InvalidKey(key));
                }
                let down = self.input[key as usize];
                let skip = if let Instruction::Skp(_) = ins { down } else { !down };
                self.next(if skip { 2 } else { 1 });
                return Ok(());
            },
            Instruction::LdVxDt(x) => {
                let dt = self.regs.dt;
                self.set_v(x, dt);
            },
            Instruction::LdKey(x) => {
                self.waiting = Some(x);
                assert(self@ =~= Machine { waiting: Some(x), ..m });
            },
            Instruction::LdDt(x) => {
                self.regs.dt = self.regs.getv(x);
                assert(self@ =~= Machine { dt: m.v[x as int], ..m });
            },
            Instruction::LdSt(x) => {
                self.regs.st = self.regs.getv(x);
                assert(self@ =~= Machine { st: m.v[x as int], ..m });
            },
            Instruction::AddI(x) => {
                self.regs.i = ((self.regs.i as u32 + self.regs.getv(x) as u32) % 65536) as u16;
                assert(self@ =~= Machine { i: ((m.i + m.v[x as int]) % 65536) as u16, ..m });
            },
            Instruction::LdF(x) => {
                self.regs.i = self.regs.getv(x) as u16 * 5;
                assert(self@ =~= Machine { i: (m.v[x as int] * 5) as u16, ..m });
            },
            _ => {},
        }
        self.next(1);
        Ok(())
    }

    /// `Dxyn`: draws the `n` bytes at `I` at `(Vx, Vy)`; `VF` tells whether
    /// a lit pixel was turned off.
    fn draw(&mut self, x: u8, y: u8, n: u8) -> (r: Result<(), Fault>)
        requires
            old(self)@.pc < 4095,
            x < 16,
            y < 16,
            n < 16,
        ensures
            outcome(old(self)@, execute_spec(old(self)@, Instruction::Drw(x, y, n), 0), r, final(self)@),
    {
        let ghost m = self@;
        let start = self.regs.i;
        if start as usize + n as usize > MEM_SIZE {
            return Err(Fault::AddressOutOfRange);
        }
        let mut sprite: Vec<u8> = Vec::new();
        let mut k: u16 = 0;
        while k < n as u16
            invariant
                k <= n,
                start + n <= 4096,
                self@ == m,
                start == m.i,
                sprite@ == m.mem.subrange(start as int, start + k),
            decreases n - k,
        {
            sprite.push(self.mem.read(start + k));
            k = k + 1;
            assert(sprite@ =~= m.mem.subrange(start as int, start + k));
        }
        let ox = self.regs.getv(x);
        let oy = self.regs.getv(y);
        let hit = self.screen.draw_sprite(ox, oy, sprite.as_slice());
        let ghost rows = m.mem.subrange(m.i as int, m.i + n);
        assert(self@ =~= Machine { screen: draw_rows(m.screen, ox as int, oy as int, rows), ..m });
        self.set_v(0xF, if hit { 1 } else { 0 });
        self.next(1);
        Ok(())
    }

    /// `Fx33`: the hundreds, tens and ones of `Vx` at `I`, `I + 1`, `I + 2`.
    fn store_bcd(&mut self, x: u8) -> (r: Result<(), Fault>)
        requires
            old(self)@.pc < 4095,
            x < 16,
        ensures
            outcome(old(self)@, execute_spec(old(self)@, Instruction::LdB(x), 0), r, final(self)@),
    {
        let ghost m = self@;
        let start = self.regs.i;
        if start as usize + 2 >= MEM_SIZE {
            return Err(Fault::AddressOutOfRange);
        }
        let vx = self.regs.getv(x);
        self.mem.write(start, vx / 100);
        self.mem.write(start + 1, vx / 10 % 10);
        self.mem.write(start + 2, vx % 10);
        let ghost mem = m.mem.update(m.i as int, vx / 100).update(m.i + 1, vx / 10 % 10).update(m.i + 2, vx % 10);
        assert(self@ =~= Machine { mem: mem, ..m });
        self.next(1);
        Ok(())
    }

    /// `I` after `Fx55` or `Fx65` has moved `V0..=Vx`.
    fn after_block(&mut self, x: u8)
        requires
            old(self)@.i + x < 4096,
        ensures
            final(self)@ == (Machine {
                i: if old(self)@.legacy_ld_sta { (old(self)@.i + x + 1) as u16 } else { old(self)@.i },
                ..old(self)@
            }),
    {
        if self.legacy_ld_sta {
            self.regs.i = self.regs.i + x as u16 + 1;
        }
        assert(self@ =~= (Machine {
            i: if old(self)@.legacy_ld_sta { (old(self)@.i + x + 1) as u16 } else { old(self)@.i },
            ..old(self)@
        }));
    }

    /// `Fx55`: stores `V0..=Vx` at `I..=I + x`.
    fn store_regs(&mut self, x: u8) -> (r: Result<(), Fault>)
        requires
            old(self)@.pc < 4095,
            x < 16,
        ensures
            outcome(old(self)@, execute_spec(old(self)@, Instruction::StoreRegs(x), 0), r, final(self)@),
    {
        let ghost m = self@;
        let start = self.regs.i;
        if start as usize + x as usize >= MEM_SIZE {
            return Err(Fault::AddressOutOfRange);
        }
        let mut k: u8 = 0;
        while k <= x
            invariant
                x < 16,
                k <= x + 1,
                start == m.i,
                start + x < 4096,
                self@ == (Machine {
                    mem: Seq::new(4096, |a: int| if m.i <= a < m.i + k { m.v[a - m.i] } else { m.mem[a] }),
                    ..m
                }),
            decreases x + 1 - k,
        {
            let val = self.regs.getv(k);
            self.mem.write(start + k as u16, val);
            k = k + 1;
            assert(self@.mem =~= Seq::new(4096, |a: int| if m.i <= a < m.i + k { m.v[a - m.i] } else { m.mem[a] }));
            assert(self@ =~= (Machine {
                mem: Seq::new(4096, |a: int| if m.i <= a < m.i + k { m.v[a - m.i] } else { m.mem[a] }),
                ..m
            }));
        }
        assert(self@.mem =~= Seq::new(
            m.mem.len(),
            |a: int| if m.i <= a <= m.i + x { m.v[a - m.i] } else { m.mem[a] },
        ));
        self.after_block(x);
        self.next(1);
        Ok(())
    }

    /// `Fx65`: loads `V0..=Vx` from `I..=I + x`.
    fn load_regs(&mut self, x: u8) -> (r: Result<(), Fault>)
        requires
            old(self)@.pc < 4095,
            x < 16,
        ensures
            outcome(old(self)@, execute_spec(old(self)@, Instruction::LoadRegs(x), 0), r, final(self)@),
    {
        let ghost m = self@;
        let start = self.regs.i;
        if start as usize + x as usize >= MEM_SIZE {
            return Err(Fault::AddressOutOfRange);
        }
        let mut k: u8 = 0;
        while k <= x
            invariant
                x < 16,
                k <= x + 1,
                start == m.i,
                start + x < 4096,
                self@ == (Machine {
                    v: Seq::new(16, |j: int| if j < k { m.mem[m.i + j] } else { m.v[j] }),
                    ..m
                }),
            decreases x + 1 - k,
        {
            let val = self.mem.read(start + k as u16);
            self.set_v(k, val);
            k = k + 1;
            assert(self@.v =~= Seq::new(16, |j: int| if j < k { m.mem[m.i + j] } else { m.v[j] }));
        }
        assert(self@.v =~= Seq::new(m.v.len(), |j: int| if j <= x { m.mem[m.i + j] } else { m.v[j] }));
        self.after_block(x);
        self.next(1);
        Ok(())
    }

    /// Executes the decoded instruction `ins`, with `rnd` as the random
    /// byte for `Cxkk`.
    fn execute(&mut self, ins: Instruction, rnd: u8) -> (r: Result<(), Fault>)
        requires
            old(self)@.pc < 4095,
            ins_wf(ins),
        ensures
            outcome(old(self)@, execute_spec(old(self)@, ins, rnd), r, final(self)@),
    {
        match ins {
            Instruction::Cls | Instruction::Ret | Instruction::Sys(_) | Instruction::Jp(_)
            | Instruction::Call(_) | Instruction::SeImm(_, _) | Instruction::SneImm(_, _)
            | Instruction::SeReg(_, _) | Instruction::SneReg(_, _) | Instruction::JpV0(_) => {
                self.execute_flow(ins)
            },
            Instruction::LdImm(_, _) | Instruction::AddImm(_, _) | Instruction::LdReg(_, _)
            | Instruction::Or(_, _) | Instruction::And(_, _) | Instruction::Xor(_, _)
            | Instruction::Rnd(_, _) => self.execute_alu(ins, rnd),
            Instruction::AddReg(_, _) | Instruction::Sub(_, _) | Instruction::Shr(_, _)
            | Instruction::Subn(_, _) | Instruction::Shl(_, _) => self.execute_arith(ins),
            Instruction::Drw(x, y, n) => self.draw(x, y, n),
            Instruction::LdB(x) => self.store_bcd(x),
            Instruction::StoreRegs(x) => self.store_regs(x),
            Instruction::LoadRegs(x) => self.load_regs(x),
            _ => self.execute_misc(ins),
        }
    }

    /// One step with `rnd` as the random byte that a `Cxkk` uses: nothing
    /// while the machine waits for a key; else fetches the instruction word
    /// at the program counter, decodes and executes it. On a fault the
    /// machine is left as it was.
    pub fn step_with(&mut self, rnd: u8) -> (r: Result<(), Fault>)
        ensures
            outcome(old(self)@, step_spec(old(self)@, rnd), r, final(self)@),
    {
        if let Some(_) = self.waiting {
            return Ok(());
        }
        if self.pc as usize + 1 >= MEM_SIZE {
            return Err(Fault::AddressOutOfRange);
        }
        let op: u16 = self.mem.read(self.pc) as u16 * 256 + self.mem.read(self.pc + 1) as u16;
        match decode(op) {
            None => Err(Fault::InvalidOpcode(op)),
            Some(ins) => self.execute(ins, rnd),
        }
    }

    /// One step, with a fresh random byte for a `Cxkk`; otherwise as
    /// [`CPU::step_with`].
    pub fn step(&mut self) -> (r: Result<(), Fault>)
        ensures
            exists|rnd: u8| outcome(old(self)@, #[trigger] step_spec(old(self)@, rnd), r, final(self)@),
    {
        let rnd = random_byte();
        let r = self.step_with(rnd);
        assert(outcome(old(self)@, step_spec(old(self)@, rnd), r, self@));
        r
    }

    /// One 60 Hz timer tick; returns whether the sound timer was running,
    /// that is whether a tone sounds for this tick.
    pub fn update_timers(&mut self) -> (tone: bool)
        ensures
            final(self)@ == tick_spec(old(self)@),
            tone == (old(self)@.st > 0),
    {
        if self.regs.dt > 0 {
            self.regs.dt = self.regs.dt - 1;
        }
        let tone = self.regs.st > 0;
        if tone {
            self.regs.st = self.regs.st - 1;
        }
        assert(self@ =~= tick_spec(old(self)@));
        tone
    }

    /// Sets key `key` down or up; a key going down while the machine waits
    /// for one is stored in the waiting register and ends the wait.
    pub fn set_input(&mut self, key: u8, pressed: bool)
        requires
            key < 16,
        ensures
            final(self)@ == key_spec(old(self)@, key, pressed),
    {
        let was_down = self.input[key as usize];
        self.input[key as usize] = pressed;
        if let Some(x) = self.waiting {
            if pressed && !was_down && (x as usize) < NUM_REGS {
                self.regs.setv(x, key);
                self.waiting = None;
            }
        }
        assert(self@ =~= key_spec(old(self)@, key, pressed));
    }

    /// Copies `rom` to memory from the program start on, leaving
    /// registers, stack and display alone; fails, changing nothing, when it
    /// does not fit.
    pub fn load_rom(&mut self, rom: &[u8]) -> (r: Result<(), LoadError>)
        ensures
            rom@.len() > MAX_ROM_SIZE ==> r == Err::<(), LoadError>(LoadError::TooLarge) && final(self)@ == old(self)@,
            rom@.len() <= MAX_ROM_SIZE ==> r == Ok::<(), LoadError>(()) && final(self)@ == load_spec(old(self)@, rom@),
    {
        if rom.len() > MAX_ROM_SIZE {
            return Err(LoadError::TooLarge);
        }
        let ghost m = self@;
        let mut k: usize = 0;
        while k < rom.len()
            invariant
                k <= rom@.len() <= 3584,
                self@ == load_spec(m, rom@.subrange(0, k as int)),
            decreases rom@.len() - k,
        {
            self.mem.write((PROGRAM_START + k) as u16, rom[k]);
            k = k + 1;
            assert(self@ =~= load_spec(m, rom@.subrange(0, k as int)));
        }
        assert(rom@.subrange(0, k as int) =~= rom@);
        Ok(())
    }

    /// Whether pixel `(x, y)` of the display is on.
    pub fn get_pixel(&self, x: u8, y: u8) -> (r: bool)
        requires
            x < WIDTH,
            y < HEIGHT,
        ensures
            r == self@.screen[pixel_index(x as int, y as int)],
    {
        self.screen.get_pixel(x, y)
    }

    /// The display, to read.
    pub fn screen(&self) -> (r: &Screen)
        ensures
            r@ == self@.screen,
    {
        &self.screen
    }

    /// The value of register `V[x]`.
    pub fn getv(&self, x: u8) -> (r: u8)
        requires
            x < NUM_REGS,
        ensures
            r == self@.v[x as int],
    {
        self.regs.getv(x)
    }

    /// The address register `I`.
    pub fn get_i(&self) -> (r: u16)
        ensures
            r == self@.i,
    {
        self.regs.i
    }

    /// The program counter.
    pub fn pc(&self) -> (r: u16)
        ensures
            r == self@.pc,
    {
        self.pc
    }

    /// The delay timer.
    pub fn delay_timer(&self) -> (r: u8)
        ensures
            r == self@.dt,
    {
        self.regs.dt
    }

    /// The sound timer.
    pub fn sound_timer(&self) -> (r: u8)
        ensures
            r == self@.st,
    {
        self.regs.st
    }

    /// The register that the next key press goes to, while the machine
    /// waits for one.
    pub fn waiting_for_key(&self) -> (r: Option<u8>)
        ensures
            r == self@.waiting,
    {
        self.waiting
    }

    /// The byte at address `addr`.
    pub fn read_mem(&self, addr: u16) -> (r: u8)
        requires
            addr < MEM_SIZE,
        ensures
            r == self@.mem[addr as int],
    {
        self.mem.read(addr)
    }

    /// Whether key `key` is down.
    pub fn is_key_down(&self, key: u8) -> (r: bool)
        requires
            key < 16,
        ensures
            r == self@.input[key as int],
    {
        self.input[key as usize]
    }

    /// Turns on or off the legacy behaviour of `Fx55` and `Fx65`, which
    /// leaves `I` past the registers moved.
    pub fn set_legacy_ld_sta(&mut self, on: bool)
        ensures
            final(self)@ == (Machine { legacy_ld_sta: on, ..old(self)@ }),
    {
        self.legacy_ld_sta = on;
        assert(self@ =~= (Machine { legacy_ld_sta: on, ..old(self)@ }));
    }

    /// Turns on or off the legacy behaviour of `8xy6` and `8xyE`, which
    /// shift `Vy` into `Vx`.
    pub fn set_legacy_shl_shr(&mut self, on: bool)
        ensures
            final(self)@ == (Machine { legacy_shl_shr: on, ..old(self)@ }),
    {
        self.legacy_shl_shr = on;
        assert(self@ =~= (Machine { legacy_shl_shr: on, ..old(self)@ }));
    }
}

} // verus!
