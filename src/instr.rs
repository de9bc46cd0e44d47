use vstd::prelude::*;

verus! {

/// One decoded instruction. `x` and `y` name registers (0 to 15), `kk` is
/// an immediate byte, `n` a nibble and `nnn` a 12-bit address.
#[derive(Clone, Copy, Debug, PartialEq, Eq, Structural)]
pub enum Instruction {
    /// `00E0`: clear the display.
    Cls,
    /// `00EE`: return from a subroutine.
    Ret,
    /// `0nnn`: machine routine call, ignored.
    Sys(u16),
    /// `1nnn`: jump to `nnn`.
    Jp(u16),
    /// `2nnn`: call the subroutine at `nnn`.
    Call(u16),
    /// `3xkk`: skip the next instruction if `Vx == kk`.
    SeImm(u8, u8),
    /// `4xkk`: skip the next instruction if `Vx != kk`.
    SneImm(u8, u8),
    /// `5xy0`: skip the next instruction if `Vx == Vy`.
    SeReg(u8, u8),
    /// `6xkk`: `Vx := kk`.
    LdImm(u8, u8),
    /// `7xkk`: `Vx := Vx + kk`, wrapping, flag untouched.
    AddImm(u8, u8),
    /// `8xy0`: `Vx := Vy`.
    LdReg(u8, u8),
    /// `8xy1`: `Vx := Vx | Vy`.
    Or(u8, u8),
    /// `8xy2`: `Vx := Vx & Vy`.
    And(u8, u8),
    /// `8xy3`: `Vx := Vx ^ Vy`.
    Xor(u8, u8),
    /// `8xy4`: add with carry into `VF`.
    AddReg(u8, u8),
    /// `8xy5`: `Vx := Vx - Vy` with "no borrow" into `VF`.
    Sub(u8, u8),
    /// `8xy6`: shift right by one, the dropped bit into `VF`.
    Shr(u8, u8),
    /// `8xy7`: `Vx := Vy - Vx` with "no borrow" into `VF`.
    Subn(u8, u8),
    /// `8xyE`: shift left by one, the dropped bit into `VF`.
    Shl(u8, u8),
    /// `9xy0`: skip the next instruction if `Vx != Vy`.
    SneReg(u8, u8),
    /// `Annn`: `I := nnn`.
    LdI(u16),
    /// `Bnnn`: jump to `nnn + V0`.
    JpV0(u16),
    /// `Cxkk`: `Vx := random byte & kk`.
    Rnd(u8, u8),
    /// `Dxyn`: draw the `n`-byte sprite at `I` at `(Vx, Vy)`, collision into `VF`.
    Drw(u8, u8, u8),
    /// `Ex9E`: skip the next instruction if key `Vx` is down.
    Skp(u8),
    /// `ExA1`: skip the next instruction if key `Vx` is up.
    Sknp(u8),
    /// `Fx07`: `Vx := DT`.
    LdVxDt(u8),
    /// `Fx0A`: wait for a key press and put the key in `Vx`.
    LdKey(u8),
    /// `Fx15`: `DT := Vx`.
    LdDt(u8),
    /// `Fx18`: `ST := Vx`.
    LdSt(u8),
    /// `Fx1E`: `I := I + Vx`.
    AddI(u8),
    /// `Fx29`: `I :=` address of the glyph of digit `Vx`.
    LdF(u8),
    /// `Fx33`: store the decimal digits of `Vx` at `I`, `I + 1`, `I + 2`.
    LdB(u8),
    /// `Fx55`: store `V0..=Vx` at `I..=I + x`.
    StoreRegs(u8),
    /// `Fx65`: load `V0..=Vx` from `I..=I + x`.
    LoadRegs(u8),
}

/// The instruction that the 16-bit word `op` encodes, if any.
pub open spec fn decode_spec(op: u16) -> Option<Instruction> {
    let hi = op / 4096;
    let nnn = op % 4096;
    let n = (op % 16) as u8;
    let x = (op / 256 % 16) as u8;
    let y = (op / 16 % 16) as u8;
    let kk = (op % 256) as u8;
    if hi == 0 {
        if nnn == 0x0E0 {
            Some(Instruction::Cls)
        } else if nnn == 0x0EE {
            Some(Instruction::Ret)
        } else {
            Some(Instruction::Sys(nnn))
        }
    } else if hi == 1 {
        Some(Instruction::Jp(nnn))
    } else if hi == 2 {
        Some(Instruction::Call(nnn))
    } else if hi == 3 {
        Some(Instruction::SeImm(x, kk))
    } else if hi == 4 {
        Some(Instruction::SneImm(x, kk))
    } else if hi == 5 {
        if n == 0 {
            Some(Instruction::SeReg(x, y))
        } else {
            None
        }
    } else if hi == 6 {
        Some(Instruction::LdImm(x, kk))
    } else if hi == 7 {
        Some(Instruction::AddImm(x, kk))
    } else if hi == 8 {
        if n == 0 {
            Some(Instruction::LdReg(x, y))
        } else if n == 1 {
            Some(Instruction::Or(x, y))
        } else if n == 2 {
            Some(Instruction::And(x, y))
        } else if n == 3 {
            Some(Instruction::Xor(x, y))
        } else if n == 4 {
            Some(Instruction::AddReg(x, y))
        } else if n == 5 {
            Some(Instruction::Sub(x, y))
        } else if n == 6 {
            Some(Instruction::Shr(x, y))
        } else if n == 7 {
            Some(Instruction::Subn(x, y))
        } else if n == 0xE {
            Some(Instruction::Shl(x, y))
        } else {
            None
        }
    } else if hi == 9 {
        Some(Instruction::SneReg(x, y))
    } else if hi == 0xA {
        Some(Instruction::LdI(nnn))
    } else if hi == 0xB {
        Some(Instruction::JpV0(nnn))
    } else if hi == 0xC {
        Some(Instruction::Rnd(x, kk))
    } else if hi == 0xD {
        Some(Instruction::Drw(x, y, n))
    } else if hi == 0xE {
        if kk == 0x9E {
            Some(Instruction::Skp(x))
        } else if kk == 0xA1 {
            Some(Instruction::Sknp(x))
        } else {
            None
        }
    } else if kk == 0x07 {
        Some(Instruction::LdVxDt(x))
    } else if kk == 0x0A {
        Some(Instruction::LdKey(x))
    } else if kk == 0x15 {
        Some(Instruction::LdDt(x))
    } else if kk == 0x18 {
        Some(Instruction::LdSt(x))
    } else if kk == 0x1E {
        Some(Instruction::AddI(x))
    } else if kk == 0x29 {
        Some(Instruction::LdF(x))
    } else if kk == 0x33 {
        Some(Instruction::LdB(x))
    } else if kk == 0x55 {
        Some(Instruction::StoreRegs(x))
    } else if kk == 0x65 {
        Some(Instruction::LoadRegs(x))
    } else {
        None
    }
}

/// Whether the fields of `ins` are in range, as for every decoded
/// instruction: registers and nibbles below 16, addresses below 4096.
pub open spec fn ins_wf(ins: Instruction) -> bool {
    match ins {
        Instruction::SeImm(x, _) | Instruction::SneImm(x, _) | Instruction::LdImm(x, _)
        | Instruction::AddImm(x, _) | Instruction::Rnd(x, _) => x < 16,
        Instruction::SeReg(x, y) | Instruction::LdReg(x, y) | Instruction::Or(x, y)
        | Instruction::And(x, y) | Instruction::Xor(x, y) | Instruction::AddReg(x, y)
        | Instruction::Sub(x, y) | Instruction::Shr(x, y) | Instruction::Subn(x, y)
        | Instruction::Shl(x, y) | Instruction::SneReg(x, y) => x < 16 && y < 16,
        Instruction::Drw(x, y, n) => x < 16 && y < 16 && n < 16,
        Instruction::Skp(x) | Instruction::Sknp(x) | Instruction::LdVxDt(x) | Instruction::LdKey(x)
        | Instruction::LdDt(x) | Instruction::LdSt(x) | Instruction::AddI(x) | Instruction::LdF(x)
        | Instruction::LdB(x) | Instruction::StoreRegs(x) | Instruction::LoadRegs(x) => x < 16,
        Instruction::Sys(nnn) | Instruction::Jp(nnn) | Instruction::Call(nnn) | Instruction::LdI(nnn)
        | Instruction::JpV0(nnn) => nnn < 4096,
        _ => true,
    }
}

/// Decodes the 16-bit instruction word `op`; `None` for a word that
/// encodes no instruction.
pub fn decode(op: u16) -> (r: Option<Instruction>)
    ensures
        r == decode_spec(op),
        r matches Some(ins) ==> ins_wf(ins),
{
    let hi = op / 4096;
    let nnn = op % 4096;
    let n = (op % 16) as u8;
    let x = (op / 256 % 16) as u8;
    let y = (op / 16 % 16) as u8;
    let kk = (op % 256) as u8;
    if hi == 0 {
        if nnn == 0x0E0 {
            Some(Instruction::Cls)
        } else if nnn == 0x0EE {
            Some(Instruction::Ret)
        } else {
            Some(Instruction::Sys(nnn))
        }
    } else if hi == 1 {
        Some(Instruction::Jp(nnn))
    } else if hi == 2 {
        Some(Instruction::Call(nnn))
    } else if hi == 3 {
        Some(Instruction::SeImm(x, kk))
    } else if hi == 4 {
        Some(Instruction::SneImm(x, kk))
    } else if hi == 5 {
        if n == 0 {
            Some(Instruction::SeReg(x, y))
        } else {
            None
        }
    } else if hi == 6 {
        Some(Instruction::LdImm(x, kk))
    } else if hi == 7 {
        Some(Instruction::AddImm(x, kk))
    } else if hi == 8 {
        match n {
            0 => Some(Instruction::LdReg(x, y)),
            1 => Some(Instruction::Or(x, y)),
            2 => Some(Instruction::And(x, y)),
            3 => Some(Instruction::Xor(x, y)),
            4 => Some(Instruction::AddReg(x, y)),
            5 => Some(Instruction::Sub(x, y)),
            6 => Some(Instruction::Shr(x, y)),
            7 => Some(Instruction::Subn(x, y)),
            0xE => Some(Instruction::Shl(x, y)),
            _ => None,
        }
    } else if hi == 9 {
        Some(Instruction::SneReg(x, y))
    } else if hi == 0xA {
        Some(Instruction::LdI(nnn))
    } else if hi == 0xB {
        Some(Instruction::JpV0(nnn))
    } else if hi == 0xC {
        Some(Instruction::Rnd(x, kk))
    } else if hi == 0xD {
        Some(Instruction::Drw(x, y, n))
    } else if hi == 0xE {
        match kk {
            0x9E => Some(Instruction::Skp(x)),
            0xA1 => Some(Instruction::Sknp(x)),
            _ => None,
        }
    } else {
        match kk {
            0x07 => Some(Instruction::LdVxDt(x)),
            0x0A => Some(Instruction::LdKey(x)),
            0x15 => Some(Instruction::LdDt(x)),
            0x18 => Some(Instruction::LdSt(x)),
            0x1E => Some(Instruction::AddI(x)),
            0x29 => Some(Instruction::LdF(x)),
            0x33 => Some(Instruction::LdB(x)),
            0x55 => Some(Instruction::StoreRegs(x)),
            0x65 => Some(Instruction::LoadRegs(x)),
            _ => None,
        }
    }
}

} // verus!
