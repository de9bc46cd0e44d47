use vstd::prelude::*;

verus! {

/// Number of general-purpose registers `V0..VF`.
pub const NUM_REGS: usize = 16;

/// Capacity of the call stack.
pub const STACK_SIZE: usize = 16;

/// Number of addressable bytes.
pub const MEM_SIZE: usize = 4096;

/// The register file: sixteen byte registers, the address register `I`
/// and the delay and sound timers.
pub struct Registers {
    pub v: [u8; 16],
    pub i: u16,
    pub dt: u8,
    pub st: u8,
}

impl View for Registers {
    type V = Seq<u8>;

    /// The sixteen general registers, `V0` first.
    open spec fn view(&self) -> Seq<u8> {
        self.v@
    }
}

impl Registers {
    /// All registers and timers zero.
    pub fn new() -> (r: Registers)
        ensures
            r@ == Seq::new(16, |k: int| 0u8),
            r.i == 0,
            r.dt == 0,
            r.st == 0,
    {
        let r = Registers { v: [0u8; 16], i: 0, dt: 0, st: 0 };
        assert(r@ =~= Seq::new(16, |k: int| 0u8));
        r
    }

    /// The value of register `V[index]`.
    pub fn getv(&self, index: u8) -> (r: u8)
        requires
            index < 16,
        ensures
            r == self@[index as int],
    {
        self.v[index as usize]
    }

    /// Sets register `V[index]` to `val`, leaving the rest unchanged.
    pub fn setv(&mut self, index: u8, val: u8)
        requires
            index < 16,
        ensures
            final(self)@ == old(self)@.update(index as int, val),
            final(self).i == old(self).i,
            final(self).dt == old(self).dt,
            final(self).st == old(self).st,
    {
        self.v[index as usize] = val;
    }
}

} // verus!

verus! {

/// The call stack: at most sixteen return addresses, last in first out.
pub struct Stack {
    data: [u16; 16],
    sp: u8,
}

impl View for Stack {
    type V = Seq<u16>;

    /// The stored addresses, bottom first.
    closed spec fn view(&self) -> Seq<u16> {
        self.data@.subrange(0, self.sp as int)
    }
}

impl Stack {
    #[verifier::type_invariant]
    spec fn inv(&self) -> bool {
        self.sp <= 16
    }

    /// An empty stack.
    pub fn new() -> (r: Stack)
        ensures
            r@ == Seq::<u16>::empty(),
    {
        let r = Stack { data: [0u16; 16], sp: 0 };
        assert(r@ =~= Seq::<u16>::empty());
        r
    }

    /// The number of stored addresses, never more than the capacity.
    pub fn len(&self) -> (r: usize)
        ensures
            r == self@.len(),
            r <= STACK_SIZE,
    {
        proof {
            use_type_invariant(self);
        }
        self.sp as usize
    }

    /// Pushes `val` on top of a stack that is not full.
    pub fn push(&mut self, val: u16)
        requires
            old(self)@.len() < STACK_SIZE,
        ensures
            final(self)@ == old(self)@.push(val),
    {
        proof {
            use_type_invariant(&*self);
        }
        self.data[self.sp as usize] = val;
        self.sp = self.sp + 1;
        assert(self@ =~= old(self)@.push(val));
    }

    /// Removes and returns the top of a stack that is not empty.
    pub fn pop(&mut self) -> (r: u16)
        requires
            old(self)@.len() > 0,
        ensures
            r == old(self)@.last(),
            final(self)@ == old(self)@.drop_last(),
    {
        proof {
            use_type_invariant(&*self);
        }
        self.sp = self.sp - 1;
        let r = self.data[self.sp as usize];
        assert(self@ =~= old(self)@.drop_last());
        r
    }
}

} // verus!

verus! {

/// Address of the first program byte.
pub const PROGRAM_START: usize = 512;

/// The built-in glyphs of the hexadecimal digits 0 to F, five bytes each,
/// digit `d` at `5 * d`.
pub open spec fn glyph_table() -> Seq<u8> {
    seq![
        0xF0u8, 0x90, 0x90, 0x90, 0xF0,
        0x20, 0x60, 0x20, 0x20, 0x70,
        0xF0, 0x10, 0xF0, 0x80, 0xF0,
        0xF0, 0x10, 0xF0, 0x10, 0xF0,
        0x90, 0x90, 0xF0, 0x10, 0x10,
        0xF0, 0x80, 0xF0, 0x10, 0xF0,
        0xF0, 0x80, 0xF0, 0x90, 0xF0,
        0xF0, 0x10, 0x20, 0x40, 0x40,
        0xF0, 0x90, 0xF0, 0x90, 0xF0,
        0xF0, 0x90, 0xF0, 0x10, 0xF0,
        0xF0, 0x90, 0xF0, 0x90, 0x90,
        0xE0, 0x90, 0xE0, 0x90, 0xE0,
        0xF0, 0x80, 0x80, 0x80, 0xF0,
        0xE0, 0x90, 0x90, 0x90, 0xE0,
        0xF0, 0x80, 0xF0, 0x80, 0xF0,
        0xF0, 0x80, 0xF0, 0x80, 0x80
    ]
}

/// Memory as it is after construction: the glyph table at the bottom,
/// zero everywhere else.
pub open spec fn initial_memory() -> Seq<u8> {
    Seq::new(4096, |a: int| if a < 80 { glyph_table()[a] } else { 0u8 })
}

/// The flat 4096-byte address space.
pub struct Memory {
    pub data: [u8; 4096],
}

impl View for Memory {
    type V = Seq<u8>;

    /// The bytes at addresses 0 to 4095.
    open spec fn view(&self) -> Seq<u8> {
        self.data@
    }
}

impl Memory {
    /// Memory holding the glyph table at addresses 0 to 79 and zero above.
    pub fn new() -> (r: Memory)
        ensures
            r@ == initial_memory(),
    {
        let hex_chars: [u8; 80] = [
            0xF0, 0x90, 0x90, 0x90, 0xF0, // 0
            0x20, 0x60, 0x20, 0x20, 0x70, // 1
            0xF0, 0x10, 0xF0, 0x80, 0xF0, // 2
            0xF0, 0x10, 0xF0, 0x10, 0xF0, // 3
            0x90, 0x90, 0xF0, 0x10, 0x10, // 4
            0xF0, 0x80, 0xF0, 0x10, 0xF0, // 5
            0xF0, 0x80, 0xF0, 0x90, 0xF0, // 6
            0xF0, 0x10, 0x20, 0x40, 0x40, // 7
            0xF0, 0x90, 0xF0, 0x90, 0xF0, // 8
            0xF0, 0x90, 0xF0, 0x10, 0xF0, // 9
            0xF0, 0x90, 0xF0, 0x90, 0x90, // A
            0xE0, 0x90, 0xE0, 0x90, 0xE0, // B
            0xF0, 0x80, 0x80, 0x80, 0xF0, // C
            0xE0, 0x90, 0x90, 0x90, 0xE0, // D
            0xF0, 0x80, 0xF0, 0x80, 0xF0, // E
            0xF0, 0x80, 0xF0, 0x80, 0x80, // F
        ];
        assert(hex_chars@ =~= glyph_table());
        let mut result = Memory { data: [0u8; 4096] };
        let mut a: usize = 0;
        while a < 80
            invariant
                a <= 80,
                hex_chars@ == glyph_table(),
                forall|k: int| 0 <= k < 4096 ==> result@[k] == (if k < a { glyph_table()[k] } else { 0u8 }),
            decreases 80 - a,
        {
            result.write(a as u16, hex_chars[a]);
            a = a + 1;
        }
        assert(result@ =~= initial_memory());
        result
    }

    /// The byte at `addr`.
    pub fn read(&self, addr: u16) -> (r: u8)
        requires
            addr < MEM_SIZE,
        ensures
            r == self@[addr as int],
    {
        self.data[addr as usize]
    }

    /// Sets the byte at `addr` to `val`, leaving the others unchanged.
    pub fn write(&mut self, addr: u16, val: u8)
        requires
            addr < MEM_SIZE,
        ensures
            final(self)@ == old(self)@.update(addr as int, val),
    {
        self.data[addr as usize] = val;
    }
}

} // verus!
