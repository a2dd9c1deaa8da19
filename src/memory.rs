//! The flat word memory: 65 536 words, every address taken modulo 0x10000.

use vstd::prelude::*;

verus! {

/// Number of words in the address space.
pub const MEM_WORDS: usize = 0x10000;

/// A word-addressed store that routes reads and writes by address.
pub trait Addressable {
    /// The store is in a state that its operations accept.
    spec fn wf(&self) -> bool;

    fn read(&self, loc: i32) -> (r: i32)
        requires
            self.wf(),
    ;

    fn write(&mut self, loc: i32, val: i32)
        requires
            old(self).wf(),
        ensures
            final(self).wf(),
    ;
}

/// The machine's memory.
pub struct Memory {
    memory: Vec<u16>,
}

impl View for Memory {
    type V = Seq<u16>;

    closed spec fn view(&self) -> Seq<u16> {
        self.memory@
    }
}

/// The cell that an address reaches.
pub open spec fn cell_of(loc: i32) -> int {
    (loc & 0xFFFF) as int
}

pub proof fn lemma_cell_of(loc: i32)
    ensures
        0 <= cell_of(loc) < 0x10000,
        loc >= 0 ==> cell_of(loc) == loc % 0x10000,
{
    assert(0 <= loc & 0xFFFF <= 0xFFFF) by (bit_vector);
    if loc >= 0 {
        assert(loc & 0xFFFF == loc % 0x10000) by (bit_vector)
            requires
                loc >= 0,
        ;
    }
}

impl Memory {
    /// A memory whose every word is zero.
    pub fn new() -> (r: Memory)
        ensures
            r@ == Seq::new(MEM_WORDS as nat, |i: int| 0u16),
            r.wf(),
    {
        let memory = vec![0u16; MEM_WORDS];
        assert(memory@ =~= Seq::new(MEM_WORDS as nat, |i: int| 0u16));
        Memory { memory }
    }

    /// The word at an address in `0..MEM_WORDS`.
    pub fn word(&self, addr: u16) -> (r: u16)
        requires
            self.wf(),
        ensures
            r == self@[addr as int],
    {
        self.memory[addr as usize]
    }

    /// Stores a word at an address in `0..MEM_WORDS`.
    pub fn set_word(&mut self, addr: u16, val: u16)
        requires
            old(self).wf(),
        ensures
            final(self)@ == old(self)@.update(addr as int, val),
    {
        self.memory.set(addr as usize, val);
    }
}

impl Addressable for Memory {
    open spec fn wf(&self) -> bool {
        self@.len() == MEM_WORDS
    }

    /// Reads the word at `loc & 0xFFFF`.
    fn read(&self, loc: i32) -> (r: i32)
        ensures
            r == self@[cell_of(loc)],
    {
        proof {
            lemma_cell_of(loc);
        }
        self.memory[(loc & 0xFFFF) as usize] as i32
    }

    /// Writes the low 16 bits of `val` at `loc & 0xFFFF`.
    fn write(&mut self, loc: i32, val: i32)
        ensures
            final(self)@ == old(self)@.update(cell_of(loc), (val & 0xFFFF) as u16),
    {
        proof {
            lemma_cell_of(loc);
        }
        self.memory.set((loc & 0xFFFF) as usize, (val & 0xFFFF) as u16);
    }
}

} // verus!
