//! The memory-mapped port surface.
//!
//! Port `0x00` takes numbers for the console; port `0xFE` moves one terminal
//! byte and port `0xFF` two, high byte first. The ports buffer what they are
//! given: the program around the interpreter hands in terminal bytes as they
//! arrive and carries away console values and terminal bytes after each step.

use std::collections::VecDeque;
use vstd::prelude::*;

verus! {

/// What the port surface holds, as plain sequences.
pub struct Ports {
    /// Values written to the console port, oldest first.
    pub console: Seq<u16>,
    /// Terminal bytes not yet read, oldest first.
    pub term_in: Seq<u8>,
    /// Bytes for the terminal, oldest first.
    pub term_out: Seq<u8>,
}

/// The console port.
pub const PORT_CONSOLE: u16 = 0x00;

/// The terminal port that carries single bytes.
pub const PORT_BYTE: u16 = 0xFE;

/// The terminal port that carries two bytes packed in a word.
pub const PORT_PAIR: u16 = 0xFF;

/// The port that an I/O address selects: its low 8 bits.
pub open spec fn port_of(loc: u16) -> u16 {
    loc % 256
}

/// How many terminal bytes a read of `loc` takes.
pub open spec fn input_needed(loc: u16) -> nat {
    if port_of(loc) == PORT_BYTE {
        1
    } else if port_of(loc) == PORT_PAIR {
        2
    } else {
        0
    }
}

/// The value that a read of `loc` returns; it needs `input_needed(loc)` bytes.
pub open spec fn read_value(p: Ports, loc: u16) -> u16 {
    if port_of(loc) == PORT_BYTE {
        p.term_in[0] as u16
    } else if port_of(loc) == PORT_PAIR {
        (p.term_in[0] as int * 256 + p.term_in[1] as int) as u16
    } else {
        0
    }
}

/// The ports after a read of `loc`: the bytes it took are gone.
pub open spec fn after_read(p: Ports, loc: u16) -> Ports {
    Ports { term_in: p.term_in.skip(input_needed(loc) as int), ..p }
}

/// The ports after `val` is written to `loc`.
pub open spec fn after_write(p: Ports, loc: u16, val: u16) -> Ports {
    if port_of(loc) == PORT_CONSOLE {
        Ports { console: p.console.push(val), ..p }
    } else if port_of(loc) == PORT_BYTE {
        Ports { term_out: p.term_out.push((val % 256) as u8), ..p }
    } else if port_of(loc) == PORT_PAIR {
        let hi = p.term_out.push((val / 256) as u8);
        Ports { term_out: if val % 256 != 0 { hi.push((val % 256) as u8) } else { hi }, ..p }
    } else {
        p
    }
}

proof fn lemma_port(loc: u16)
    by (bit_vector)
    ensures
        loc & 255 == loc % 256,
{
}

/// The port surface.
pub struct IO {
    console_queue: Vec<u16>,
    telnet_input: VecDeque<u8>,
    telnet_output: Vec<u8>,
}

impl View for IO {
    type V = Ports;

    closed spec fn view(&self) -> Ports {
        Ports {
            console: self.console_queue@,
            term_in: self.telnet_input@,
            term_out: self.telnet_output@,
        }
    }
}

impl IO {
    /// Ports with nothing buffered.
    pub fn new() -> (r: IO)
        ensures
            r@.console.len() == 0,
            r@.term_in.len() == 0,
            r@.term_out.len() == 0,
    {
        IO { console_queue: Vec::new(), telnet_input: VecDeque::new(), telnet_output: Vec::new() }
    }

    /// Number of terminal bytes waiting to be read.
    pub fn pending_input(&self) -> (r: usize)
        ensures
            r == self@.term_in.len(),
    {
        self.telnet_input.len()
    }

    /// Whether a read of `loc` has the bytes it takes.
    pub fn can_read(&self, loc: u16) -> (r: bool)
        ensures
            r == (self@.term_in.len() >= input_needed(loc)),
    {
        proof {
            lemma_port(loc);
        }
        let port = loc & 255;
        let n = self.telnet_input.len();
        if port == PORT_BYTE {
            n >= 1
        } else if port == PORT_PAIR {
            n >= 2
        } else {
            true
        }
    }

    /// Hands a byte that came from the terminal to the ports.
    pub fn push_input(&mut self, b: u8)
        ensures
            final(self)@ == (Ports { term_in: old(self)@.term_in.push(b), ..old(self)@ }),
    {
        self.telnet_input.push_back(b);
    }

    /// Takes the console values written so far, oldest first.
    pub fn take_console(&mut self) -> (r: Vec<u16>)
        ensures
            r@ == old(self)@.console,
            final(self)@ == (Ports { console: Seq::empty(), ..old(self)@ }),
    {
        let mut out: Vec<u16> = Vec::new();
        std::mem::swap(&mut out, &mut self.console_queue);
        out
    }

    /// Takes the terminal bytes written so far, oldest first.
    pub fn take_terminal_output(&mut self) -> (r: Vec<u8>)
        ensures
            r@ == old(self)@.term_out,
            final(self)@ == (Ports { term_out: Seq::empty(), ..old(self)@ }),
    {
        let mut out: Vec<u8> = Vec::new();
        std::mem::swap(&mut out, &mut self.telnet_output);
        out
    }

    /// Reads port `loc & 0xFF`: a byte, a packed pair, or 0 for a port that
    /// gives nothing.
    pub fn read(&mut self, loc: u16) -> (r: u16)
        requires
            old(self)@.term_in.len() >= input_needed(loc),
        ensures
            r == read_value(old(self)@, loc),
            final(self)@ == after_read(old(self)@, loc),
    {
        proof {
            lemma_port(loc);
        }
        let port = loc & 255;
        if port == PORT_BYTE {
            let b = self.telnet_input.pop_front().unwrap();
            b as u16
        } else if port == PORT_PAIR {
            let hi = self.telnet_input.pop_front().unwrap();
            let lo = self.telnet_input.pop_front().unwrap();
            assert(self.telnet_input@ =~= old(self)@.term_in.skip(2));
            (hi as u16) * 256 + lo as u16
        } else {
            assert(self.telnet_input@ =~= old(self)@.term_in.skip(0));
            0
        }
    }

    /// Writes `val` to port `loc & 0xFF`. The pair port sends the high byte,
    /// then the low byte only where it is not zero.
    pub fn write(&mut self, loc: u16, val: u16)
        ensures
            final(self)@ == after_write(old(self)@, loc, val),
    {
        proof {
            lemma_port(loc);
        }
        let port = loc & 255;
        if port == PORT_CONSOLE {
            self.console_queue.push(val);
        } else if port == PORT_BYTE {
            self.telnet_output.push((val % 256) as u8);
        } else if port == PORT_PAIR {
            self.telnet_output.push((val / 256) as u8);
            if val % 256 != 0 {
                self.telnet_output.push((val % 256) as u8);
            }
        }
    }
}

} // verus!
