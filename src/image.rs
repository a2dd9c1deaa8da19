//! The program image: a text whose first non-empty line is `v2.0 raw`,
//! followed by whitespace-separated hexadecimal words that fill memory from
//! address 0.

use crate::memory::{lemma_cell_of, Addressable, Memory};
use vstd::prelude::*;

verus! {

/// Why an image was refused.
#[derive(Debug, Clone, Copy, PartialEq, Eq)]
pub enum ImageError {
    /// The first non-empty line is not `v2.0 raw`, or there is none.
    BadHeader,
}

/// Line feed.
pub const LF: u8 = 0x0A;

/// Carriage return.
pub const CR: u8 = 0x0D;

/// The header line, as bytes: `v2.0 raw`.
pub open spec fn header_line() -> Seq<u8> {
    seq![0x76u8, 0x32u8, 0x2Eu8, 0x30u8, 0x20u8, 0x72u8, 0x61u8, 0x77u8]
}

/// The bytes that separate words: space, tab, and the line and page breaks.
pub open spec fn is_space(b: u8) -> bool {
    b == 0x20 || b == 0x09 || b == 0x0A || b == 0x0B || b == 0x0C || b == 0x0D
}

pub open spec fn is_hex(b: u8) -> bool {
    (0x30u8 <= b <= 0x39u8) || (0x61u8 <= b <= 0x66u8) || (0x41u8 <= b <= 0x46u8)
}

pub open spec fn hex_val(b: u8) -> int {
    if 0x30u8 <= b <= 0x39u8 {
        b - 0x30u8
    } else if 0x61u8 <= b <= 0x66u8 {
        b - 0x61u8 + 10
    } else {
        b - 0x41u8 + 10
    }
}

/// Where the first non-empty line at or after line start `i` begins: empty
/// lines (`\n` or `\r\n` alone) are passed over.
pub open spec fn header_start(t: Seq<u8>, i: int) -> int
    decreases t.len() - i,
{
    if i < 0 || i >= t.len() {
        t.len() as int
    } else if t[i] == LF {
        header_start(t, i + 1)
    } else if t[i] == CR && i + 1 < t.len() && t[i + 1] == LF {
        header_start(t, i + 2)
    } else {
        i
    }
}

/// The end of the line that holds position `i`: its `\n`, or the end of text.
pub open spec fn line_end(t: Seq<u8>, i: int) -> int
    decreases t.len() - i,
{
    if i < 0 || i >= t.len() || t[i] == LF {
        if i < 0 {
            0
        } else if i >= t.len() {
            t.len() as int
        } else {
            i
        }
    } else {
        line_end(t, i + 1)
    }
}

/// The line that starts at `i`, without its `\n` or `\r\n`.
pub open spec fn line_at(t: Seq<u8>, i: int) -> Seq<u8> {
    let e = line_end(t, i);
    if e < t.len() && e > i && t[e - 1] == CR {
        t.subrange(i, e - 1)
    } else {
        t.subrange(i, e)
    }
}

/// The image has its header line.
pub open spec fn header_ok(t: Seq<u8>) -> bool {
    let h = header_start(t, 0);
    h < t.len() && line_at(t, h) == header_line()
}

/// What follows the header line.
pub open spec fn body_of(t: Seq<u8>) -> Seq<u8> {
    let e = line_end(t, header_start(t, 0));
    if e < t.len() {
        t.subrange(e + 1, t.len() as int)
    } else {
        Seq::empty()
    }
}

/// Scanner state over the body: the words so far and the word being read.
pub struct Scan {
    pub words: Seq<u16>,
    pub in_token: bool,
    pub acc: u16,
    pub valid: bool,
}

pub open spec fn scan_start() -> Scan {
    Scan { words: Seq::empty(), in_token: false, acc: 0, valid: true }
}

/// The value of a finished word: its digits modulo 0x10000, or 0 when a
/// byte of it is not a hexadecimal digit.
pub open spec fn token_word(s: Scan) -> u16 {
    if s.valid {
        s.acc
    } else {
        0
    }
}

/// The scanner after one more byte.
pub open spec fn feed(s: Scan, b: u8) -> Scan {
    if is_space(b) {
        if s.in_token {
            Scan { words: s.words.push(token_word(s)), ..scan_start() }
        } else {
            s
        }
    } else {
        Scan {
            words: s.words,
            in_token: true,
            acc: if is_hex(b) {
                ((s.acc * 16 + hex_val(b)) % 0x10000) as u16
            } else {
                s.acc
            },
            valid: s.valid && is_hex(b),
        }
    }
}

/// The scanner after all of `t`.
pub open spec fn scan(t: Seq<u8>) -> Scan
    decreases t.len(),
{
    if t.len() == 0 {
        scan_start()
    } else {
        feed(scan(t.drop_last()), t.last())
    }
}

/// The words of a body, in order.
pub open spec fn body_words(body: Seq<u8>) -> Seq<u16> {
    let s = scan(body);
    if s.in_token {
        s.words.push(token_word(s))
    } else {
        s.words
    }
}

/// The words of an image, in order.
pub open spec fn image_words(t: Seq<u8>) -> Seq<u16> {
    body_words(body_of(t))
}

/// Memory after `words` are stored from address 0 on, addresses wrapping.
pub open spec fn loaded(mem: Seq<u16>, words: Seq<u16>) -> Seq<u16>
    decreases words.len(),
{
    if words.len() == 0 {
        mem
    } else {
        loaded(mem, words.drop_last()).update((words.len() - 1) % 0x10000, words.last())
    }
}

proof fn lemma_loaded_push(mem: Seq<u16>, words: Seq<u16>, w: u16)
    requires
        mem.len() == 0x10000,
    ensures
        loaded(mem, words.push(w)) == loaded(mem, words).update((words.len() % 0x10000) as int, w),
        loaded(mem, words).len() == mem.len(),
    decreases words.len(),
{
    assert(words.push(w).drop_last() =~= words);
    if words.len() > 0 {
        lemma_loaded_push(mem, words.drop_last(), words.last());
        assert(words.drop_last().push(words.last()) =~= words);
    }
}

fn is_space_byte(b: u8) -> (r: bool)
    ensures
        r == is_space(b),
{
    b == 0x20 || b == 0x09 || b == 0x0A || b == 0x0B || b == 0x0C || b == 0x0D
}

/// The value of a hexadecimal digit.
fn hex_digit(b: u8) -> (r: Option<u16>)
    ensures
        r is Some <==> is_hex(b),
        r is Some ==> r->0 == hex_val(b),
{
    if 0x30u8 <= b && b <= 0x39u8 {
        Some((b - 0x30u8) as u16)
    } else if 0x61u8 <= b && b <= 0x66u8 {
        Some((b - 0x61u8 + 10) as u16)
    } else if 0x41u8 <= b && b <= 0x46u8 {
        Some((b - 0x41u8 + 10) as u16)
    } else {
        None
    }
}

/// Where the header line starts.
fn find_header(t: &[u8]) -> (r: usize)
    ensures
        r == header_start(t@, 0),
{
    let mut i: usize = 0;
    while i < t.len()
        invariant
            i <= t.len(),
            header_start(t@, 0) == header_start(t@, i as int),
        decreases t.len() - i,
    {
        if t[i] == LF {
            i = i + 1;
        } else if t[i] == CR && i + 1 < t.len() && t[i + 1] == LF {
            i = i + 2;
        } else {
            return i;
        }
    }
    i
}

/// Where the line holding position `i` ends.
fn find_line_end(t: &[u8], i: usize) -> (r: usize)
    requires
        i <= t.len(),
    ensures
        r == line_end(t@, i as int),
        i <= r <= t.len(),
{
    let mut e: usize = i;
    while e < t.len() && t[e] != LF
        invariant
            i <= e <= t.len(),
            line_end(t@, i as int) == line_end(t@, e as int),
        decreases t.len() - e,
    {
        e = e + 1;
    }
    e
}

/// Whether `t[start..end]` is the header line.
fn is_header(t: &[u8], start: usize, end: usize) -> (r: bool)
    requires
        start <= end <= t.len(),
    ensures
        r == (t@.subrange(start as int, end as int) == header_line()),
{
    let ghost h = header_line();
    if end - start != 8 {
        assert(t@.subrange(start as int, end as int).len() != h.len());
        return false;
    }
    let r = t[start] == 0x76u8 && t[start + 1] == 0x32u8 && t[start + 2] == 0x2Eu8 && t[start + 3]
        == 0x30u8 && t[start + 4] == 0x20u8 && t[start + 5] == 0x72u8 && t[start + 6] == 0x61u8 && t[start
        + 7] == 0x77u8;
    if r {
        assert(t@.subrange(start as int, end as int) =~= h);
    } else {
        assert(t@.subrange(start as int, end as int) != h) by {
            let s = t@.subrange(start as int, end as int);
            if s == h {
                assert(s[0] == h[0] && s[1] == h[1] && s[2] == h[2] && s[3] == h[3]);
                assert(s[4] == h[4] && s[5] == h[5] && s[6] == h[6] && s[7] == h[7]);
            }
        }
    }
    r
}

impl Memory {
    /// Loads an image: checks its header line, then stores its words from
    /// address 0 on (address `k` modulo 0x10000 for the `k`-th word). Returns
    /// the number of words less one, -1 for an image with no word.
    pub fn load_image(&mut self, text: &[u8]) -> (r: Result<i32, ImageError>)
        requires
            old(self).wf(),
            text@.len() <= i32::MAX,
        ensures
            final(self).wf(),
            match r {
                Ok(n) => {
                    &&& header_ok(text@)
                    &&& n == image_words(text@).len() - 1
                    &&& final(self)@ == loaded(old(self)@, image_words(text@))
                },
                Err(ImageError::BadHeader) => {
                    &&& !header_ok(text@)
                    &&& final(self)@ == old(self)@
                },
            },
    {
        let h = find_header(text);
        if h >= text.len() {
            return Err(ImageError::BadHeader);
        }
        let e = find_line_end(text, h);
        let content_end: usize = if e < text.len() && e > h && text[e - 1] == CR {
            e - 1
        } else {
            e
        };
        if !is_header(text, h, content_end) {
            return Err(ImageError::BadHeader);
        }
        let bs: usize = if e < text.len() {
            e + 1
        } else {
            text.len()
        };
        let ghost body = body_of(text@);
        assert(body =~= text@.subrange(bs as int, text@.len() as int));
        let ghost mem0 = self@;
        let mut j: usize = bs;
        let mut in_token = false;
        let mut acc: u16 = 0;
        let mut valid = true;
        let mut count: usize = 0;
        while j < text.len()
            invariant
                self.wf(),
                bs <= j <= text.len(),
                text@.len() <= i32::MAX,
                mem0.len() == 0x10000,
                body == text@.subrange(bs as int, text@.len() as int),
                (Scan { words: scan(body.take(j - bs)).words, in_token, acc, valid }) == scan(
                    body.take(j - bs),
                ),
                count == scan(body.take(j - bs)).words.len(),
                count <= j - bs,
                self@ == loaded(mem0, scan(body.take(j - bs)).words),
            decreases text.len() - j,
        {
            let ghost before = scan(body.take(j - bs));
            let b = text[j];
            assert(body.take(j + 1 - bs).drop_last() =~= body.take(j - bs));
            assert(body.take(j + 1 - bs).last() == b);
            if is_space_byte(b) {
                if in_token {
                    let w: u16 = if valid {
                        acc
                    } else {
                        0
                    };
                    proof {
                        lemma_loaded_push(mem0, before.words, w);
                        lemma_cell_of(count as i32);
                    }
                    self.write(count as i32, w as i32);
                    assert((w as i32) & 0xFFFF == w) by (bit_vector);
                    count = count + 1;
                    in_token = false;
                    acc = 0;
                    valid = true;
                }
            } else {
                match hex_digit(b) {
                    Some(dv) => {
                        acc = ((acc as u32 * 16 + dv as u32) % 0x10000) as u16;
                    },
                    None => {
                        valid = false;
                    },
                }
                in_token = true;
            }
            j = j + 1;
        }
        assert(body.take(j - bs) =~= body);
        if in_token {
            let w: u16 = if valid {
                acc
            } else {
                0
            };
            proof {
                lemma_loaded_push(mem0, scan(body).words, w);
                lemma_cell_of(count as i32);
            }
            self.write(count as i32, w as i32);
            assert((w as i32) & 0xFFFF == w) by (bit_vector);
            count = count + 1;
        }
        Ok(count as i32 - 1)
    }
}

} // verus!
