//! The source text under the tokenizer: a buffer of bytes, a read
//! position in it, and the line and column that the position stands for.

use vstd::prelude::*;

verus! {

/// The byte of a line feed.
pub const NEWLINE: u8 = 0xa;

/// The byte of a space.
pub const SPACE: u8 = 0x20;

/// A source text with a read position.
#[derive(Debug)]
pub struct Source {
    buffer: Vec<u8>,
    pointer: usize,
    len: usize,
    row: u32,
    col: u32,
}

/// The character at position `k` of `bytes`: there is one where `k` is
/// inside and the byte there is ASCII.
pub open spec fn char_at(bytes: Seq<u8>, k: int) -> Option<char> {
    if 0 <= k < bytes.len() && bytes[k] < 0x80 {
        Some(bytes[k] as char)
    } else {
        None
    }
}

impl Source {
    /// The bytes of the text.
    pub closed spec fn bytes(&self) -> Seq<u8> {
        self.buffer@
    }

    /// The read position.
    pub closed spec fn pointer(&self) -> int {
        self.pointer as int
    }

    /// The line of the read position, counted from 1.
    pub closed spec fn row(&self) -> int {
        self.row as int
    }

    /// The column of the read position, counted from 1.
    pub closed spec fn col(&self) -> int {
        self.col as int
    }

    /// The recorded length is that of the buffer.
    pub closed spec fn wf(&self) -> bool {
        self.len == self.buffer.len()
    }

    /// The text `buf`, read from its start, at line 1 and column 1.
    pub fn from_bytes(buf: Vec<u8>) -> (r: Source)
        ensures
            r.wf(),
            r.bytes() == buf@,
            r.pointer() == 0,
            r.row() == 1,
            r.col() == 1,
    {
        Source { pointer: 0, len: buf.len(), row: 1, col: 1, buffer: buf }
    }

    /// The character at the read position, if there is one.
    pub fn get_char(&mut self) -> (r: Option<char>)
        requires
            old(self).wf(),
        ensures
            r == char_at(old(self).bytes(), old(self).pointer()),
            *final(self) == *old(self),
    {
        if self.pointer < self.len {
            let c = self.buffer[self.pointer];
            if c < 0x80 {
                Some(c as char)
            } else {
                None
            }
        } else {
            None
        }
    }

    /// Moves the read position forward by `n`.
    pub fn update_pointer(&mut self, n: usize)
        requires
            old(self).pointer() + n <= usize::MAX,
        ensures
            final(self).pointer() == old(self).pointer() + n,
            final(self).bytes() == old(self).bytes(),
            final(self).row() == old(self).row(),
            final(self).col() == old(self).col(),
            final(self).wf() == old(self).wf(),
    {
        self.pointer += n;
    }

    /// The character behind the one at the read position, if there is one.
    pub fn look_forward(&mut self) -> (r: Option<char>)
        requires
            old(self).wf(),
            old(self).pointer() < usize::MAX,
        ensures
            r == char_at(old(self).bytes(), old(self).pointer() + 1),
            *final(self) == *old(self),
    {
        self.pointer += 1;
        let c: Option<char> = self.get_char();
        self.pointer -= 1;
        c
    }

    /// The line and the column of the read position.
    pub fn position(&self) -> (r: (u32, u32))
        ensures
            r.0 == self.row(),
            r.1 == self.col(),
    {
        (self.row, self.col)
    }

    fn add_row(&mut self)
        requires
            old(self).row() < u32::MAX,
        ensures
            final(self).row() == old(self).row() + 1,
            final(self).col() == old(self).col(),
            final(self).pointer() == old(self).pointer(),
            final(self).bytes() == old(self).bytes(),
            final(self).wf() == old(self).wf(),
    {
        self.row += 1;
    }

    fn add_col(&mut self)
        requires
            old(self).col() < u32::MAX,
        ensures
            final(self).col() == old(self).col() + 1,
            final(self).row() == old(self).row(),
            final(self).pointer() == old(self).pointer(),
            final(self).bytes() == old(self).bytes(),
            final(self).wf() == old(self).wf(),
    {
        self.col += 1;
    }

    /// Sets the column back to 1.
    pub fn init_col(&mut self)
        ensures
            final(self).col() == 1,
            final(self).row() == old(self).row(),
            final(self).pointer() == old(self).pointer(),
            final(self).bytes() == old(self).bytes(),
            final(self).wf() == old(self).wf(),
    {
        self.col = 1;
    }

    /// Moves line and column past the character `c`: a line feed starts
    /// the next line at column 1, any other character is one more column.
    pub fn update_position(&mut self, c: char)
        requires
            (c as u32) % 256 == 10 ==> old(self).row() < u32::MAX,
            (c as u32) % 256 != 10 ==> old(self).col() < u32::MAX,
        ensures
            final(self).row() == (if (c as u32) % 256 == 10 {
                old(self).row() + 1
            } else {
                old(self).row()
            }),
            final(self).col() == (if (c as u32) % 256 == 10 {
                1
            } else {
                old(self).col() + 1
            }),
            final(self).pointer() == old(self).pointer(),
            final(self).bytes() == old(self).bytes(),
            final(self).wf() == old(self).wf(),
    {
        if ((c as u32) % 256) as u8 == NEWLINE {
            self.add_row();
            self.init_col();
        } else {
            self.add_col();
        }
    }
}

} // verus!
