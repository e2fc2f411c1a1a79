use vstd::prelude::*;
use vstd::slice::slice_subrange;

verus! {

/// A cursor over a borrowed byte buffer. Reads never run past the end of the
/// buffer: a read that asks for more than is left returns what is left.
pub struct BufferParser<'a> {
    data: &'a [u8],
    position: usize,
}

impl<'a> BufferParser<'a> {
    /// The bytes of the buffer the cursor runs over.
    pub closed spec fn data(&self) -> Seq<u8> {
        self.data@
    }

    /// The offset of the next byte to be read.
    pub closed spec fn position(&self) -> int {
        self.position as int
    }

    /// Where a read of `count` bytes ends: `count` bytes on, or at the end of
    /// the buffer if that comes first.
    pub open spec fn read_end(&self, count: int) -> int {
        if self.position() + count <= self.data().len() {
            self.position() + count
        } else {
            self.data().len() as int
        }
    }

    pub fn new(buffer: &'a [u8]) -> (parser: Self)
        ensures
            parser.data() == buffer@,
            parser.position() == 0,
    {
        Self { data: buffer, position: 0 }
    }

    pub fn reset(&mut self)
        ensures
            final(self).data() == old(self).data(),
            final(self).position() == 0,
    {
        self.position = 0;
    }

    /// Moves the cursor. A position beyond the end of the buffer is accepted
    /// here, but nothing can be read from it.
    pub fn set_position(&mut self, position: usize)
        ensures
            final(self).data() == old(self).data(),
            final(self).position() == position,
    {
        self.position = position;
    }

    /// The next `count` bytes, or all that are left if fewer are; the cursor
    /// moves past them.
    pub fn read(&mut self, count: usize) -> (out: &'a [u8])
        requires
            old(self).position() <= old(self).data().len(),
        ensures
            out@ == old(self).data().subrange(
                old(self).position(),
                old(self).read_end(count as int),
            ),
            final(self).data() == old(self).data(),
            final(self).position() == old(self).read_end(count as int),
    {
        let len: usize = self.data.len();
        let end_position: usize = if count > len - self.position {
            len
        } else {
            self.position + count
        };
        let buffer = slice_subrange(self.data, self.position, end_position);
        self.position = end_position;
        buffer
    }

    /// All the bytes from the cursor to the end of the buffer; the cursor
    /// moves to the end.
    pub fn read_until_end(&mut self) -> (out: &'a [u8])
        requires
            old(self).position() <= old(self).data().len(),
        ensures
            out@ == old(self).data().subrange(old(self).position(), old(self).data().len() as int),
            final(self).data() == old(self).data(),
            final(self).position() == old(self).data().len(),
    {
        let len: usize = self.data.len();
        let buffer = slice_subrange(self.data, self.position, len);
        self.position = len;
        buffer
    }
}

} // verus!
