use vstd::prelude::*;

use crate::ParserError;

verus! {

/// The little-endian value of the two bytes of `b` at `i`.
pub open spec fn le16(b: Seq<u8>, i: int) -> int {
    b[i] + b[i + 1] * 0x100
}

/// The little-endian value of the four bytes of `b` at `i`.
pub open spec fn le32(b: Seq<u8>, i: int) -> int {
    b[i] + b[i + 1] * 0x100 + b[i + 2] * 0x1_0000 + b[i + 3] * 0x100_0000
}

/// The little-endian value of the eight bytes of `b` at `i`.
pub open spec fn le64(b: Seq<u8>, i: int) -> int {
    le32(b, i) + le32(b, i + 4) * 0x1_0000_0000
}

/// A forward-only cursor over a borrowed byte buffer.
#[derive(Debug)]
pub struct ByteReader<'a> {
    data: &'a [u8],
    pos: usize,
}

impl<'a> ByteReader<'a> {
    /// The bytes the cursor has not consumed yet.
    pub closed spec fn rest(&self) -> Seq<u8> {
        self.data@.subrange(self.pos as int, self.data@.len() as int)
    }

    pub closed spec fn wf(&self) -> bool {
        self.pos <= self.data@.len()
    }

    pub fn new(bytes: &'a [u8]) -> (r: Self)
        ensures
            r.wf(),
            r.rest() == bytes@,
    {
        proof {
            assert(bytes@.subrange(0, bytes@.len() as int) =~= bytes@);
        }
        ByteReader { data: bytes, pos: 0 }
    }

    /// Takes the next `amount` bytes.
    pub fn read_bytes(&mut self, amount: usize) -> (r: Result<&'a [u8], ParserError>)
        requires
            old(self).wf(),
        ensures
            final(self).wf(),
            amount <= old(self).rest().len() ==> {
                &&& r matches Ok(s)
                &&& s@ == old(self).rest().subrange(0, amount as int)
                &&& final(self).rest() == old(self).rest().subrange(
                    amount as int,
                    old(self).rest().len() as int,
                )
            },
            amount > old(self).rest().len() ==> {
                &&& r == Err::<&'a [u8], ParserError>(ParserError::OutOfBounds)
                &&& final(self).rest() == old(self).rest()
            },
    {
        if amount > self.data.len() - self.pos {
            return Err(ParserError::OutOfBounds);
        }
        let start = self.pos;
        let s = vstd::slice::slice_subrange(self.data, start, start + amount);
        self.pos = start + amount;
        proof {
            assert(s@ =~= old(self).rest().subrange(0, amount as int));
            assert(self.rest() =~= old(self).rest().subrange(
                amount as int,
                old(self).rest().len() as int,
            ));
        }
        Ok(s)
    }

    /// Takes the next byte.
    pub fn read_byte(&mut self) -> (r: Result<u8, ParserError>)
        requires
            old(self).wf(),
        ensures
            final(self).wf(),
            old(self).rest().len() >= 1 ==> {
                &&& r == Ok::<u8, ParserError>(old(self).rest()[0])
                &&& final(self).rest() == old(self).rest().subrange(1, old(self).rest().len() as int)
            },
            old(self).rest().len() < 1 ==> {
                &&& r == Err::<u8, ParserError>(ParserError::OutOfBounds)
                &&& final(self).rest() == old(self).rest()
            },
    {
        let s = self.read_bytes(1)?;
        Ok(s[0])
    }

    /// Takes the next two bytes as a little-endian integer.
    pub fn read_u16(&mut self) -> (r: Result<u16, ParserError>)
        requires
            old(self).wf(),
        ensures
            final(self).wf(),
            old(self).rest().len() >= 2 ==> {
                &&& r matches Ok(v)
                &&& v == le16(old(self).rest(), 0)
                &&& final(self).rest() == old(self).rest().subrange(2, old(self).rest().len() as int)
            },
            old(self).rest().len() < 2 ==> {
                &&& r == Err::<u16, ParserError>(ParserError::OutOfBounds)
                &&& final(self).rest() == old(self).rest()
            },
    {
        let s = self.read_bytes(2)?;
        Ok(s[0] as u16 + s[1] as u16 * 0x100)
    }

    /// Takes the next four bytes as a little-endian integer.
    pub fn read_u32(&mut self) -> (r: Result<u32, ParserError>)
        requires
            old(self).wf(),
        ensures
            final(self).wf(),
            old(self).rest().len() >= 4 ==> {
                &&& r matches Ok(v)
                &&& v == le32(old(self).rest(), 0)
                &&& final(self).rest() == old(self).rest().subrange(4, old(self).rest().len() as int)
            },
            old(self).rest().len() < 4 ==> {
                &&& r == Err::<u32, ParserError>(ParserError::OutOfBounds)
                &&& final(self).rest() == old(self).rest()
            },
    {
        let s = self.read_bytes(4)?;
        Ok(s[0] as u32 + s[1] as u32 * 0x100 + s[2] as u32 * 0x1_0000 + s[3] as u32 * 0x100_0000)
    }

    /// Takes the next eight bytes as a little-endian integer.
    pub fn read_u64(&mut self) -> (r: Result<u64, ParserError>)
        requires
            old(self).wf(),
        ensures
            final(self).wf(),
            old(self).rest().len() >= 8 ==> {
                &&& r matches Ok(v)
                &&& v == le64(old(self).rest(), 0)
                &&& final(self).rest() == old(self).rest().subrange(8, old(self).rest().len() as int)
            },
            old(self).rest().len() < 8 ==> {
                &&& r == Err::<u64, ParserError>(ParserError::OutOfBounds)
                &&& final(self).rest() == old(self).rest()
            },
    {
        let s = self.read_bytes(8)?;
        let lo = s[0] as u64 + s[1] as u64 * 0x100 + s[2] as u64 * 0x1_0000 + s[3] as u64
            * 0x100_0000;
        let hi = s[4] as u64 + s[5] as u64 * 0x100 + s[6] as u64 * 0x1_0000 + s[7] as u64
            * 0x100_0000;
        Ok(lo + hi * 0x1_0000_0000)
    }

    /// All bytes not consumed yet; the cursor does not move.
    pub fn remaining(&self) -> (r: &'a [u8])
        requires
            self.wf(),
        ensures
            r@ == self.rest(),
    {
        vstd::slice::slice_subrange(self.data, self.pos, self.data.len())
    }

    /// Moves past the next `amount` bytes.
    pub fn skip(&mut self, amount: usize) -> (r: Result<(), ParserError>)
        requires
            old(self).wf(),
        ensures
            final(self).wf(),
            amount <= old(self).rest().len() ==> {
                &&& r is Ok
                &&& final(self).rest() == old(self).rest().subrange(
                    amount as int,
                    old(self).rest().len() as int,
                )
            },
            amount > old(self).rest().len() ==> {
                &&& r == Err::<(), ParserError>(ParserError::OutOfBounds)
                &&& final(self).rest() == old(self).rest()
            },
    {
        self.read_bytes(amount)?;
        Ok(())
    }
}

} // verus!
