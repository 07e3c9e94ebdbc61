//! A big-endian cursor over an in-memory byte buffer.
use vstd::prelude::*;
use crate::error::LuaError;

verus! {

/// What decoding a byte string gives, with every invalid UTF-8 sequence
/// replaced by U+FFFD.
pub uninterp spec fn utf8_lossy(b: Seq<u8>) -> Seq<char>;

/// Relies on `String::from_utf8_lossy`: the text of `b`, invalid sequences
/// replaced; no bytes give no text.
#[verifier::external_body]
fn decode_lossy(b: &Vec<u8>) -> (r: String)
    ensures
        r@ == utf8_lossy(b@),
        b@.len() == 0 ==> r@.len() == 0,
{
    String::from_utf8_lossy(b.as_slice()).into_owned()
}

/// Outcome of a read at some position: the value and the position after
/// it, or the error.
pub type ReadResult<T> = Result<(T, int), LuaError>;

/// Pairs an executable read's result with the cursor position after it.
pub open spec fn outcome<T>(r: Result<T, LuaError>, end: usize) -> ReadResult<T> {
    match r {
        Ok(v) => Ok((v, end as int)),
        Err(e) => Err(e),
    }
}

/// Whether `n` bytes can be read at `p`.
pub open spec fn fits(d: Seq<u8>, p: int, n: int) -> bool {
    0 <= p && p + n <= d.len()
}

/// The big-endian value of the four bytes at `p`.
pub open spec fn be32(d: Seq<u8>, p: int) -> int {
    d[p] * 0x100_0000 + d[p + 1] * 0x1_0000 + d[p + 2] * 0x100 + d[p + 3]
}

/// Reads one byte.
pub open spec fn u8_at(d: Seq<u8>, p: int) -> ReadResult<u8> {
    if fits(d, p, 1) {
        Ok((d[p], p + 1))
    } else {
        Err(LuaError::Truncated)
    }
}

/// Reads a big-endian `u32`.
pub open spec fn u32_at(d: Seq<u8>, p: int) -> ReadResult<u32> {
    if fits(d, p, 4) {
        Ok((be32(d, p) as u32, p + 4))
    } else {
        Err(LuaError::Truncated)
    }
}

/// Reads a big-endian two's-complement `i32`.
pub open spec fn i32_at(d: Seq<u8>, p: int) -> ReadResult<i32> {
    if fits(d, p, 4) {
        let v = be32(d, p);
        Ok(((if v < 0x8000_0000 { v } else { v - 0x1_0000_0000 }) as i32, p + 4))
    } else {
        Err(LuaError::Truncated)
    }
}

/// The big-endian value of the eight bytes at `p`.
pub open spec fn be64(d: Seq<u8>, p: int) -> int {
    be32(d, p) * 0x1_0000_0000 + be32(d, p + 4)
}

/// Reads a big-endian `u64`.
pub open spec fn u64_at(d: Seq<u8>, p: int) -> ReadResult<u64> {
    if fits(d, p, 8) {
        Ok((be64(d, p) as u64, p + 8))
    } else {
        Err(LuaError::Truncated)
    }
}

/// Reads a big-endian two's-complement `i64`.
pub open spec fn i64_at(d: Seq<u8>, p: int) -> ReadResult<i64> {
    if fits(d, p, 8) {
        let v = be64(d, p);
        Ok(((if v < 0x8000_0000_0000_0000 { v } else { v - 0x1_0000_0000_0000_0000 }) as i64, p + 8))
    } else {
        Err(LuaError::Truncated)
    }
}

/// `b` without its trailing NUL bytes.
pub open spec fn trim_nul(b: Seq<u8>) -> Seq<u8>
    decreases b.len(),
{
    if b.len() > 0 && b.last() == 0 {
        trim_nul(b.drop_last())
    } else {
        b
    }
}

/// The text of `n` bytes at `p`: decoded lossily, trailing NULs removed. A
/// NUL byte always decodes alone to a NUL character, so removing NUL bytes
/// before decoding gives the text that removing NUL characters after would.
pub open spec fn text_at(d: Seq<u8>, p: int, n: int) -> ReadResult<Seq<char>> {
    if fits(d, p, n) {
        Ok((utf8_lossy(trim_nul(d.subrange(p, p + n))), p + n))
    } else {
        Err(LuaError::Truncated)
    }
}

/// The first multiple of four at or after `p`.
pub open spec fn align4(p: int) -> int {
    if p % 4 == 0 {
        p
    } else {
        p + (4 - p % 4)
    }
}

/// The padding skip lands on the first multiple of four at or after `p`: it
/// stays put on an aligned offset and skips 1 to 3 bytes otherwise, and it
/// fails exactly when that offset lies past the end of the data.
pub proof fn lemma_align(d: Seq<u8>, p: int)
    requires
        0 <= p,
    ensures
        align_at(d, p) is Ok <==> align4(p) <= d.len(),
        align_at(d, p) is Err ==> align_at(d, p) == ReadResult::<()>::Err(
            LuaError::MisalignedSection,
        ),
        align4(p) % 4 == 0,
        p <= align4(p) < p + 4,
        p % 4 == 0 ==> align4(p) == p,
        p % 4 != 0 ==> align4(p) - p == 4 - p % 4,
{
}

/// Skips to the next 4-byte boundary.
pub open spec fn align_at(d: Seq<u8>, p: int) -> ReadResult<()> {
    if 0 <= p && align4(p) <= d.len() {
        Ok(((), align4(p)))
    } else {
        Err(LuaError::MisalignedSection)
    }
}

/// Maps the text of a read to its characters.
pub open spec fn text_outcome(r: Result<String, LuaError>, end: usize) -> ReadResult<Seq<char>> {
    match r {
        Ok(s) => Ok((s@, end as int)),
        Err(e) => Err(e),
    }
}

/// A sequential cursor over a byte buffer.
pub struct ByteReader {
    pub data: Vec<u8>,
    pub pos: usize,
}

impl ByteReader {
    /// A cursor at the start of `data`.
    pub fn new(data: Vec<u8>) -> (r: ByteReader)
        ensures
            r.data@ == data@,
            r.pos == 0,
    {
        ByteReader { data, pos: 0 }
    }

    /// The current offset into the buffer.
    pub fn position(&self) -> (r: usize)
        ensures
            r == self.pos,
    {
        self.pos
    }

    /// Whether `n` bytes remain.
    fn has(&self, n: usize) -> (r: bool)
        ensures
            r == fits(self.data@, self.pos as int, n as int),
            r ==> self.pos + n <= self.data.len(),
    {
        self.pos <= self.data.len() && self.data.len() - self.pos >= n
    }

    pub fn read_u8(&mut self) -> (r: Result<u8, LuaError>)
        ensures
            final(self).data@ == old(self).data@,
            outcome(r, final(self).pos) == u8_at(old(self).data@, old(self).pos as int),
    {
        if !self.has(1) {
            return Err(LuaError::Truncated);
        }
        let b = self.data[self.pos];
        self.pos = self.pos + 1;
        Ok(b)
    }

    pub fn read_u32(&mut self) -> (r: Result<u32, LuaError>)
        ensures
            final(self).data@ == old(self).data@,
            outcome(r, final(self).pos) == u32_at(old(self).data@, old(self).pos as int),
    {
        if !self.has(4) {
            return Err(LuaError::Truncated);
        }
        let p = self.pos;
        let b0 = self.data[p] as u32;
        let b1 = self.data[p + 1] as u32;
        let b2 = self.data[p + 2] as u32;
        let b3 = self.data[p + 3] as u32;
        let v: u32 = b0 * 0x100_0000 + b1 * 0x1_0000 + b2 * 0x100 + b3;
        self.pos = p + 4;
        Ok(v)
    }

    pub fn read_i32(&mut self) -> (r: Result<i32, LuaError>)
        ensures
            final(self).data@ == old(self).data@,
            outcome(r, final(self).pos) == i32_at(old(self).data@, old(self).pos as int),
    {
        let u = match self.read_u32() {
            Ok(u) => u,
            Err(e) => return Err(e),
        };
        if u < 0x8000_0000 {
            Ok(u as i32)
        } else {
            let m: u32 = u - 0x8000_0000;
            Ok((m as i32) - 0x7FFF_FFFF - 1)
        }
    }

    pub fn read_u64(&mut self) -> (r: Result<u64, LuaError>)
        ensures
            final(self).data@ == old(self).data@,
            outcome(r, final(self).pos) == u64_at(old(self).data@, old(self).pos as int),
    {
        if !self.has(8) {
            return Err(LuaError::Truncated);
        }
        let hi = match self.read_u32() {
            Ok(v) => v,
            Err(e) => return Err(e),
        };
        let lo = match self.read_u32() {
            Ok(v) => v,
            Err(e) => return Err(e),
        };
        Ok((hi as u64) * 0x1_0000_0000 + (lo as u64))
    }

    pub fn read_i64(&mut self) -> (r: Result<i64, LuaError>)
        ensures
            final(self).data@ == old(self).data@,
            outcome(r, final(self).pos) == i64_at(old(self).data@, old(self).pos as int),
    {
        let u = match self.read_u64() {
            Ok(u) => u,
            Err(e) => return Err(e),
        };
        if u < 0x8000_0000_0000_0000 {
            Ok(u as i64)
        } else {
            let m: u64 = u - 0x8000_0000_0000_0000;
            Ok((m as i64) - 0x7FFF_FFFF_FFFF_FFFF - 1)
        }
    }

    /// Reads `n` bytes as text: decoded lossily, trailing NULs removed.
    pub fn read_text(&mut self, n: u32) -> (r: Result<String, LuaError>)
        ensures
            final(self).data@ == old(self).data@,
            text_outcome(r, final(self).pos) == text_at(
                old(self).data@,
                old(self).pos as int,
                n as int,
            ),
    {
        if !self.has(n as usize) {
            return Err(LuaError::Truncated);
        }
        let p = self.pos;
        let ghost d = self.data@;
        let mut k: usize = n as usize;
        while k > 0 && self.data[p + k - 1] == 0
            invariant
                self.data@ == d,
                p + n <= self.data.len(),
                k <= n,
                trim_nul(d.subrange(p as int, p + n)) == trim_nul(d.subrange(p as int, p + k)),
            decreases k,
        {
            assert(d.subrange(p as int, p + k).drop_last() =~= d.subrange(p as int, p + k - 1));
            k = k - 1;
        }
        assert(trim_nul(d.subrange(p as int, p + k)) == d.subrange(p as int, p + k));
        let mut bytes: Vec<u8> = Vec::new();
        let mut i: usize = 0;
        while i < k
            invariant
                self.data@ == d,
                p + n <= self.data.len(),
                k <= n,
                i <= k,
                bytes@ =~= d.subrange(p as int, p + i),
            decreases k - i,
        {
            bytes.push(self.data[p + i]);
            i = i + 1;
            assert(bytes@ =~= d.subrange(p as int, p + i));
        }
        let s = decode_lossy(&bytes);
        self.pos = p + n as usize;
        Ok(s)
    }

    /// Skips to the next 4-byte-aligned offset of the buffer.
    pub fn align_to_4(&mut self) -> (r: Result<(), LuaError>)
        ensures
            final(self).data@ == old(self).data@,
            outcome(r, final(self).pos) == align_at(old(self).data@, old(self).pos as int),
    {
        let rem = self.pos % 4;
        let pad: usize = if rem == 0 { 0 } else { 4 - rem };
        if self.pos > self.data.len() || self.data.len() - self.pos < pad {
            return Err(LuaError::MisalignedSection);
        }
        self.pos = self.pos + pad;
        Ok(())
    }
}

} // verus!
