//! Bounds-checked reading over the instruction buffer.
//!
//! All byte consumption of the decoder, in the specification and in the
//! executable code alike, goes through one read model: [`spec_read`] says
//! what reading `n` bytes at an offset yields, and the [`Cursor`] methods are
//! proved to follow it. A read past the 15-byte architectural limit fails
//! with `InstructionTooLong` before the buffer bound is even consulted, so
//! the cap is enforced as soon as it is exceeded.

use vstd::prelude::*;

use crate::decode_error::DecodeError;

verus! {

/// The architectural limit on the length of one instruction, in bytes.
pub const MAX_INSN_LEN: usize = 15;

/// The little-endian value of the `n` bytes of `s` that start at `pos`.
pub open spec fn le_at(s: Seq<u8>, pos: int, n: nat) -> int
    decreases n,
{
    if n == 0 {
        0
    } else {
        s[pos] + 256 * le_at(s, pos + 1, (n - 1) as nat)
    }
}

/// `256 ^ n`: the number of values `n` bytes can take.
pub open spec fn pow256(n: nat) -> int
    decreases n,
{
    if n == 0 {
        1
    } else {
        256 * pow256((n - 1) as nat)
    }
}

/// What reading `n` bytes at offset `pos` of buffer `s` yields. The
/// instruction-length cap is checked first, the buffer bound second; a
/// successful read is the little-endian value of the bytes.
pub open spec fn spec_read(s: Seq<u8>, pos: int, n: nat) -> Result<u64, DecodeError> {
    if pos + n > MAX_INSN_LEN {
        Err(DecodeError::InstructionTooLong)
    } else if pos + n > s.len() {
        Err(DecodeError::OutOfBuffer)
    } else {
        Ok(le_at(s, pos, n) as u64)
    }
}

/// A one-byte read returns exactly the byte at its position.
pub proof fn lemma_read_byte(s: Seq<u8>, pos: int)
    requires
        0 <= pos,
    ensures
        spec_read(s, pos, 1) matches Ok(v) ==> pos < s.len() && v == s[pos],
{
    reveal_with_fuel(le_at, 2);
}

/// A little-endian value is bounded by the count of its bytes.
pub proof fn lemma_le_at_bound(s: Seq<u8>, pos: int, n: nat)
    requires
        0 <= pos,
        pos + n <= s.len(),
    ensures
        0 <= le_at(s, pos, n) < pow256(n),
    decreases n,
{
    if n > 0 {
        lemma_le_at_bound(s, pos + 1, (n - 1) as nat);
    }
}

/// The byte-count bounds the executable reader needs, as plain numbers.
pub proof fn lemma_pow256_vals()
    ensures
        pow256(7) == 0x100000000000000,
        pow256(8) == 0x10000000000000000,
{
    reveal_with_fuel(pow256, 9);
}

/// `pow256` is positive.
pub proof fn lemma_pow256_pos(n: nat)
    ensures
        pow256(n) > 0,
    decreases n,
{
    if n > 0 {
        lemma_pow256_pos((n - 1) as nat);
    }
}

/// `pow256` grows with its argument.
pub proof fn lemma_pow256_mono(a: nat, b: nat)
    requires
        a <= b,
    ensures
        0 < pow256(a) <= pow256(b),
    decreases b,
{
    if a == b {
        lemma_pow256_pos(a);
    } else {
        lemma_pow256_mono(a, (b - 1) as nat);
    }
}

/// The value of a read depends only on the bytes it covers: a buffer that
/// agrees with `s1` on a prefix long enough for the read yields the same
/// value, and one cut short before `pos + n` runs out of buffer instead.
pub proof fn lemma_le_at_agree(s1: Seq<u8>, s2: Seq<u8>, pos: int, n: nat)
    requires
        0 <= pos,
        pos + n <= s2.len(),
        s2.len() <= s1.len(),
        forall|i: int| 0 <= i < s2.len() ==> s1[i] == s2[i],
    ensures
        le_at(s1, pos, n) == le_at(s2, pos, n),
    decreases n,
{
    if n > 0 {
        lemma_le_at_agree(s1, s2, pos + 1, (n - 1) as nat);
    }
}

/// How a successful read behaves once the buffer is truncated: with the read
/// window still inside the shorter buffer nothing changes, and with the
/// window cut the read reports `OutOfBuffer`.
pub proof fn lemma_read_agree(s1: Seq<u8>, s2: Seq<u8>, pos: int, n: nat)
    requires
        0 <= pos,
        s2.len() <= s1.len(),
        forall|i: int| 0 <= i < s2.len() ==> s1[i] == s2[i],
        spec_read(s1, pos, n) is Ok,
    ensures
        pos + n <= s2.len() ==> spec_read(s2, pos, n) == spec_read(s1, pos, n),
        pos + n > s2.len() ==> spec_read(s2, pos, n) == Err::<u64, DecodeError>(
            DecodeError::OutOfBuffer,
        ),
    decreases n,
{
    if pos + n <= s2.len() {
        lemma_le_at_agree(s1, s2, pos, n);
    }
}

/// A bounds-checked read cursor over the instruction buffer: a borrowed view
/// of the input, the immutable length, and a read offset that only a
/// successful read advances.
pub struct Cursor<'a> {
    /// The instruction bytes.
    pub buf: &'a [u8],
    /// How many bytes have been consumed so far.
    pub pos: usize,
}

/// The little-endian value of `n` bytes of `buf` starting at `pos`.
fn read_le(buf: &[u8], pos: usize, n: usize) -> (v: u64)
    requires
        n <= 8,
        pos + n <= buf@.len(),
    ensures
        v == le_at(buf@, pos as int, n as nat),
{
    let blen = buf.len();
    let mut acc: u64 = 0;
    let mut i: usize = n;
    while i > 0
        invariant
            i <= n <= 8,
            pos + n <= blen,
            blen == buf@.len(),
            acc == le_at(buf@, pos + i, (n - i) as nat),
            acc < pow256((n - i) as nat),
        decreases i,
    {
        proof {
            lemma_pow256_mono((n - i) as nat, 7);
            lemma_pow256_vals();
            lemma_le_at_bound(buf@, pos + i - 1, (n - i + 1) as nat);
        }
        acc = acc * 256 + (buf[pos + (i - 1)] as u64);
        i = i - 1;
    }
    acc
}

impl<'a> Cursor<'a> {
    /// A fresh cursor at the start of `buf`.
    pub fn new(buf: &'a [u8]) -> (c: Cursor<'a>)
        ensures
            c.buf@ == buf@,
            c.pos == 0,
    {
        Cursor { buf, pos: 0 }
    }

    /// Bytes consumed so far.
    pub fn position(&self) -> (p: usize)
        ensures
            p == self.pos,
    {
        self.pos
    }

    /// Returns the next `n` bytes as a little-endian value without
    /// advancing; fails exactly as [`spec_read`] says.
    pub fn peek(&self, n: usize) -> (r: Result<u64, DecodeError>)
        requires
            1 <= n <= 8,
        ensures
            r == spec_read(self.buf@, self.pos as int, n as nat),
    {
        if self.pos > MAX_INSN_LEN - n {
            Err(DecodeError::InstructionTooLong)
        } else if self.pos + n > self.buf.len() {
            Err(DecodeError::OutOfBuffer)
        } else {
            proof {
                lemma_le_at_bound(self.buf@, self.pos as int, n as nat);
                lemma_pow256_mono(n as nat, 8);
                lemma_pow256_vals();
            }
            Ok(read_le(self.buf, self.pos, n))
        }
    }

    /// Returns `n` bytes as a little-endian value from `k` bytes past the
    /// current position, without advancing; fails exactly as [`spec_read`]
    /// says.
    pub fn peek_at(&self, k: usize, n: usize) -> (r: Result<u64, DecodeError>)
        requires
            1 <= n <= 8,
            k <= 8,
            self.pos <= MAX_INSN_LEN,
        ensures
            r == spec_read(self.buf@, self.pos + k, n as nat),
    {
        let q = self.pos + k;
        if q > MAX_INSN_LEN - n {
            Err(DecodeError::InstructionTooLong)
        } else if q + n > self.buf.len() {
            Err(DecodeError::OutOfBuffer)
        } else {
            proof {
                lemma_le_at_bound(self.buf@, q as int, n as nat);
                lemma_pow256_mono(n as nat, 8);
                lemma_pow256_vals();
            }
            Ok(read_le(self.buf, q, n))
        }
    }

    /// Consumes the next `n` bytes and returns their little-endian value,
    /// advancing by exactly `n`; on failure the cursor does not move.
    pub fn take(&mut self, n: usize) -> (r: Result<u64, DecodeError>)
        requires
            1 <= n <= 8,
        ensures
            final(self).buf@ == old(self).buf@,
            r == spec_read(old(self).buf@, old(self).pos as int, n as nat),
            r is Ok ==> final(self).pos == old(self).pos + n,
            r is Err ==> final(self).pos == old(self).pos,
    {
        let r = self.peek(n);
        if r.is_ok() {
            self.pos = self.pos + n;
        }
        r
    }
}

} // verus!
