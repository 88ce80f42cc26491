//! Byte-addressable memory that reads as zero wherever nothing was written
//! and grows to cover every span that is read or written.

use vstd::prelude::*;
use vstd::arithmetic::power2::{pow2, lemma_pow2_pos, lemma_pow2_adds, lemma2_to64};
use vstd::arithmetic::div_mod::{lemma_fundamental_div_mod_converse, lemma_div_denominator};
use crate::word::{Word, word_of, lemma_word_of_view};
use crate::primitives::{be_nat, u256_from_be_slice, u256_to_be_bytes};

verus! {

/// The largest size that a memory may grow to.
pub const MEMORY_LIMIT: usize = 0x7fff_ffff;

/// `n` zero bytes.
pub open spec fn zeros(n: nat) -> Seq<u8> {
    Seq::new(n, |i: int| 0u8)
}

/// The memory `m` grown with zero bytes to hold at least `end` bytes.
pub open spec fn grown(m: Seq<u8>, end: int) -> Seq<u8> {
    if end <= m.len() {
        m
    } else {
        m + zeros((end - m.len()) as nat)
    }
}

/// The memory `m` after the bytes `data` are stored from `offset` on.
pub open spec fn spec_write(m: Seq<u8>, offset: int, data: Seq<u8>) -> Seq<u8> {
    let g = grown(m, offset + data.len());
    Seq::new(
        g.len(),
        |i: int|
            if offset <= i < offset + data.len() {
                data[i - offset]
            } else {
                g[i]
            },
    )
}

/// The `size` bytes of `m` from `offset` on, with zeros past the end of `m`.
pub open spec fn spec_read(m: Seq<u8>, offset: int, size: int) -> Seq<u8> {
    grown(m, offset + size).subrange(offset, offset + size)
}

/// The bytes of `data` cut off or filled up with zeros to `size` bytes.
pub open spec fn padded(data: Seq<u8>, size: nat) -> Seq<u8> {
    Seq::new(
        size,
        |i: int|
            if i < data.len() {
                data[i]
            } else {
                0u8
            },
    )
}

/// The 32 bytes of a word, most significant byte first.
pub open spec fn word_bytes(w: Word) -> Seq<u8> {
    Seq::new(32, |i: int| ((w@ / pow2((8 * (31 - i)) as nat)) % 256) as u8)
}

/// The larger of two offsets.
pub open spec fn max_of(a: int, b: int) -> int {
    if a >= b {
        a
    } else {
        b
    }
}

/// Byte `i` of a byte string is digit `len - 1 - i` of the number it spells.
pub proof fn lemma_be_nat_digit(s: Seq<u8>, i: int)
    requires
        0 <= i < s.len(),
    ensures
        s[i] == (be_nat(s) / pow2((8 * (s.len() - 1 - i)) as nat)) % 256,
    decreases s.len(),
{
    let n = be_nat(s);
    let init = s.drop_last();
    lemma2_to64();
    if i == s.len() - 1 {
        assert(pow2(0) == 1);
        lemma_fundamental_div_mod_converse(n as int, 256, be_nat(init) as int, s.last() as int);
        assert((8 * (s.len() - 1 - i)) as nat == 0);
        assert(n / 1 == n);
    } else {
        lemma_be_nat_digit(init, i);
        let e = (8 * (init.len() - 1 - i)) as nat;
        let d = pow2(e);
        lemma_pow2_pos(e);
        lemma_pow2_adds(8, e);
        assert(pow2(8) == 256);
        assert((8 * (s.len() - 1 - i)) as nat == 8 + e);
        lemma_fundamental_div_mod_converse(n as int, 256, be_nat(init) as int, s.last() as int);
        lemma_div_denominator(n as int, 256, d as int);
        assert(n / 256 == be_nat(init));
        assert((n as int / 256) / (d as int) == (n as int) / (256 * (d as int)));
        assert(pow2(8 + e) == 256 * d);
        assert(init[i] == s[i]);
        assert(init[i] == (be_nat(init) / d) % 256);
    }
}

/// The 32 bytes that spell a word out are the bytes of the word.
pub proof fn lemma_word_bytes(w: Word, s: Seq<u8>)
    requires
        s.len() == 32,
        be_nat(s) == w@,
    ensures
        s == word_bytes(w),
{
    assert forall|i: int| 0 <= i < 32 implies s[i] == word_bytes(w)[i] by {
        lemma_be_nat_digit(s, i);
    }
    assert(s =~= word_bytes(w));
}

/// The memory of one frame.
pub struct Memory {
    pub memory: Vec<u8>,
}

impl View for Memory {
    type V = Seq<u8>;

    open spec fn view(&self) -> Seq<u8> {
        self.memory@
    }
}

impl Memory {
    /// An empty memory.
    pub fn new() -> (r: Memory)
        ensures
            r@ == Seq::<u8>::empty(),
    {
        Memory { memory: Vec::with_capacity(1024) }
    }

    /// The number of bytes that the memory has grown to.
    pub fn len(&self) -> (r: usize)
        ensures
            r == self@.len(),
    {
        self.memory.len()
    }

    /// Grows the memory with zero bytes to hold the span of `size` bytes
    /// from `offset` on.
    pub fn ensure_capacity(&mut self, offset: usize, size: usize)
        requires
            offset + size <= MEMORY_LIMIT,
        ensures
            final(self)@ == grown(old(self)@, offset + size),
    {
        if offset + size > self.memory.len() {
            self.memory.resize(offset + size, 0u8);
            assert(self@ =~= grown(old(self)@, offset + size));
        }
    }

    /// Stores a word in 32 bytes from `offset` on, most significant byte
    /// first.
    pub fn write32(&mut self, offset: usize, value: Word)
        requires
            offset + 32 <= MEMORY_LIMIT,
        ensures
            final(self)@ == spec_write(old(self)@, offset as int, word_bytes(value)),
    {
        let bytes = u256_to_be_bytes(value);
        proof {
            lemma_word_bytes(value, bytes@);
        }
        self.write(offset, bytes.as_slice());
    }

    /// Stores one byte at `offset`.
    pub fn write8(&mut self, offset: usize, value: u8)
        requires
            offset + 1 <= MEMORY_LIMIT,
        ensures
            final(self)@ == spec_write(old(self)@, offset as int, seq![value]),
    {
        self.ensure_capacity(offset, 1);
        self.memory[offset] = value;
        assert(self@ =~= spec_write(old(self)@, offset as int, seq![value]));
    }

    /// Stores the bytes of `value` from `offset` on.  Nothing happens, and
    /// the memory does not grow, when `value` is empty.
    pub fn write(&mut self, offset: usize, value: &[u8])
        requires
            offset + value@.len() <= MEMORY_LIMIT,
        ensures
            value@.len() == 0 ==> final(self)@ == old(self)@,
            value@.len() > 0 ==> final(self)@ == spec_write(old(self)@, offset as int, value@),
    {
        let n: usize = value.len();
        if n > 0 {
            self.ensure_capacity(offset, n);
            let ghost g = self@;
            let mut i: usize = 0;
            while i < n
                invariant
                    i <= n,
                    n == value@.len(),
                    offset + n <= MEMORY_LIMIT,
                    self@.len() == g.len(),
                    g.len() >= offset + n,
                    forall|j: int|
                        0 <= j < g.len() ==> self@[j] == (if offset <= j < offset + i {
                            value@[j - offset]
                        } else {
                            g[j]
                        }),
                decreases n - i,
            {
                self.memory[offset + i] = value[i];
                i = i + 1;
            }
            assert(self@ =~= spec_write(old(self)@, offset as int, value@));
        }
    }

    /// Stores `size` bytes from `offset` on: the bytes of `value`, cut off
    /// after `size` bytes or followed by zeros up to `size` bytes.
    pub fn write_with_size(&mut self, offset: usize, size: usize, value: &[u8])
        requires
            offset + size <= MEMORY_LIMIT,
        ensures
            final(self)@ == spec_write(old(self)@, offset as int, padded(value@, size as nat)),
    {
        self.ensure_capacity(offset, size);
        let ghost g = self@;
        let n: usize = value.len();
        let mut i: usize = 0;
        while i < size
            invariant
                i <= size,
                n == value@.len(),
                offset + size <= MEMORY_LIMIT,
                self@.len() == g.len(),
                g.len() >= offset + size,
                forall|j: int|
                    0 <= j < g.len() ==> self@[j] == (if offset <= j < offset + i {
                        padded(value@, size as nat)[j - offset]
                    } else {
                        g[j]
                    }),
            decreases size - i,
        {
            let b: u8 = if i < n {
                value[i]
            } else {
                0u8
            };
            self.memory[offset + i] = b;
            i = i + 1;
        }
        assert(self@ =~= spec_write(old(self)@, offset as int, padded(value@, size as nat)));
    }

    /// Stores `size` copies of `value` from `offset` on.
    pub fn fill(&mut self, offset: usize, value: u8, size: usize)
        requires
            offset + size <= MEMORY_LIMIT,
        ensures
            final(self)@ == spec_write(
                old(self)@,
                offset as int,
                Seq::new(size as nat, |i: int| value),
            ),
    {
        self.ensure_capacity(offset, size);
        let ghost g = self@;
        let mut i: usize = 0;
        while i < size
            invariant
                i <= size,
                offset + size <= MEMORY_LIMIT,
                self@.len() == g.len(),
                g.len() >= offset + size,
                forall|j: int|
                    0 <= j < g.len() ==> self@[j] == (if offset <= j < offset + i {
                        value
                    } else {
                        g[j]
                    }),
            decreases size - i,
        {
            self.memory[offset + i] = value;
            i = i + 1;
        }
        assert(self@ =~= spec_write(
            old(self)@,
            offset as int,
            Seq::new(size as nat, |i: int| value),
        ));
    }

    /// Reads `size` bytes from `offset` on.  The memory grows to cover the
    /// span, unless `size` is 0.  What lies past the end of the memory reads
    /// as 0, so a memory in which nothing was written reads as zeros.
    pub fn read(&mut self, offset: usize, size: usize) -> (r: Vec<u8>)
        requires
            offset + size <= MEMORY_LIMIT,
        ensures
            r@ == spec_read(old(self)@, offset as int, size as int),
            r@.len() == size,
            forall|i: int| 0 <= i < size && offset + i >= old(self)@.len() ==> r@[i] == 0,
            old(self)@.len() == 0 ==> r@ == zeros(size as nat),
            size == 0 ==> final(self)@ == old(self)@,
            size > 0 ==> final(self)@ == grown(old(self)@, offset + size),
    {
        proof {
            if old(self)@.len() == 0 {
                assert(old(self)@ =~= Seq::<u8>::empty());
                lemma_fresh_memory_reads_zero(offset as int, size as int);
            }
        }
        if size == 0 {
            let r: Vec<u8> = Vec::new();
            assert(r@ =~= spec_read(old(self)@, offset as int, 0));
            return r;
        }
        self.ensure_capacity(offset, size);
        let r = vstd::slice::slice_to_vec(
            vstd::slice::slice_subrange(self.memory.as_slice(), offset, offset + size),
        );
        r
    }

    /// Reads the word stored in the 32 bytes from `offset` on, most
    /// significant byte first.
    pub fn read32(&mut self, offset: usize) -> (r: Word)
        requires
            offset + 32 <= MEMORY_LIMIT,
        ensures
            r == word_of(be_nat(spec_read(old(self)@, offset as int, 32))),
            final(self)@ == grown(old(self)@, offset + 32),
    {
        self.ensure_capacity(offset, 32);
        let r = u256_from_be_slice(
            vstd::slice::slice_subrange(self.memory.as_slice(), offset, offset + 32),
        );
        proof {
            lemma_word_of_view(r);
        }
        r
    }

    /// Copies `size` bytes from `src_offset` to `dst_offset`.  The bytes
    /// are read before any is written, so the spans may overlap.
    pub fn copy(&mut self, dst_offset: usize, src_offset: usize, size: usize)
        requires
            dst_offset + size <= MEMORY_LIMIT,
            src_offset + size <= MEMORY_LIMIT,
        ensures
            final(self)@ == spec_write(
                grown(old(self)@, max_of(src_offset as int, dst_offset as int) + size),
                dst_offset as int,
                spec_read(
                    grown(old(self)@, max_of(src_offset as int, dst_offset as int) + size),
                    src_offset as int,
                    size as int,
                ),
            ),
    {
        let far: usize = if src_offset >= dst_offset {
            src_offset
        } else {
            dst_offset
        };
        self.ensure_capacity(far, size);
        let ghost g = self@;
        let data = vstd::slice::slice_to_vec(
            vstd::slice::slice_subrange(self.memory.as_slice(), src_offset, src_offset + size),
        );
        self.write(dst_offset, data.as_slice());
        assert(self@ =~= spec_write(g, dst_offset as int, spec_read(g, src_offset as int, size as int)));
    }
}

/// Reading from a memory in which nothing was written gives zeros.
pub proof fn lemma_fresh_memory_reads_zero(offset: int, size: int)
    requires
        0 <= offset,
        0 <= size,
    ensures
        spec_read(Seq::<u8>::empty(), offset, size) == zeros(size as nat),
{
    assert(spec_read(Seq::<u8>::empty(), offset, size) =~= zeros(size as nat));
}

} // verus!
