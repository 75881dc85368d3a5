//! Small helpers for laying out execution traces: index ranges, power-of-two
//! rounding, and a little-endian encoding of lengths.

use vstd::prelude::*;
use vstd::arithmetic::power2::pow2;

verus! {

/// A range of `size` columns starting at `idx`.
pub struct IndexDefinition {
    pub idx: usize,
    pub size: usize,
}

impl IndexDefinition {
    /// The first index of the range.
    pub fn begin(&self) -> (r: usize)
        ensures
            r == self.idx,
    {
        self.idx
    }

    /// One past the last index of the range.
    pub fn end(&self) -> (r: usize)
        requires
            self.idx + self.size <= usize::MAX,
        ensures
            r == self.idx + self.size,
    {
        self.idx + self.size
    }
}

/// Slicing by an `IndexDefinition`.
pub trait IndexDefinitionSlice<T> {
    /// The items that can be sliced.
    spec fn items(&self) -> Seq<T>;

    /// The items at `id.idx .. id.idx + id.size`.
    fn id_slice(&self, id: IndexDefinition) -> (r: &[T])
        requires
            id.idx + id.size <= self.items().len(),
        ensures
            r@ == self.items().subrange(id.idx as int, id.idx + id.size),
    ;
}

impl<'a, T> IndexDefinitionSlice<T> for &'a [T] {
    open spec fn items(&self) -> Seq<T> {
        (*self)@
    }

    fn id_slice(&self, id: IndexDefinition) -> (r: &[T]) {
        let s: &'a [T] = *self;
        let len = s.len();
        proof {
            assert(id.idx + id.size <= len);
        }
        vstd::slice::slice_subrange(s, id.begin(), id.end())
    }
}

/// The smallest power of two that is at least `number` (one for zero).
pub fn next_power_of_two(number: usize) -> (r: usize)
    requires
        number <= usize::MAX / 2 + 1,
    ensures
        exists|k: nat| r == pow2(k),
        r >= number,
        r == 1 || r / 2 < number,
{
    let mut result: usize = 1;
    let ghost mut k: nat = 0;
    proof {
        vstd::arithmetic::power2::lemma2_to64();
    }
    while result < number
        invariant
            result == pow2(k),
            result >= 1,
            result == 1 || result / 2 < number,
            number <= usize::MAX / 2 + 1,
        decreases usize::MAX - result,
    {
        proof {
            vstd::arithmetic::power2::lemma_pow2_adds(k, 1);
            vstd::arithmetic::power2::lemma2_to64();
        }
        result = result * 2;
        proof {
            k = k + 1;
        }
    }
    result
}

/// The first `k` little-endian base-256 digits of `num`.
pub open spec fn le_bytes(num: nat, k: nat) -> Seq<u8>
    decreases k,
{
    if k == 0 {
        seq![]
    } else {
        seq![(num % 256) as u8] + le_bytes(num / 256, (k - 1) as nat)
    }
}

/// The value of little-endian base-256 digits.
pub open spec fn le_value(s: Seq<u8>) -> nat
    decreases s.len(),
{
    if s.len() == 0 {
        0
    } else {
        le_value(s.drop_last()) + (s.last() as nat) * pow2((8 * (s.len() - 1)) as nat)
    }
}

/// The little-endian bytes of `num`, one for each byte of a `usize`.
pub fn create_meta(num: usize) -> (r: Vec<u8>)
    ensures
        r@ == le_bytes(num as nat, vstd::layout::size_of::<usize>()),
{
    let n = core::mem::size_of::<usize>();
    let mut result: Vec<u8> = Vec::new();
    let mut cur: usize = num;
    let mut i: usize = 0;
    while i < n
        invariant
            n == vstd::layout::size_of::<usize>(),
            i <= n,
            result@ + le_bytes(cur as nat, (n - i) as nat) == le_bytes(num as nat, n as nat),
        decreases n - i,
    {
        let b = (cur & 0xFF) as u8;
        proof {
            assert(cur & 0xFF == cur % 256) by (bit_vector);
            assert(cur >> 8 == cur / 256) by (bit_vector);
            let rest = le_bytes((cur / 256) as nat, (n - i - 1) as nat);
            assert(le_bytes(cur as nat, (n - i) as nat) == seq![b] + rest);
            assert(result@ + (seq![b] + rest) =~= result@.push(b) + rest);
        }
        result.push(b);
        cur = cur >> 8;
        i = i + 1;
    }
    assert(result@ + le_bytes(cur as nat, 0) =~= result@);
    result
}

proof fn lemma_le_value_prefix(s: Seq<u8>, k: nat)
    requires
        k <= s.len(),
    ensures
        le_value(s.take(k as int)) <= le_value(s),
    decreases s.len(),
{
    if k < s.len() {
        let d = s.drop_last();
        assert(d.take(k as int) =~= s.take(k as int));
        lemma_le_value_prefix(d, k);
        vstd::arithmetic::power2::lemma_pow2_pos((8 * (s.len() - 1)) as nat);
    } else {
        assert(s.take(k as int) =~= s);
    }
}

/// The value of the little-endian bytes `meta`.
pub fn get_meta(meta: &Vec<u8>) -> (r: usize)
    requires
        le_value(meta@) <= usize::MAX,
        meta@.len() == 0 || pow2((8 * (meta@.len() - 1)) as nat) <= usize::MAX,
    ensures
        r == le_value(meta@),
{
    let len = meta.len();
    let mut result: usize = 0;
    let mut factor: usize = 1;
    let mut i: usize = 0;
    proof {
        vstd::arithmetic::power2::lemma2_to64();
        assert(meta@.take(0) =~= Seq::<u8>::empty());
    }
    while i < len
        invariant
            len == meta@.len(),
            i <= len,
            le_value(meta@) <= usize::MAX,
            len == 0 || pow2((8 * (len - 1)) as nat) <= usize::MAX,
            result == le_value(meta@.take(i as int)),
            i < len ==> factor == pow2((8 * i) as nat),
        decreases len - i,
    {
        let b = meta[i] as usize;
        proof {
            let t = meta@.take(i as int + 1);
            assert(t.drop_last() =~= meta@.take(i as int));
            assert(t.last() == meta@[i as int]);
            assert(le_value(t) == result + b * factor);
            lemma_le_value_prefix(meta@, (i + 1) as nat);
        }
        result = result + b * factor;
        if i + 1 < len {
            proof {
                vstd::arithmetic::power2::lemma_pow2_adds((8 * i) as nat, 8);
                vstd::arithmetic::power2::lemma2_to64();
                if i + 1 < len - 1 {
                    vstd::arithmetic::power2::lemma_pow2_strictly_increases(
                        (8 * (i + 1)) as nat,
                        (8 * (len - 1)) as nat,
                    );
                }
            }
            factor = factor * 256;
        }
        i = i + 1;
    }
    proof {
        assert(meta@.take(len as int) =~= meta@);
    }
    result
}

} // verus!
