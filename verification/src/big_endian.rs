//! Natural numbers as big-endian byte strings.

use vstd::prelude::*;

verus! {

/// The number that a big-endian byte string denotes; leading zero bytes do not count.
pub open spec fn be_value(bytes: Seq<u8>) -> nat
    decreases bytes.len(),
{
    if bytes.len() == 0 {
        0
    } else {
        be_value(bytes.drop_last()) * 256 + bytes.last() as nat
    }
}

/// The shortest big-endian byte string that denotes `n`: no leading zero byte, and
/// the empty string for zero.
pub open spec fn be_bytes(n: nat) -> Seq<u8>
    decreases n,
{
    if n == 0 {
        Seq::empty()
    } else {
        be_bytes(n / 256).push((n % 256) as u8)
    }
}

/// Whether the first `k` bytes of `bytes` are all zero.
pub open spec fn leading_zeros(bytes: Seq<u8>, k: int) -> bool {
    &&& 0 <= k <= bytes.len()
    &&& forall|i: int| 0 <= i < k ==> bytes[i] == 0
}

/// A byte string of zeros denotes zero, and only such a string does.
pub proof fn lemma_be_value_zero(bytes: Seq<u8>)
    ensures
        be_value(bytes) == 0 <==> leading_zeros(bytes, bytes.len() as int),
    decreases bytes.len(),
{
    if bytes.len() > 0 {
        lemma_be_value_zero(bytes.drop_last());
        if leading_zeros(bytes, bytes.len() as int) {
            assert(leading_zeros(bytes.drop_last(), bytes.len() - 1));
        }
        if be_value(bytes) == 0 {
            assert forall|i: int| 0 <= i < bytes.len() implies bytes[i] == 0 by {
                if i < bytes.len() - 1 {
                    assert(bytes.drop_last()[i] == bytes[i]);
                }
            }
        }
    }
}

/// Leading zero bytes do not change the value of a byte string.
pub proof fn lemma_be_value_skip_zeros(bytes: Seq<u8>, k: int)
    requires
        leading_zeros(bytes, k),
    ensures
        be_value(bytes) == be_value(bytes.skip(k)),
    decreases bytes.len(),
{
    if k == bytes.len() {
        lemma_be_value_zero(bytes);
        assert(bytes.skip(k) =~= Seq::<u8>::empty());
    } else {
        let front = bytes.drop_last();
        assert forall|i: int| 0 <= i < k implies front[i] == 0 by {
            assert(front[i] == bytes[i]);
        }
        lemma_be_value_skip_zeros(front, k);
        assert(bytes.skip(k).drop_last() =~= front.skip(k));
    }
}

/// Dropping the leading zero bytes of a byte string gives the shortest string of
/// the same value.
pub proof fn lemma_be_bytes_of_value(bytes: Seq<u8>, k: int)
    requires
        leading_zeros(bytes, k),
        k < bytes.len() ==> bytes[k] != 0,
    ensures
        be_bytes(be_value(bytes)) == bytes.skip(k),
    decreases bytes.len(),
{
    lemma_be_value_zero(bytes);
    if k == bytes.len() {
        assert(bytes.skip(k) =~= Seq::<u8>::empty());
    } else {
        let front = bytes.drop_last();
        let n = be_value(bytes);
        assert(n != 0);
        assert(n / 256 == be_value(front) && n % 256 == bytes.last() as nat);
        if k == bytes.len() - 1 {
            lemma_be_value_zero(front);
            assert(leading_zeros(front, front.len() as int));
            assert(be_bytes(0).push(bytes.last()) =~= bytes.skip(k));
        } else {
            assert(front[k] == bytes[k]);
            lemma_be_bytes_of_value(front, k);
            assert(front.skip(k).push(bytes.last()) =~= bytes.skip(k));
        }
    }
}

/// The shortest byte string of a number denotes that number.
pub proof fn lemma_be_value_of_bytes(n: nat)
    ensures
        be_value(be_bytes(n)) == n,
        n != 0 ==> be_bytes(n).len() > 0 && be_bytes(n)[0] != 0,
    decreases n,
{
    if n != 0 {
        lemma_be_value_of_bytes(n / 256);
        let front = be_bytes(n / 256);
        assert(be_bytes(n).drop_last() =~= front);
        if n / 256 != 0 {
            assert(be_bytes(n)[0] == front[0]);
        }
    }
}

/// The number of values that `k` bytes can hold.
pub open spec fn pow256(k: nat) -> nat
    decreases k,
{
    if k == 0 {
        1
    } else {
        256 * pow256((k - 1) as nat)
    }
}

/// A number below `pow256(k)` has at most `k` bytes.
pub proof fn lemma_be_bytes_len_bound(n: nat, k: nat)
    requires
        n < pow256(k),
    ensures
        be_bytes(n).len() <= k,
    decreases k,
{
    if n != 0 {
        lemma_be_bytes_len_bound(n / 256, (k - 1) as nat);
    }
}

/// A number that fits in 64 bits has at most eight bytes, and at least one unless it
/// is zero.
pub proof fn lemma_be_bytes_len(n: nat)
    requires
        n <= u64::MAX,
    ensures
        be_bytes(n).len() <= 8,
        n != 0 ==> be_bytes(n).len() >= 1,
{
    reveal_with_fuel(pow256, 9);
    assert(pow256(8) == 0x1_0000_0000_0000_0000);
    lemma_be_bytes_len_bound(n, 8);
}

/// The bytes of `bytes` from the first one that is not zero.
pub fn trim_leading_zeros(bytes: &[u8]) -> (out: Vec<u8>)
    ensures
        out@ == be_bytes(be_value(bytes@)),
        out@.len() <= bytes@.len(),
{
    let mut k: usize = 0;
    while k < bytes.len() && bytes[k] == 0
        invariant
            leading_zeros(bytes@, k as int),
        decreases bytes.len() - k,
    {
        k += 1;
    }
    let mut out: Vec<u8> = Vec::new();
    let tail = vstd::slice::slice_subrange(bytes, k, bytes.len());
    out.extend_from_slice(tail);
    proof {
        lemma_be_bytes_of_value(bytes@, k as int);
        assert(out@ =~= bytes@.skip(k as int));
    }
    out
}

/// The eight bytes of `n`, most significant first.
pub open spec fn u64_be(n: u64) -> Seq<u8> {
    seq![
        (n >> 56) as u8,
        (n >> 48) as u8,
        (n >> 40) as u8,
        (n >> 32) as u8,
        (n >> 24) as u8,
        (n >> 16) as u8,
        (n >> 8) as u8,
        n as u8,
    ]
}

/// The eight bytes of `n` denote `n`.
pub proof fn lemma_u64_be_value(n: u64)
    ensures
        be_value(u64_be(n)) == n,
{
    let b = u64_be(n);
    let s7 = b.drop_last();
    let s6 = s7.drop_last();
    let s5 = s6.drop_last();
    let s4 = s5.drop_last();
    let s3 = s4.drop_last();
    let s2 = s3.drop_last();
    let s1 = s2.drop_last();
    let s0 = s1.drop_last();
    assert(be_value(s0) == 0);
    assert(be_value(s1) == b[0]);
    assert(be_value(s2) == be_value(s1) * 256 + b[1]);
    assert(be_value(s3) == be_value(s2) * 256 + b[2]);
    assert(be_value(s4) == be_value(s3) * 256 + b[3]);
    assert(be_value(s5) == be_value(s4) * 256 + b[4]);
    assert(be_value(s6) == be_value(s5) * 256 + b[5]);
    assert(be_value(s7) == be_value(s6) * 256 + b[6]);
    assert(be_value(b) == be_value(s7) * 256 + b[7]);
    assert(n == (((((((((n >> 56) as u8) as u64 * 256 + ((n >> 48) as u8) as u64) * 256 + ((n
        >> 40) as u8) as u64) * 256 + ((n >> 32) as u8) as u64) * 256 + ((n >> 24) as u8) as u64)
        * 256 + ((n >> 16) as u8) as u64) * 256 + ((n >> 8) as u8) as u64) * 256 + (n
        as u8) as u64)) by (bit_vector);
}

/// The shortest big-endian byte string of `n`.
pub fn u64_to_be_bytes(n: u64) -> (out: Vec<u8>)
    ensures
        out@ == be_bytes(n as nat),
        out@.len() <= 8,
{
    let full: [u8; 8] = [
        (n >> 56) as u8,
        (n >> 48) as u8,
        (n >> 40) as u8,
        (n >> 32) as u8,
        (n >> 24) as u8,
        (n >> 16) as u8,
        (n >> 8) as u8,
        n as u8,
    ];
    proof {
        assert(full@ =~= u64_be(n));
        lemma_u64_be_value(n);
    }
    trim_leading_zeros(full.as_slice())
}

} // verus!
