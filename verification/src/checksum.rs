//! The checksum that closes every frame carrying data: the sum of the
//! payload bytes, kept to eight bits.

use vstd::prelude::*;

verus! {

/// The sum of all bytes of a sequence, as a natural number.
pub open spec fn byte_sum(bytes: Seq<u8>) -> nat
    decreases bytes.len(),
{
    if bytes.len() == 0 {
        0
    } else {
        byte_sum(bytes.drop_last()) + bytes.last() as nat
    }
}

/// The checksum of a sequence of bytes: their sum modulo 256.
pub open spec fn checksum_of(bytes: Seq<u8>) -> u8 {
    (byte_sum(bytes) % 256) as u8
}

/// The sum of a concatenation is the sum of the sums of its parts.
pub proof fn lemma_byte_sum_concat(a: Seq<u8>, b: Seq<u8>)
    ensures
        byte_sum(a + b) == byte_sum(a) + byte_sum(b),
    decreases b.len(),
{
    if b.len() == 0 {
        assert(a + b =~= a);
    } else {
        lemma_byte_sum_concat(a, b.drop_last());
        assert((a + b).drop_last() =~= a + b.drop_last());
        assert((a + b).last() == b.last());
    }
}

/// The checksum of two parts put together does not depend on which of them
/// comes first.
pub proof fn lemma_checksum_concat_commutes(a: Seq<u8>, b: Seq<u8>)
    ensures
        checksum_of(a + b) == checksum_of(b + a),
{
    lemma_byte_sum_concat(a, b);
    lemma_byte_sum_concat(b, a);
}

/// The checksum of two bytes is the same in either order.
pub proof fn lemma_checksum_pair_commutes(a: u8, b: u8)
    ensures
        checksum_of(seq![a, b]) == checksum_of(seq![b, a]),
        checksum_of(seq![a, b]) == (a + b) % 256,
{
    assert(seq![a, b] =~= seq![a] + seq![b]);
    assert(seq![b, a] =~= seq![b] + seq![a]);
    lemma_checksum_concat_commutes(seq![a], seq![b]);
    lemma_byte_sum_concat(seq![a], seq![b]);
    lemma_byte_sum_single(a);
    lemma_byte_sum_single(b);
}

/// The sum of a single byte is that byte.
pub proof fn lemma_byte_sum_single(a: u8)
    ensures
        byte_sum(seq![a]) == a,
{
    let s = seq![a];
    assert(s.drop_last().len() == 0);
    assert(byte_sum(s.drop_last()) == 0);
    assert(s.last() == a);
}

/// Two sequences that hold the same bytes, each as often as the other, have
/// the same sum, whatever the order of the bytes.
pub proof fn lemma_byte_sum_permutation(a: Seq<u8>, b: Seq<u8>)
    requires
        a.to_multiset() == b.to_multiset(),
    ensures
        byte_sum(a) == byte_sum(b),
        checksum_of(a) == checksum_of(b),
    decreases a.len(),
{
    vstd::seq_lib::to_multiset_len(a);
    vstd::seq_lib::to_multiset_len(b);
    if a.len() == 0 {
    } else {
        let x = a.last();
        let last = a.len() - 1;
        assert(a[last] == x);
        assert(a.contains(x));
        vstd::seq_lib::to_multiset_contains(a, x);
        vstd::seq_lib::to_multiset_contains(b, x);
        let j = choose|j: int| 0 <= j < b.len() && b[j] == x;
        let rest = b.remove(j);
        assert(a.drop_last() =~= a.remove(last));
        vstd::seq_lib::to_multiset_remove(a, last);
        vstd::seq_lib::to_multiset_remove(b, j);
        lemma_byte_sum_permutation(a.drop_last(), rest);
        lemma_byte_sum_remove(b, j);
    }
}

/// Taking one byte out of a sequence lowers the sum by that byte.
pub proof fn lemma_byte_sum_remove(s: Seq<u8>, i: int)
    requires
        0 <= i < s.len(),
    ensures
        byte_sum(s) == byte_sum(s.remove(i)) + s[i],
{
    let head = s.subrange(0, i);
    let tail = s.subrange(i + 1, s.len() as int);
    assert(s =~= head + seq![s[i]] + tail);
    assert(s.remove(i) =~= head + tail);
    lemma_byte_sum_concat(head + seq![s[i]], tail);
    lemma_byte_sum_concat(head, seq![s[i]]);
    lemma_byte_sum_concat(head, tail);
    lemma_byte_sum_single(s[i]);
}

/// A sequence whose bytes are those of another, each moved to a place of
/// its own, has the same sum. `place` says where each byte of `a` sits in
/// `b`.
pub proof fn lemma_byte_sum_rearranged(a: Seq<u8>, b: Seq<u8>, place: spec_fn(int) -> int)
    requires
        a.len() == b.len(),
        forall|i: int| 0 <= i < a.len() ==> 0 <= #[trigger] place(i) < b.len() && b[place(i)] == a[i],
        forall|i: int, k: int|
            0 <= i < a.len() && 0 <= k < a.len() && #[trigger] place(i) == #[trigger] place(k)
                ==> i == k,
    ensures
        byte_sum(a) == byte_sum(b),
        checksum_of(a) == checksum_of(b),
    decreases a.len(),
{
    if a.len() > 0 {
        let last = a.len() - 1;
        let taken = place(last);
        let shifted = |i: int|
            if place(i) < taken {
                place(i)
            } else {
                place(i) - 1
            };
        let rest = b.remove(taken);
        assert forall|i: int| 0 <= i < last implies 0 <= #[trigger] shifted(i) < rest.len()
            && rest[shifted(i)] == a.drop_last()[i] by {
            assert(place(i) != place(last));
        }
        assert forall|i: int, k: int|
            0 <= i < last && 0 <= k < last && #[trigger] shifted(i) == #[trigger] shifted(
                k,
            ) implies i == k by {
            assert(place(i) != place(last));
            assert(place(k) != place(last));
            assert(place(i) == place(k));
        }
        lemma_byte_sum_rearranged(a.drop_last(), rest, shifted);
        lemma_byte_sum_remove(b, taken);
    }
}

/// Computes the checksum of `bytes`: their sum, where each addition wraps
/// around at 256.
pub fn checksum(bytes: &[u8]) -> (sum: u8)
    ensures
        sum == checksum_of(bytes@),
{
    let mut sum: u8 = 0;
    let mut i: usize = 0;
    while i < bytes.len()
        invariant
            i <= bytes.len(),
            sum == checksum_of(bytes@.take(i as int)),
        decreases bytes.len() - i,
    {
        proof {
            let next = bytes@.take(i + 1);
            assert(next.drop_last() =~= bytes@.take(i as int));
            assert(next.last() == bytes@[i as int]);
        }
        sum = sum.wrapping_add(bytes[i]);
        i += 1;
    }
    assert(bytes@.take(i as int) =~= bytes@);
    sum
}

} // verus!
