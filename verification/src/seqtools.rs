//! Minimum and sum over byte-bounded sequences, shared by the QoS
//! controller's sliding windows and the encoder's frame-size history.

use vstd::prelude::*;

verus! {

/// The minimum of a sequence of 32-bit values; `u32::MAX` for the empty
/// sequence.
pub open spec fn seq_min_u32(s: Seq<u32>) -> u32
    decreases s.len(),
{
    if s.len() == 0 {
        u32::MAX
    } else {
        let rest = seq_min_u32(s.drop_first());
        if s[0] < rest {
            s[0]
        } else {
            rest
        }
    }
}

/// Appending an element takes the minimum of the old minimum and the
/// element.
pub proof fn lemma_seq_min_u32_push(s: Seq<u32>, x: u32)
    ensures
        seq_min_u32(s.push(x)) == if x < seq_min_u32(s) {
            x
        } else {
            seq_min_u32(s)
        },
    decreases s.len(),
{
    if s.len() == 0 {
        assert(s.push(x).len() == 1);
        assert(seq_min_u32(s) == u32::MAX);
        assert(s.push(x)[0] == x);
        assert(s.push(x).drop_first() =~= Seq::<u32>::empty());
        assert(seq_min_u32(s.push(x).drop_first()) == u32::MAX);
        assert(seq_min_u32(s.push(x)) == if x < u32::MAX {
            x
        } else {
            u32::MAX
        });
    } else {
        assert(s.push(x).drop_first() =~= s.drop_first().push(x));
        lemma_seq_min_u32_push(s.drop_first(), x);
    }
}

/// The minimum of a non-empty sequence is one of its elements and below
/// all of them.
pub proof fn lemma_seq_min_u32_is_min(s: Seq<u32>)
    requires
        s.len() > 0,
    ensures
        exists|i: int| 0 <= i < s.len() && s[i] == seq_min_u32(s),
        forall|i: int| 0 <= i < s.len() ==> seq_min_u32(s) <= #[trigger] s[i],
    decreases s.len(),
{
    let m = seq_min_u32(s);
    if s.len() == 1 {
        assert(s.drop_first() =~= Seq::<u32>::empty());
        assert(seq_min_u32(s.drop_first()) == u32::MAX);
        assert(s[0] == m);
    } else {
        lemma_seq_min_u32_is_min(s.drop_first());
        let rest = seq_min_u32(s.drop_first());
        if s[0] < rest {
            assert(s[0] == m);
        } else {
            assert(m == rest);
            let j = choose|j: int| 0 <= j < s.drop_first().len() && s.drop_first()[j] == rest;
            assert(s[j + 1] == rest);
        }
        assert forall|i: int| 0 <= i < s.len() implies m <= s[i] by {
            if i > 0 {
                assert(s.drop_first()[i - 1] == s[i]);
                assert(rest <= s.drop_first()[i - 1]);
            }
        }
    }
}

/// The sum of a sequence of 32-bit values, as a mathematical integer.
pub open spec fn seq_sum_u32(s: Seq<u32>) -> int
    decreases s.len(),
{
    if s.len() == 0 {
        0
    } else {
        s[0] + seq_sum_u32(s.drop_first())
    }
}

/// Appending an element adds it to the sum.
pub proof fn lemma_seq_sum_u32_push(s: Seq<u32>, x: u32)
    ensures
        seq_sum_u32(s.push(x)) == seq_sum_u32(s) + x,
    decreases s.len(),
{
    if s.len() == 0 {
        assert(s.push(x).len() == 1);
        assert(s.push(x)[0] == x);
        assert(s.push(x).drop_first() =~= Seq::<u32>::empty());
        assert(seq_sum_u32(s.push(x).drop_first()) == 0);
        assert(seq_sum_u32(s) == 0);
    } else {
        assert(s.push(x)[0] == s[0]);
        assert(s.push(x).drop_first() =~= s.drop_first().push(x));
        lemma_seq_sum_u32_push(s.drop_first(), x);
    }
}

/// The sum is bounded by the length times the largest element value.
pub proof fn lemma_seq_sum_u32_bound(s: Seq<u32>)
    ensures
        0 <= seq_sum_u32(s) <= s.len() * (u32::MAX as int),
    decreases s.len(),
{
    if s.len() > 0 {
        lemma_seq_sum_u32_bound(s.drop_first());
        assert((s.len() - 1) * (u32::MAX as int) + u32::MAX == s.len() * (u32::MAX as int))
            by (nonlinear_arith);
    }
}

} // verus!
