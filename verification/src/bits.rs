//! Splitting a bit mask into the bits that have a name and those that do not.
use vstd::prelude::*;

verus! {

/// The mask with only bit `i` set.
pub open spec fn bit(i: int) -> u32 {
    1u32 << (i as u32)
}

/// Whether exactly one bit of `mask` is set.
pub open spec fn is_bit(mask: u32) -> bool {
    exists|i: int| 0 <= i < 32 && mask == #[trigger] bit(i)
}

/// The set bits of `mask` below bit `n` that `named` does not list, in ascending order.
pub open spec fn unnamed(mask: u32, named: Seq<u32>, n: int) -> Seq<u32>
    decreases n,
{
    if n <= 0 {
        Seq::empty()
    } else if mask & bit(n - 1) != 0 && !named.contains(bit(n - 1)) {
        unnamed(mask, named, n - 1).push(bit(n - 1))
    } else {
        unnamed(mask, named, n - 1)
    }
}

/// The bits of `named` that are set in `mask`, in the order of `named`.
pub open spec fn among(mask: u32, named: Seq<u32>) -> Seq<u32> {
    named.filter(|b: u32| mask & b != 0)
}

/// The set bits of `mask`: those of `named` in its order, then the rest in
/// ascending order.
pub open spec fn reported(mask: u32, named: Seq<u32>) -> Seq<u32> {
    among(mask, named) + unnamed(mask, named, 32)
}

/// Two single-bit masks meet only where they are equal.
proof fn lemma_bits_meet(i: int, j: int)
    requires
        0 <= i < 32,
        0 <= j < 32,
    ensures
        bit(i) & bit(j) != 0 <==> i == j,
        bit(i) == bit(j) <==> i == j,
        bit(i) != 0,
{
    let a = i as u32;
    let b = j as u32;
    assert((1u32 << a) & (1u32 << b) != 0 <==> a == b) by (bit_vector)
        requires
            a < 32,
            b < 32,
    ;
    assert((1u32 << a) == (1u32 << b) <==> a == b) by (bit_vector)
        requires
            a < 32,
            b < 32,
    ;
    assert((1u32 << a) != 0) by (bit_vector)
        requires
            a < 32,
    ;
}

/// Whether `b` stands in `bits`.
fn lists(bits: &Vec<u32>, b: u32) -> (found: bool)
    ensures
        found == bits@.contains(b),
{
    let mut i: usize = 0;
    while i < bits.len()
        invariant
            i <= bits.len(),
            forall|k: int| 0 <= k < i ==> #[trigger] bits@[k] != b,
        decreases bits.len() - i,
    {
        if bits[i] == b {
            return true;
        }
        i += 1;
    }
    false
}

/// The set bits of `mask`: those of `named` in its order, then the rest in
/// ascending order.
pub fn report(mask: u32, named: &Vec<u32>) -> (bits: Vec<u32>)
    ensures
        bits@ == reported(mask, named@),
{
    let mut bits: Vec<u32> = Vec::new();
    let mut i: usize = 0;
    assert(among(mask, named@.take(0)) =~= Seq::<u32>::empty()) by {
        reveal(Seq::filter);
    }
    while i < named.len()
        invariant
            i <= named.len(),
            bits@ == among(mask, named@.take(i as int)),
        decreases named.len() - i,
    {
        let b: u32 = named[i];
        proof {
            reveal(Seq::filter);
            assert(named@.take(i + 1).drop_last() == named@.take(i as int));
            assert(named@.take(i + 1).last() == b);
        }
        if mask & b != 0 {
            bits.push(b);
        }
        i += 1;
    }
    assert(named@.take(i as int) == named@);
    let ghost head = bits@;
    let mut n: u32 = 0;
    assert(bits@ =~= head + unnamed(mask, named@, 0));
    while n < 32
        invariant
            n <= 32,
            bits@ == head + unnamed(mask, named@, n as int),
        decreases 32 - n,
    {
        let b: u32 = 1u32 << n;
        let ghost before = unnamed(mask, named@, n as int);
        assert(b == bit(n as int));
        if mask & b != 0 && !lists(named, b) {
            bits.push(b);
            assert(bits@ =~= head + before.push(b));
        }
        n += 1;
    }
    bits
}

/// The unnamed bits are set, unnamed, single bits below `n`, in ascending order.
proof fn lemma_unnamed(mask: u32, named: Seq<u32>, n: int)
    requires
        0 <= n <= 32,
    ensures
        unnamed(mask, named, n).no_duplicates(),
        forall|b: u32| #[trigger]
            unnamed(mask, named, n).contains(b) <==> mask & b != 0 && !named.contains(b) && exists|
                i: int,
            |
                0 <= i < n && b == #[trigger] bit(i),
    decreases n,
{
    if n > 0 {
        lemma_unnamed(mask, named, n - 1);
        let before = unnamed(mask, named, n - 1);
        let after = unnamed(mask, named, n);
        let top = bit(n - 1);
        assert forall|b: u32| #[trigger]
            after.contains(b) <==> mask & b != 0 && !named.contains(b) && exists|i: int|
                0 <= i < n && b == #[trigger] bit(i) by {
            if mask & top != 0 && !named.contains(top) {
                assert(after[before.len() as int] == top);
                if before.contains(b) {
                    let k = choose|k: int| 0 <= k < before.len() && before[k] == b;
                    assert(after[k] == b);
                }
                if after.contains(b) && b != top {
                    let k = choose|k: int| 0 <= k < after.len() && after[k] == b;
                    assert(before[k] == b);
                }
            }
            if exists|i: int| 0 <= i < n && b == #[trigger] bit(i) {
                let i = choose|i: int| 0 <= i < n && b == #[trigger] bit(i);
                if i < n - 1 {
                    lemma_bits_meet(i, n - 1);
                }
            }
            if before.contains(b) {
                let i = choose|i: int| 0 <= i < n - 1 && b == #[trigger] bit(i);
                assert(0 <= i < n && b == bit(i));
            }
        }
        if before.contains(top) {
            let i = choose|i: int| 0 <= i < n - 1 && top == #[trigger] bit(i);
            lemma_bits_meet(i, n - 1);
        }
    }
}

/// What a filter keeps is what was there and passes, each as often as before.
proof fn lemma_filter(s: Seq<u32>, mask: u32)
    ensures
        forall|b: u32| #[trigger]
            among(mask, s).contains(b) <==> s.contains(b) && mask & b != 0,
        s.no_duplicates() ==> among(mask, s).no_duplicates(),
    decreases s.len(),
{
    reveal(Seq::filter);
    if s.len() > 0 {
        let t = s.drop_last();
        let x = s.last();
        lemma_filter(t, mask);
        let before = among(mask, t);
        let after = among(mask, s);
        assert forall|b: u32| #[trigger] after.contains(b) <==> s.contains(b) && mask & b != 0 by {
            assert(s.contains(b) <==> t.contains(b) || b == x) by {
                if t.contains(b) {
                    let k = choose|k: int| 0 <= k < t.len() && t[k] == b;
                    assert(s[k] == b);
                }
                assert(s[s.len() - 1] == x);
                if s.contains(b) && b != x {
                    let k = choose|k: int| 0 <= k < s.len() && s[k] == b;
                    assert(t[k] == b);
                }
            }
            assert(before.contains(b) <==> t.contains(b) && mask & b != 0);
            if mask & x != 0 {
                assert(after == before.push(x));
                if before.contains(b) {
                    let k = choose|k: int| 0 <= k < before.len() && before[k] == b;
                    assert(after[k] == b);
                }
                assert(after[before.len() as int] == x);
                if after.contains(b) && b != x {
                    let k = choose|k: int| 0 <= k < after.len() && after[k] == b;
                    assert(before[k] == b);
                }
            }
        }
        if s.no_duplicates() {
            assert(t.no_duplicates());
            if mask & x != 0 {
                if before.contains(x) {
                    assert(t.contains(x));
                    let k = choose|k: int| 0 <= k < t.len() && t[k] == x;
                    assert(s[k] == s[s.len() - 1]);
                }
                assert(after == before.push(x));
            }
        }
    }
}

/// Every set bit of a mask is reported, once, and nothing else is.
pub proof fn law_every_set_bit_is_reported_once(mask: u32, named: Seq<u32>)
    requires
        named.no_duplicates(),
        forall|k: int| 0 <= k < named.len() ==> is_bit(#[trigger] named[k]),
    ensures
        reported(mask, named).no_duplicates(),
        forall|b: u32| #[trigger]
            reported(mask, named).contains(b) <==> is_bit(b) && mask & b != 0,
{
    let head = among(mask, named);
    let tail = unnamed(mask, named, 32);
    let all = reported(mask, named);
    lemma_filter(named, mask);
    lemma_unnamed(mask, named, 32);
    assert forall|b: u32| #[trigger] all.contains(b) <==> is_bit(b) && mask & b != 0 by {
        assert(all.contains(b) <==> head.contains(b) || tail.contains(b)) by {
            if head.contains(b) {
                let k = choose|k: int| 0 <= k < head.len() && head[k] == b;
                assert(all[k] == b);
            }
            if tail.contains(b) {
                let k = choose|k: int| 0 <= k < tail.len() && tail[k] == b;
                assert(all[head.len() + k] == b);
            }
            if all.contains(b) {
                let k = choose|k: int| 0 <= k < all.len() && all[k] == b;
                if k < head.len() {
                    assert(head[k] == b);
                } else {
                    assert(tail[k - head.len()] == b);
                }
            }
        }
        if named.contains(b) {
            let k = choose|k: int| 0 <= k < named.len() && named[k] == b;
            assert(is_bit(named[k]));
        }
    }
    assert forall|i: int, j: int| 0 <= i < all.len() && 0 <= j < all.len() && i != j implies all[i]
        != all[j] by {
        let h = head.len() as int;
        if i < h && j >= h {
            assert(head.contains(all[i]));
            assert(tail.contains(tail[j - h]));
        } else if j < h && i >= h {
            assert(head.contains(all[j]));
            assert(tail.contains(tail[i - h]));
        } else if i >= h {
            assert(tail[i - h] != tail[j - h]);
        } else {
            assert(head[i] != head[j]);
        }
    }
}

/// Bits that have a name are reported first, in the order of their names, and those
/// that have none behind them, the lowest first.
pub proof fn law_named_bits_are_reported_first(
    mask: u32,
    named: Vec<u32>,
    bits: Vec<u32>,
    first: int,
)
    requires
        call_ensures(report, (mask, &named), bits),
        first == named@.filter(|b: u32| mask & b != 0).len(),
    ensures
        first <= bits@.len(),
        bits@.take(first) == named@.filter(|b: u32| mask & b != 0),
        forall|i: int| first <= i < bits@.len() ==> !named@.contains(#[trigger] bits@[i]),
        forall|i: int, j: int|
            first <= i < j < bits@.len() ==> (#[trigger] bits@[i]) < (#[trigger] bits@[j]),
{
    let head = among(mask, named@);
    let tail = unnamed(mask, named@, 32);
    assert(bits@.take(first) =~= head);
    lemma_unnamed(mask, named@, 32);
    lemma_unnamed_ascends(mask, named@, 32);
    assert forall|i: int| first <= i < bits@.len() implies !named@.contains(
        #[trigger] bits@[i],
    ) by {
        assert(tail[i - first] == bits@[i]);
        assert(tail.contains(bits@[i]));
    }
    assert forall|i: int, j: int| first <= i < j < bits@.len() implies (#[trigger] bits@[i]) < (
    #[trigger] bits@[j]) by {
        assert(tail[i - first] < tail[j - first]);
    }
}

proof fn lemma_unnamed_ascends(mask: u32, named: Seq<u32>, n: int)
    requires
        0 <= n <= 32,
    ensures
        forall|i: int, j: int|
            0 <= i < j < unnamed(mask, named, n).len() ==> (#[trigger] unnamed(mask, named, n)[i])
                < (#[trigger] unnamed(mask, named, n)[j]),
    decreases n,
{
    if n > 0 {
        lemma_unnamed_ascends(mask, named, n - 1);
        lemma_unnamed(mask, named, n - 1);
        let before = unnamed(mask, named, n - 1);
        let after = unnamed(mask, named, n);
        assert forall|i: int, j: int| 0 <= i < j < after.len() implies (#[trigger] after[i]) < (
        #[trigger] after[j]) by {
            if j == before.len() {
                assert(before.contains(before[i]));
                let k = choose|k: int| 0 <= k < n - 1 && before[i] == #[trigger] bit(k);
                let a = k as u32;
                let b = (n - 1) as u32;
                assert((1u32 << a) < (1u32 << b)) by (bit_vector)
                    requires
                        a < b,
                        b < 32,
                ;
            } else {
                assert(after[i] == before[i] && after[j] == before[j]);
            }
        }
    }
}

} // verus!
