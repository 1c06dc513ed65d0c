//! Ids for questions the host answers later.
use vstd::prelude::*;

verus! {

/// The id after `last`. Zero reads like "no id" in host code, so it is skipped.
pub open spec fn following(last: u32) -> u32 {
    if last == u32::MAX {
        1
    } else {
        (last + 1) as u32
    }
}

/// The id handed out `n` calls after `last`.
pub open spec fn nth_following(last: u32, n: nat) -> u32
    decreases n,
{
    if n == 0 {
        last
    } else {
        following(nth_following(last, (n - 1) as nat))
    }
}

/// Hands out ids.
#[derive(Debug)]
pub struct IdCounter {
    last: u32,
}

impl View for IdCounter {
    type V = u32;

    /// The last id that was handed out, or zero.
    closed spec fn view(&self) -> u32 {
        self.last
    }
}

impl Default for IdCounter {
    fn default() -> (ids: Self)
        ensures
            ids@ == 0,
    {
        IdCounter { last: 0 }
    }
}

impl IdCounter {
    /// The next id.
    pub fn next(&mut self) -> (id: u32)
        ensures
            id == following(old(self)@),
            final(self)@ == id,
            id != 0,
    {
        self.last = if self.last == u32::MAX {
            1
        } else {
            self.last + 1
        };
        self.last
    }
}

/// Ids run through all of the numbers but zero before one comes again.
proof fn lemma_nth_following(last: u32, n: nat)
    requires
        n > 0,
    ensures
        nth_following(last, n) == (last + n - 1) % 0xffff_ffff + 1,
    decreases n,
{
    let x = last + n - 1;
    if n == 1 {
        assert(nth_following(last, 0) == last);
        assert(nth_following(last, 1) == following(nth_following(last, 0)));
        if last == u32::MAX {
            assert(x % 0xffff_ffff == 0);
        } else {
            assert(x % 0xffff_ffff == x);
        }
    } else {
        lemma_nth_following(last, (n - 1) as nat);
        let r = (x - 1) % 0xffff_ffff;
        if r == 0xffff_fffe {
            assert(x % 0xffff_ffff == 0);
        } else {
            assert(x % 0xffff_ffff == r + 1);
        }
    }
}

/// No id is zero, and an id comes again only after all the others have been
/// handed out.
pub proof fn law_ids_are_unique_and_never_zero(last: u32, i: nat, j: nat)
    requires
        0 < i < j,
        j - i < 0xffff_ffff,
    ensures
        nth_following(last, i) != 0,
        nth_following(last, i) != nth_following(last, j),
{
    lemma_nth_following(last, i);
    lemma_nth_following(last, j);
    let a = last + i - 1;
    let b = last + j - 1;
    let m = 0xffff_ffffint;
    assert(0 <= a % m < m);
    if a % m == b % m {
        assert(b - a == m * (b / m - a / m));
        let q = b / m - a / m;
        assert(q < 1 && q > 0) by (nonlinear_arith)
            requires
                m * q == b - a,
                0 < b - a < m,
                m == 0xffff_ffffint,
        ;
    }
}

/// An id is one more than the one before it, and the one after the largest is 1.
pub proof fn law_ids_count_up(before: IdCounter, after: IdCounter, id: u32)
    requires
        exists|ids: &mut IdCounter|
            *ids == before && *final(ids) == after && #[trigger] call_ensures(
                IdCounter::next,
                (ids,),
                id,
            ),
    ensures
        before@ < 0xffff_ffff ==> id == before@ + 1,
        before@ == 0xffff_ffff ==> id == 1,
        after@ == id,
{
}

} // verus!
