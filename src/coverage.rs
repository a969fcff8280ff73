use vstd::prelude::*;

verus! {

/// Whether every signer of a transaction is bounded by recognised capabilities.
#[derive(PartialEq, Eq, Structural, Clone, Copy, Debug)]
pub enum CapabilityCoverage {
    Full,
    NotFull,
}

/// The combining rule of the coverage monoid.
pub open spec fn combine(a: CapabilityCoverage, b: CapabilityCoverage) -> CapabilityCoverage {
    if a == CapabilityCoverage::Full && b == CapabilityCoverage::Full {
        CapabilityCoverage::Full
    } else {
        CapabilityCoverage::NotFull
    }
}

/// The reduction of a list of per-signer coverages, left to right from the identity.
pub open spec fn reduce(s: Seq<CapabilityCoverage>) -> CapabilityCoverage
    decreases s.len(),
{
    if s.len() == 0 {
        CapabilityCoverage::Full
    } else {
        combine(reduce(s.drop_last()), s.last())
    }
}

impl CapabilityCoverage {
    /// The identity of the monoid.
    pub fn zero() -> (r: Self)
        ensures
            r == CapabilityCoverage::Full,
    {
        CapabilityCoverage::Full
    }

    /// Folds `other` into `self`.
    pub fn add_and_set(&mut self, other: &CapabilityCoverage)
        ensures
            *final(self) == combine(*old(self), *other),
    {
        match other {
            CapabilityCoverage::Full => {},
            CapabilityCoverage::NotFull => {
                *self = CapabilityCoverage::NotFull;
            },
        }
    }
}

/// Reduces a list of per-signer coverages.
pub fn reduce_coverage(s: &Vec<CapabilityCoverage>) -> (r: CapabilityCoverage)
    ensures
        r == reduce(s@),
{
    let mut acc = CapabilityCoverage::zero();
    let mut i: usize = 0;
    while i < s.len()
        invariant
            i <= s@.len(),
            acc == reduce(s@.subrange(0, i as int)),
        decreases s@.len() - i,
    {
        proof {
            assert(s@.subrange(0, i as int + 1).drop_last() =~= s@.subrange(0, i as int));
        }
        acc.add_and_set(&s[i]);
        i = i + 1;
    }
    proof {
        assert(s@.subrange(0, s@.len() as int) =~= s@);
    }
    acc
}

/// The full reduction is `Full` exactly when every element is `Full`.
pub proof fn lemma_reduce_all_full(s: Seq<CapabilityCoverage>)
    ensures
        (reduce(s) == CapabilityCoverage::Full) <==> (forall|i: int|
            0 <= i < s.len() ==> s[i] == CapabilityCoverage::Full),
    decreases s.len(),
{
    if s.len() > 0 {
        lemma_reduce_all_full(s.drop_last());
        if reduce(s) == CapabilityCoverage::Full {
            assert forall|i: int| 0 <= i < s.len() implies s[i] == CapabilityCoverage::Full by {
                if i < s.len() - 1 {
                    assert(s.drop_last()[i] == s[i]);
                }
            }
        }
        if forall|i: int| 0 <= i < s.len() ==> s[i] == CapabilityCoverage::Full {
            assert forall|i: int| 0 <= i < s.drop_last().len() implies s.drop_last()[i]
                == CapabilityCoverage::Full by {
                assert(s.drop_last()[i] == s[i]);
            }
        }
    }
}

/// Combining is associative, commutative, and has `Full` as its identity.
pub proof fn lemma_combine_monoid(a: CapabilityCoverage, b: CapabilityCoverage, c: CapabilityCoverage)
    ensures
        combine(combine(a, b), c) == combine(a, combine(b, c)),
        combine(a, b) == combine(b, a),
        combine(CapabilityCoverage::Full, a) == a,
        combine(a, CapabilityCoverage::Full) == a,
        combine(a, CapabilityCoverage::NotFull) == CapabilityCoverage::NotFull,
{
}

/// The reduction does not depend on the order of the signers: two lists that
/// hold the same values reduce alike, and the empty list reduces to `Full`.
pub proof fn lemma_reduce_order_independent(s1: Seq<CapabilityCoverage>, s2: Seq<CapabilityCoverage>)
    requires
        forall|x: CapabilityCoverage| s1.contains(x) <==> s2.contains(x),
    ensures
        reduce(s1) == reduce(s2),
        reduce(Seq::<CapabilityCoverage>::empty()) == CapabilityCoverage::Full,
{
    lemma_reduce_all_full(s1);
    lemma_reduce_all_full(s2);
    if reduce(s1) == CapabilityCoverage::Full && reduce(s2) != CapabilityCoverage::Full {
        let i = choose|i: int| 0 <= i < s2.len() && s2[i] != CapabilityCoverage::Full;
        assert(s2.contains(s2[i]));
        assert(s1.contains(s2[i]));
    }
    if reduce(s2) == CapabilityCoverage::Full && reduce(s1) != CapabilityCoverage::Full {
        let i = choose|i: int| 0 <= i < s1.len() && s1[i] != CapabilityCoverage::Full;
        assert(s1.contains(s1[i]));
        assert(s2.contains(s1[i]));
    }
}

} // verus!
