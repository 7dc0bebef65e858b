//! The Fibonacci sequence, produced by a generator that keeps the last two
//! terms, and the first terms of it collected into a vector.
use vstd::prelude::*;

verus! {

/// The Fibonacci numbers: `fib(0) == 0`, `fib(1) == 1`, and each later one is
/// the sum of the two before it.
pub open spec fn fib(n: nat) -> nat
    decreases n,
{
    if n == 0 {
        0
    } else if n == 1 {
        1
    } else {
        fib((n - 2) as nat) + fib((n - 1) as nat)
    }
}

/// The first `size` terms that the generator yields: `1, 1, 2, 3, 5, ...`,
/// that is `fib(1)` to `fib(size)`.
pub open spec fn fib_prefix(size: nat) -> Seq<nat> {
    Seq::new(size, |i: int| fib((i + 1) as nat))
}

/// The Fibonacci numbers never decrease.
pub proof fn lemma_fib_monotonic(i: nat, j: nat)
    requires
        i <= j,
    ensures
        fib(i) <= fib(j),
    decreases j,
{
    if i < j {
        lemma_fib_monotonic(i, (j - 1) as nat);
        if j >= 2 {
            assert(fib(j) == fib((j - 2) as nat) + fib((j - 1) as nat));
        }
    }
}

/// The sequence starts `1, 1`, and each later term is the sum of the two
/// before it.
pub proof fn lemma_fib_prefix_recurrence(size: nat, i: int)
    requires
        0 <= i,
        i + 2 < size,
    ensures
        fib_prefix(size)[0] == 1,
        fib_prefix(size)[1] == 1,
        fib_prefix(size)[i + 2] == fib_prefix(size)[i] + fib_prefix(size)[i + 1],
{
    assert(fib(2) == fib(0) + fib(1));
    assert(fib((i + 3) as nat) == fib((i + 1) as nat) + fib((i + 2) as nat));
}

/// Asking for fewer terms gives a prefix of what asking for more gives.
pub proof fn lemma_fib_prefix_extends(n: nat, m: nat)
    requires
        n <= m,
    ensures
        fib_prefix(m).subrange(0, n as int) == fib_prefix(n),
{
    assert(fib_prefix(m).subrange(0, n as int) =~= fib_prefix(n));
}

/// Whenever `size` terms can be produced, so can any fewer.
pub proof fn lemma_fib_bound_smaller(n: nat, m: nat)
    requires
        n <= m,
        fib(m + 1) <= usize::MAX,
    ensures
        fib(n + 1) <= usize::MAX,
{
    lemma_fib_monotonic(n + 1, m + 1);
}

/// A generator of the Fibonacci sequence that holds the last two terms.
///
/// After it has yielded `k` terms it holds `fib(k)` and `fib(k + 1)`; the
/// next term it yields is `fib(k + 1)`, and it never runs out.
pub struct FibonacciIter {
    prev: usize,
    cur: usize,
    yielded: Ghost<nat>,
}

impl FibonacciIter {
    /// How many terms the generator has yielded so far.
    pub closed spec fn count(&self) -> nat {
        self.yielded@
    }

    /// The generator holds the two terms that follow what it has yielded.
    #[verifier::type_invariant]
    spec fn holds_next_terms(&self) -> bool {
        &&& self.prev == fib(self.yielded@)
        &&& self.cur == fib(self.yielded@ + 1)
    }

    /// A generator that has yielded nothing yet.
    pub fn new() -> (it: Self)
        ensures
            it.count() == 0,
    {
        FibonacciIter { prev: 0, cur: 1, yielded: Ghost(0) }
    }

    /// Yields the next term, `fib(count + 1)`.
    ///
    /// The generator computes one term ahead, `fib(count + 2)`, which must
    /// fit in a `usize`.
    pub fn next(&mut self) -> (term: Option<usize>)
        requires
            fib(old(self).count() + 2) <= usize::MAX,
        ensures
            final(self).count() == old(self).count() + 1,
            term == Some(fib(old(self).count() + 1) as usize),
    {
        proof {
            use_type_invariant(&*self);
        }
        let ghost k = self.yielded@;
        assert(fib(k + 2) == fib(k) + fib(k + 1));
        let next: usize = self.prev + self.cur;
        let term: usize = self.cur;
        *self = FibonacciIter { prev: term, cur: next, yielded: Ghost(k + 1) };
        Some(term)
    }
}

/// The first `size` terms of the Fibonacci sequence, starting `1, 1, 2, ...`.
///
/// Producing the last of them computes `fib(size as nat + 1)`, which must fit in a
/// `usize`.
pub fn fibonacci(size: usize) -> (terms: Vec<usize>)
    requires
        fib(size as nat + 1) <= usize::MAX,
    ensures
        terms@.len() == size,
        forall|i: int| 0 <= i < size ==> terms@[i] as nat == #[trigger] fib_prefix(size as nat)[i],
{
    let mut it = FibonacciIter::new();
    let mut terms: Vec<usize> = Vec::new();
    let mut i: usize = 0;
    while i < size
        invariant
            it.count() == i,
            i <= size,
            fib(size as nat + 1) <= usize::MAX,
            terms@.len() == i,
            forall|j: int| 0 <= j < i ==> terms@[j] as nat == fib((j + 1) as nat),
        decreases size - i,
    {
        proof {
            lemma_fib_monotonic(i as nat + 2, size as nat + 1);
        }
        match it.next() {
            Some(t) => terms.push(t),
            None => {},
        }
        i = i + 1;
    }
    terms
}

/// The first `size` terms of the Fibonacci sequence, or `None` when
/// `fib(size as nat + 1)`, which producing them computes, does not fit in a `usize`.
pub fn try_fibonacci(size: usize) -> (terms: Option<Vec<usize>>)
    ensures
        terms is Some <==> fib(size as nat + 1) <= usize::MAX,
        terms matches Some(v) ==> {
            &&& v@.len() == size
            &&& forall|i: int| 0 <= i < size ==> v@[i] as nat == #[trigger] fib_prefix(size as nat)[i]
        },
{
    let mut prev: usize = 0;
    let mut cur: usize = 1;
    let mut k: usize = 0;
    while k < size
        invariant
            k <= size,
            prev == fib(k as nat),
            cur == fib(k as nat + 1),
        decreases size - k,
    {
        assert(fib(k as nat + 2) == fib(k as nat) + fib(k as nat + 1));
        match prev.checked_add(cur) {
            Some(s) => {
                prev = cur;
                cur = s;
                k = k + 1;
            },
            None => {
                proof {
                    lemma_fib_monotonic(k as nat + 2, size as nat + 1);
                }
                return None;
            },
        }
    }
    Some(fibonacci(size))
}

} // verus!
