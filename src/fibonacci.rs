use vstd::prelude::*;

verus! {

/// The Fibonacci sequence: `fib(0) == 0`, `fib(1) == 1`, and each later term
/// is the sum of the two before it.
pub open spec fn fib(n: nat) -> nat
    decreases n,
{
    if n <= 1 {
        n
    } else {
        fib((n - 1) as nat) + fib((n - 2) as nat)
    }
}

/// The sequence never decreases: `fib(i) <= fib(j)` whenever `i <= j`.
pub proof fn lemma_fib_monotone(i: nat, j: nat)
    requires
        i <= j,
    ensures
        fib(i) <= fib(j),
    decreases j,
{
    if i < j {
        lemma_fib_monotone(i, (j - 1) as nat);
        assert(fib((j - 1) as nat) <= fib(j)) by {
            if j >= 2 {
                assert(fib(j) == fib((j - 1) as nat) + fib((j - 2) as nat));
            }
        }
    }
}

/// For every `n >= 2`, the value that `nth_fibonacci(n)` returns is the sum of
/// the values it returns for `n - 1` and `n - 2`.
pub proof fn lemma_fib_recurrence(n: nat)
    requires
        n >= 2,
    ensures
        fib(n) == fib((n - 1) as nat) + fib((n - 2) as nat),
{
}

/// The `n`-th Fibonacci number, computed by plain double recursion with no
/// caching, so it takes time exponential in `n`.
pub fn nth_fibonacci(n: usize) -> (r: usize)
    requires
        fib(n as nat) <= usize::MAX,
    ensures
        r == fib(n as nat),
    decreases n,
{
    if n <= 1 {
        n
    } else {
        proof {
            lemma_fib_monotone((n - 1) as nat, n as nat);
        }
        nth_fibonacci(n - 1) + nth_fibonacci(n - 2)
    }
}

/// Whether the `n`-th Fibonacci number fits in a `usize`, that is, whether
/// `nth_fibonacci(n)` may be called.
pub fn fibonacci_fits(n: usize) -> (r: bool)
    ensures
        r == (fib(n as nat) <= usize::MAX),
{
    if n == 0 {
        return true;
    }
    let mut i: usize = 0;
    let mut a: usize = 0;
    let mut b: usize = 1;
    while i + 1 < n
        invariant
            i + 1 <= n,
            a == fib(i as nat),
            b == fib((i + 1) as nat),
        decreases n - i,
    {
        match a.checked_add(b) {
            Some(c) => {
                a = b;
                b = c;
                i = i + 1;
            },
            None => {
                proof {
                    lemma_fib_monotone((i + 2) as nat, n as nat);
                }
                return false;
            },
        }
    }
    true
}

} // verus!
