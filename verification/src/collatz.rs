//! The sample guest program that the demo modules run: a Collatz step
//! counter. The guest's entry point `hello` walks the Collatz rule from its
//! argument and reports how many steps it took to halt.

use vstd::prelude::*;

verus! {

/// One step of the Collatz rule.
pub open spec fn collatz_next(x: nat) -> nat {
    if x % 2 == 0 {
        x / 2
    } else {
        3 * x + 1
    }
}

/// The value after `k` steps of the Collatz rule from `x`.
pub open spec fn collatz_iter(x: nat, k: nat) -> nat
    decreases k,
{
    if k == 0 {
        x
    } else {
        collatz_iter(collatz_next(x), (k - 1) as nat)
    }
}

/// The walk halts once the value is 0 or 1.
pub open spec fn collatz_halted(x: nat) -> bool {
    x <= 1
}

/// `k` is the first step count at which the walk from `x` halts.
pub open spec fn collatz_first_halt(x: nat, k: nat) -> bool {
    &&& collatz_halted(collatz_iter(x, k))
    &&& forall|j: nat| j < k ==> !collatz_halted(collatz_iter(x, j))
}

/// The values of the walk from `x` fit in 64 bits through step `k`.
pub open spec fn collatz_fits(x: nat, k: nat) -> bool {
    forall|i: nat| i <= k ==> collatz_iter(x, i) <= u64::MAX
}

/// Unfolds the walk one step from the back: the value after `k + 1` steps is
/// one Collatz step applied to the value after `k` steps.
pub proof fn lemma_collatz_iter_step(x: nat, k: nat)
    ensures
        collatz_iter(x, k + 1) == collatz_next(collatz_iter(x, k)),
    decreases k,
{
    if k == 0 {
        assert(collatz_iter(x, 1) == collatz_iter(collatz_next(x), 0));
    } else {
        lemma_collatz_iter_step(collatz_next(x), (k - 1) as nat);
        assert(collatz_iter(x, k + 1) == collatz_iter(collatz_next(x), k));
        assert(collatz_iter(x, k) == collatz_iter(collatz_next(x), (k - 1) as nat));
    }
}

/// Counts the Collatz steps from `x`, starting the count at `n`.
///
/// Returns `Some(n + k)` where `k` is the first step count at which the walk
/// halts, provided every value along the walk fits in 64 bits and the count
/// itself does not overflow; returns `None` exactly when one of those bounds
/// fails before the walk halts.
pub fn colatz(x: u64, n: u64) -> (r: Option<u64>)
    ensures
        r matches Some(c) ==> exists|k: nat|
            collatz_first_halt(x as nat, k) && collatz_fits(x as nat, k) && n + k <= u64::MAX
                && c == n + k,
        r is None ==> forall|k: nat|
            collatz_first_halt(x as nat, k) ==> !(collatz_fits(x as nat, k) && n + k
                <= u64::MAX),
{
    let mut cur: u64 = x;
    let mut steps: u64 = 0;
    while cur > 1
        invariant
            cur as nat == collatz_iter(x as nat, steps as nat),
            collatz_fits(x as nat, steps as nat),
            forall|j: nat| j < steps as nat ==> !collatz_halted(collatz_iter(x as nat, j)),
        decreases u64::MAX - steps,
    {
        let next: u64;
        if cur % 2 == 0 {
            next = cur / 2;
        } else {
            if cur > (u64::MAX - 1) / 3 {
                proof {
                    lemma_collatz_iter_step(x as nat, steps as nat);
                    assert(3 * (cur as int) + 1 > u64::MAX);
                    assert forall|k: nat| collatz_first_halt(x as nat, k) implies !(collatz_fits(
                        x as nat,
                        k,
                    ) && n + k <= u64::MAX) by {
                        if collatz_first_halt(x as nat, k) {
                            assert(!collatz_halted(collatz_iter(x as nat, steps as nat)));
                            assert(k > steps as nat);
                            if collatz_fits(x as nat, k) {
                                assert(collatz_iter(x as nat, steps as nat + 1) <= u64::MAX);
                                assert(false);
                            }
                        }
                    }
                }
                return None;
            }
            next = 3 * cur + 1;
        }
        if steps == u64::MAX {
            proof {
                assert forall|k: nat| collatz_first_halt(x as nat, k) implies !(collatz_fits(
                    x as nat,
                    k,
                ) && n + k <= u64::MAX) by {
                    if collatz_first_halt(x as nat, k) {
                        assert(!collatz_halted(collatz_iter(x as nat, steps as nat)));
                        assert(k > steps as nat);
                    }
                }
            }
            return None;
        }
        proof {
            lemma_collatz_iter_step(x as nat, steps as nat);
            assert(next as nat == collatz_iter(x as nat, steps as nat + 1));
            assert forall|i: nat| i <= steps as nat + 1 implies collatz_iter(x as nat, i)
                <= u64::MAX by {
                if i <= steps as nat {
                    assert(collatz_iter(x as nat, i) <= u64::MAX);
                }
            }
            assert(!collatz_halted(collatz_iter(x as nat, steps as nat)));
            assert forall|j: nat| j < steps as nat + 1 implies !collatz_halted(
                collatz_iter(x as nat, j),
            ) by {
                if j < steps as nat {
                    assert(!collatz_halted(collatz_iter(x as nat, j)));
                }
            }
        }
        cur = next;
        steps = steps + 1;
    }
    proof {
        assert(collatz_first_halt(x as nat, steps as nat));
        assert forall|k: nat| collatz_first_halt(x as nat, k) implies k == steps as nat by {
            if k < steps as nat {
                assert(!collatz_halted(collatz_iter(x as nat, k)));
            } else if k > steps as nat {
                assert(!collatz_halted(collatz_iter(x as nat, steps as nat)));
            }
        }
    }
    if n <= u64::MAX - steps {
        Some(n + steps)
    } else {
        None
    }
}

/// Entry point of the sample guest: the Collatz walk of `x`, counting from 1.
pub fn hello(x: u64) -> (r: Option<u64>)
    ensures
        r matches Some(c) ==> exists|k: nat|
            collatz_first_halt(x as nat, k) && collatz_fits(x as nat, k) && 1 + k <= u64::MAX
                && c == 1 + k,
        r is None ==> forall|k: nat|
            collatz_first_halt(x as nat, k) ==> !(collatz_fits(x as nat, k) && 1 + k
                <= u64::MAX),
{
    colatz(x, 1)
}

} // verus!
