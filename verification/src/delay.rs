//! The busy-wait timing primitive: a monotonic counter incremented from 0
//! until it reaches the requested cycle count, with no hardware-timer query.
//! The duration is an approximation derived from the counted work, not a
//! calibrated time unit.

use vstd::prelude::*;

verus! {

/// How many iterations a busy wait of `cycles` cycles counts: exactly the
/// requested cycle count.
pub open spec fn delay_iterations(cycles: u32) -> nat {
    cycles as nat
}

/// Simple busy-wait delay function: wastes CPU cycles by counting from 0 up
/// to `cycles`, and reports how many iterations it counted. A cycle count of
/// 0 returns immediately, after zero iterations.
pub fn delay(cycles: u32) -> (iterations: u32)
    ensures
        iterations == cycles,
        iterations as nat == delay_iterations(cycles),
{
    let mut i: u32 = 0;
    while i < cycles
        invariant
            i <= cycles,
        decreases cycles - i,
    {
        i = i + 1;
    }
    i
}

/// The busy wait is monotonic in its iteration count: a strictly larger
/// cycle count never completes in fewer counted iterations.
pub proof fn lemma_delay_monotonic(shorter: u32, longer: u32)
    requires
        shorter < longer,
    ensures
        delay_iterations(shorter) <= delay_iterations(longer),
{
}

} // verus!
