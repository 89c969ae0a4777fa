//! The size of the compute grid: how many workgroups it takes to give every
//! agent an invocation.

use vstd::prelude::*;

verus! {

/// The number of agents in the flock.
pub const N_BOIDS: usize = 10000;

/// The number of workgroups that every compute pass dispatches.
pub const WORKGROUPS: u32 = 1024;

/// The least number of groups of `group_size` invocations that cover
/// `agents` agents: the quotient, rounded up.
pub open spec fn groups_needed(agents: int, group_size: int) -> int {
    (agents + group_size - 1) / group_size
}

/// Whether `groups` groups of `group_size` invocations give each of `agents`
/// agents an invocation of its own.
pub open spec fn grid_covers(groups: int, group_size: int, agents: int) -> bool {
    groups * group_size >= agents
}

/// The least number of workgroups of `group_size` invocations whose grid
/// covers `agents` agents. The invocations beyond the last agent are left
/// for the kernel to ignore.
pub fn workgroups_for(agents: u32, group_size: u32) -> (groups: u32)
    requires
        group_size > 0,
    ensures
        groups == groups_needed(agents as int, group_size as int),
        grid_covers(groups as int, group_size as int, agents as int),
        groups > 0 ==> !grid_covers(groups - 1, group_size as int, agents as int),
{
    let whole: u32 = agents / group_size;
    let rest: u32 = agents % group_size;
    proof {
        lemma_groups_needed(agents as int, group_size as int);
        assert(rest != 0 ==> whole < agents) by (nonlinear_arith)
            requires
                whole == agents / group_size,
                rest == agents % group_size,
                0 < group_size,
        ;
    }
    if rest == 0 {
        whole
    } else {
        whole + 1
    }
}

/// Rounding the quotient up gives the least grid that covers the agents.
pub proof fn lemma_groups_needed(agents: int, group_size: int)
    requires
        0 <= agents,
        0 < group_size,
    ensures
        groups_needed(agents, group_size) == agents / group_size + if agents % group_size == 0 {
            0int
        } else {
            1int
        },
        grid_covers(groups_needed(agents, group_size), group_size, agents),
        forall|groups: int|
            grid_covers(groups, group_size, agents) ==> groups_needed(agents, group_size)
                <= groups,
{
    let q = agents / group_size;
    let r = agents % group_size;
    assert(agents == q * group_size + r && 0 <= r < group_size) by (nonlinear_arith)
        requires
            q == agents / group_size,
            r == agents % group_size,
            0 < group_size,
    ;
    let n = groups_needed(agents, group_size);
    assert(n == q + if r == 0 { 0int } else { 1int }) by (nonlinear_arith)
        requires
            n == (agents + group_size - 1) / group_size,
            agents == q * group_size + r,
            0 <= r < group_size,
            0 < group_size,
    ;
    assert(n * group_size >= agents) by (nonlinear_arith)
        requires
            n == q + if r == 0 { 0int } else { 1int },
            agents == q * group_size + r,
            0 <= r < group_size,
    ;
    assert forall|groups: int| grid_covers(groups, group_size, agents) implies n <= groups by {
        assert(groups * group_size >= agents ==> n <= groups) by (nonlinear_arith)
            requires
                n == q + if r == 0 { 0int } else { 1int },
                agents == q * group_size + r,
                0 <= r < group_size,
                0 < group_size,
        ;
    }
}

/// The dispatched grid covers the flock whenever a workgroup holds at least
/// ten invocations.
pub proof fn lemma_flock_is_covered(group_size: int)
    requires
        10 <= group_size,
    ensures
        grid_covers(WORKGROUPS as int, group_size, N_BOIDS as int),
{
    assert(1024 * group_size >= 10000) by (nonlinear_arith)
        requires
            10 <= group_size,
    ;
}

} // verus!
