//! Laws of the session cycle controller, stated over iterated transitions
//! of the state machine.
//!
//! A *pair* is one completed loop iteration — a Work phase, the break-kind
//! decision, the break it chose, and the wait for the user — which is four
//! transitions of [`spec_step`].

use vstd::prelude::*;

use crate::config::SessionConfig;
use crate::session::{spec_init, spec_step, Session, SessionState};

verus! {

/// The session reached from `s` after `n` transitions.
pub open spec fn spec_steps(s: Session, n: nat) -> Session
    decreases n,
{
    if n == 0 {
        s
    } else {
        spec_step(spec_steps(s, (n - 1) as nat))
    }
}

/// The session after `k` completed work/break pairs.
pub open spec fn spec_after_pairs(config: SessionConfig, k: nat) -> Session {
    spec_steps(spec_init(config), 4 * k)
}

/// The break state entered during pair `k` (pairs counted from zero):
/// the controller's position two transitions into the pair.
pub open spec fn spec_break_of_pair(config: SessionConfig, k: nat) -> SessionState {
    spec_steps(spec_init(config), 4 * k + 2).state
}

proof fn lemma_steps_add(s: Session, m: nat, n: nat)
    ensures
        spec_steps(s, m + n) == spec_steps(spec_steps(s, m), n),
    decreases n,
{
    if n > 0 {
        lemma_steps_add(s, m, (n - 1) as nat);
    }
}

/// One completed pair, taken from a Work state: the controller returns to
/// Work with the configuration intact, having run a long break (and reset
/// the counter) exactly when the counter had reached the cycle target, and
/// an ordinary break (and incremented the counter) otherwise.
proof fn lemma_one_pair(s: Session)
    requires
        s.wf(),
        s.state is Work,
    ensures
        spec_steps(s, 4).state is Work,
        spec_steps(s, 4).config == s.config,
        spec_steps(s, 4).wf(),
        s.cycle_count >= s.config.cycles ==> spec_steps(s, 2).state is LongBreak
            && spec_steps(s, 4).cycle_count == 1,
        s.cycle_count < s.config.cycles ==> spec_steps(s, 2).state is Break
            && spec_steps(s, 4).cycle_count == s.cycle_count + 1,
{
    let s1 = spec_step(s);
    let s2 = spec_step(s1);
    let s3 = spec_step(s2);
    let s4 = spec_step(s3);
    assert(spec_steps(s, 0) == s);
    assert(spec_steps(s, 1) == s1);
    assert(spec_steps(s, 2) == s2);
    assert(spec_steps(s, 3) == s3);
    assert(spec_steps(s, 4) == s4);
}

/// After `k` completed pairs, none of which has yet reached the cycle
/// target, the controller is back at Work and the counter reads `k + 1`:
/// it counts the pairs completed since the last long break, plus one.
pub proof fn lemma_counter_counts_pairs(config: SessionConfig, k: nat)
    requires
        config.wf(),
        k < config.cycles,
    ensures
        spec_after_pairs(config, k).state is Work,
        spec_after_pairs(config, k).config == config,
        spec_after_pairs(config, k).wf(),
        spec_after_pairs(config, k).cycle_count == k + 1,
    decreases k,
{
    if k == 0 {
        assert(spec_after_pairs(config, 0) == spec_init(config));
    } else {
        lemma_counter_counts_pairs(config, (k - 1) as nat);
        let s = spec_after_pairs(config, (k - 1) as nat);
        lemma_steps_add(spec_init(config), 4 * (k - 1) as nat, 4);
        assert(4 * (k - 1) as nat + 4 == 4 * k);
        lemma_one_pair(s);
    }
}

/// Law: while the counter is still short of the cycle target, the break a
/// pair runs is an ordinary break.
pub proof fn lemma_short_break_before_target(config: SessionConfig, k: nat)
    requires
        config.wf(),
        k + 1 < config.cycles,
    ensures
        spec_break_of_pair(config, k) is Break,
{
    lemma_counter_counts_pairs(config, k);
    let s = spec_after_pairs(config, k);
    lemma_steps_add(spec_init(config), 4 * k, 2);
    lemma_one_pair(s);
}

/// Law: with a cycle target of `c`, the `c`-th pair runs a long break,
/// and immediately after it the counter is back at 1 with the controller
/// at Work — the session starts over.
pub proof fn lemma_long_break_at_target(config: SessionConfig)
    requires
        config.wf(),
    ensures
        spec_break_of_pair(config, (config.cycles - 1) as nat) is LongBreak,
        spec_after_pairs(config, config.cycles as nat).cycle_count == 1,
        spec_after_pairs(config, config.cycles as nat).state is Work,
{
    let k = (config.cycles - 1) as nat;
    lemma_counter_counts_pairs(config, k);
    let s = spec_after_pairs(config, k);
    lemma_steps_add(spec_init(config), 4 * k, 2);
    lemma_steps_add(spec_init(config), 4 * k, 4);
    assert(4 * k + 4 == 4 * (config.cycles as nat));
    lemma_one_pair(s);
}

/// Law: the long-break decision depends on the `(cycle_count, cycles)`
/// pair alone — any two results that meet the decision's contract are
/// equal, so repeating the decision always yields the same branch.
pub proof fn lemma_decision_idempotent(cycle_count: u32, cycles: u32, r1: bool, r2: bool)
    requires
        r1 == (cycle_count >= cycles),
        r2 == (cycle_count >= cycles),
    ensures
        r1 == r2,
{
}

/// Law: with a cycle target of one, every pair runs a long break, and
/// each pair returns the session to its initial state — the counter never
/// exceeds 1 when the decision fires.
pub proof fn lemma_cycles_one_always_long(config: SessionConfig, k: nat)
    requires
        config.wf(),
        config.cycles == 1,
    ensures
        spec_after_pairs(config, k) == spec_init(config),
        spec_break_of_pair(config, k) is LongBreak,
    decreases k,
{
    if k == 0 {
        assert(spec_after_pairs(config, 0) == spec_init(config));
    } else {
        lemma_cycles_one_always_long(config, (k - 1) as nat);
        lemma_steps_add(spec_init(config), 4 * (k - 1) as nat, 4);
        assert(4 * (k - 1) as nat + 4 == 4 * k);
        lemma_one_pair(spec_init(config));
        assert(spec_steps(spec_init(config), 4) == spec_after_pairs(config, 1));
        assert(spec_after_pairs(config, 1) == spec_init(config));
    }
    lemma_steps_add(spec_init(config), 4 * k, 2);
    lemma_one_pair(spec_init(config));
}

} // verus!
