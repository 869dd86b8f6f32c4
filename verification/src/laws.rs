//! Laws of the tracker's buffer discipline and of the score query, stated
//! over the same spec functions that the executable contracts use.

use vstd::prelude::*;

use crate::model::{blend_bits, memory_step, ModelView};
use vstd::math::min;

verus! {

/// Wholesale replacement truncates: after every update the awareness buffer
/// holds exactly the first min(64, |context|) elements of the context, so its
/// length is min(64, |context|); likewise the intention buffer with cap 32.
/// This is the length law behind the `take` clauses of the update contract.
pub proof fn lemma_truncated_replace_len(s: Seq<u32>, cap: int)
    requires
        0 <= cap,
    ensures
        s.take(min(cap, s.len() as int)).len() == min(cap, s.len() as int),
{
}

/// The rolling memory's FIFO discipline: one update step never shrinks the
/// memory; below capacity it appends and grows by one, and at capacity 128 it
/// stays at exactly 128 forever, evicting precisely the oldest element
/// (index 0) and shifting the rest down before appending the new outcome.
pub proof fn lemma_memory_step_fifo(m: Seq<u32>, outcome: u32)
    requires
        m.len() <= 128,
    ensures
        memory_step(m, outcome).len() == min(m.len() as int + 1, 128),
        memory_step(m, outcome).len() >= m.len(),
        memory_step(m, outcome).last() == outcome,
        m.len() < 128 ==> memory_step(m, outcome) == m.push(outcome),
        m.len() == 128 ==> memory_step(m, outcome).len() == 128,
        m.len() == 128 ==> forall|i: int|
            0 <= i < 127 ==> memory_step(m, outcome)[i] == m[i + 1],
{
}

/// Querying the level is idempotent: the result is a function of the stored
/// metrics alone, so two queries with no update in between return the same
/// value.
pub proof fn lemma_level_idempotent(v: ModelView, first: u32, second: u32)
    requires
        first == blend_bits(v.continuity, v.persistence, v.stability, v.self_model),
        second == blend_bits(v.continuity, v.persistence, v.stability, v.self_model),
    ensures
        first == second,
{
}

} // verus!
