//! The bounded signal tracker: three capped buffers of binary32 bit patterns
//! and the six derived metrics, recomputed in a fixed order on every update.

use vstd::prelude::*;

use crate::scalar::{
    abs_bits, add_bits, count_bits, div_bits, lt_bits, max_bits, min_bits, powi_bits, sqrt_bits,
    sub_bits, FOUR_BITS, HALF_BITS, ONE_BITS, TWO_BITS,
};
use crate::scalar::{
    scalar_abs, scalar_add, scalar_div, scalar_max, scalar_min, scalar_of_count, scalar_powi,
    scalar_sqrt, scalar_sub,
};

verus! {

/// The abstract state of a tracker: the three buffer contents and the six
/// stored metrics, all as binary32 bit patterns.
pub ghost struct ModelView {
    pub awareness: Seq<u32>,
    pub intention: Seq<u32>,
    pub memory: Seq<u32>,
    pub continuity: u32,
    pub persistence: u32,
    pub stability: u32,
    pub self_model: u32,
    pub world_model: u32,
    pub confidence: u32,
}

impl ModelView {
    /// Every buffer stays within its fixed capacity.
    pub open spec fn wf(self) -> bool {
        self.awareness.len() <= 64 && self.intention.len() <= 32 && self.memory.len() <= 128
    }
}

/// The running sum of the first `i` elements of `v`: the fold of rounded
/// addition over them, starting from the positive-zero pattern, exactly as an
/// accumulation loop computes it.
pub open spec fn sum_run(v: Seq<u32>, i: int) -> u32
    decreases i,
{
    if i <= 0 {
        0u32
    } else {
        add_bits(sum_run(v, i - 1), v[i - 1])
    }
}

/// The mean of a buffer: its sum divided by its length.
pub open spec fn mean_bits(v: Seq<u32>) -> u32 {
    div_bits(sum_run(v, v.len() as int), count_bits(v.len() as int))
}

/// The running sum of squared deviations from `mean` over the first `i`
/// elements of `v`.
pub open spec fn sqdev_run(v: Seq<u32>, mean: u32, i: int) -> u32
    decreases i,
{
    if i <= 0 {
        0u32
    } else {
        add_bits(sqdev_run(v, mean, i - 1), powi_bits(sub_bits(v[i - 1], mean), 2))
    }
}

/// The population variance of a buffer: the mean of the squared deviations
/// from the buffer's mean.
pub open spec fn variance_bits(v: Seq<u32>) -> u32 {
    div_bits(sqdev_run(v, mean_bits(v), v.len() as int), count_bits(v.len() as int))
}

/// The running smoothness sum over the first `i` elements of `v`: for each
/// adjacent pair, one minus the step's absolute difference capped at one.
pub open spec fn smoothness_run(v: Seq<u32>, i: int) -> u32
    decreases i,
{
    if i <= 1 {
        0u32
    } else {
        add_bits(
            smoothness_run(v, i - 1),
            sub_bits(ONE_BITS, min_bits(abs_bits(sub_bits(v[i - 1], v[i - 2])), ONE_BITS)),
        )
    }
}

/// Frame-to-frame smoothness of a buffer: one half for fewer than two
/// elements, otherwise the smoothness sum averaged over the number of steps.
pub open spec fn smoothness_bits(v: Seq<u32>) -> u32 {
    if v.len() < 2 {
        HALF_BITS
    } else {
        div_bits(smoothness_run(v, v.len() as int), count_bits(v.len() - 1))
    }
}

/// Persistence of a buffer: zero when empty, otherwise one minus the standard
/// deviation, floored at zero.
pub open spec fn persistence_bits(v: Seq<u32>) -> u32 {
    if v.len() == 0 {
        0u32
    } else {
        max_bits(sub_bits(ONE_BITS, sqrt_bits(variance_bits(v))), 0u32)
    }
}

/// Coherence of a buffer: zero when empty, otherwise one minus the standard
/// deviation capped at one.
pub open spec fn coherence_bits(v: Seq<u32>) -> u32 {
    if v.len() == 0 {
        0u32
    } else {
        sub_bits(ONE_BITS, min_bits(sqrt_bits(variance_bits(v)), ONE_BITS))
    }
}

/// The running sum of absolute linear-extrapolation errors over the first `i`
/// elements of `m`: each element from the third on is predicted from the two
/// before it.
pub open spec fn predict_err_run(m: Seq<u32>, i: int) -> u32
    decreases i,
{
    if i <= 2 {
        0u32
    } else {
        add_bits(
            predict_err_run(m, i - 1),
            abs_bits(
                sub_bits(add_bits(m[i - 2], sub_bits(m[i - 2], m[i - 3])), m[i - 1]),
            ),
        )
    }
}

/// Fidelity of the memory as a world model: one half for fewer than three
/// elements, otherwise one minus the mean absolute extrapolation error capped
/// at one.
pub open spec fn world_model_bits(m: Seq<u32>) -> u32 {
    if m.len() < 3 {
        HALF_BITS
    } else {
        sub_bits(
            ONE_BITS,
            min_bits(div_bits(predict_err_run(m, m.len() as int), count_bits(m.len() - 2)), ONE_BITS),
        )
    }
}

/// The confidence metric: the mean of world-model fidelity and persistence.
pub open spec fn confidence_bits(world_model: u32, persistence: u32) -> u32 {
    div_bits(add_bits(world_model, persistence), TWO_BITS)
}

/// The blended score: the mean of continuity, persistence, stability and
/// self-model accuracy. World-model fidelity is deliberately not a term.
pub open spec fn blend_bits(continuity: u32, persistence: u32, stability: u32, self_model: u32) -> u32 {
    div_bits(add_bits(add_bits(add_bits(continuity, persistence), stability), self_model), FOUR_BITS)
}

/// One update's effect on the rolling memory: append the outcome, after
/// evicting the oldest element when the buffer is already full.
pub open spec fn memory_step(m: Seq<u32>, outcome: u32) -> Seq<u32> {
    if m.len() < 128 {
        m.push(outcome)
    } else {
        m.subrange(1, m.len() as int).push(outcome)
    }
}

pub struct ConsciousnessModel {
    awareness_vector: Vec<u32>,
    intention_vector: Vec<u32>,
    memory_vector: Vec<u32>,
    consciousness_continuity: u32,
    memory_persistence: u32,
    intention_stability: u32,
    self_model_accuracy: u32,
    world_model_fidelity: u32,
    prediction_confidence: u32,
}

impl View for ConsciousnessModel {
    type V = ModelView;

    closed spec fn view(&self) -> ModelView {
        ModelView {
            awareness: self.awareness_vector@,
            intention: self.intention_vector@,
            memory: self.memory_vector@,
            continuity: self.consciousness_continuity,
            persistence: self.memory_persistence,
            stability: self.intention_stability,
            self_model: self.self_model_accuracy,
            world_model: self.world_model_fidelity,
            confidence: self.prediction_confidence,
        }
    }
}

/// The population variance of a nonempty buffer: the rounded mean first,
/// then the mean of the rounded squared deviations from it.
fn variance_of(v: &Vec<u32>) -> (r: u32)
    requires
        1 <= v@.len() <= 128,
    ensures
        r == variance_bits(v@),
{
    let len = v.len();
    let len_bits = scalar_of_count(len);
    let mut sum: u32 = 0;
    let mut i: usize = 0;
    while i < len
        invariant
            i <= len,
            len == v@.len(),
            sum == sum_run(v@, i as int),
        decreases len - i,
    {
        sum = scalar_add(sum, v[i]);
        i = i + 1;
    }
    let mean = scalar_div(sum, len_bits);
    assert(mean == mean_bits(v@));
    let mut sqdev: u32 = 0;
    let mut j: usize = 0;
    while j < len
        invariant
            j <= len,
            len == v@.len(),
            mean == mean_bits(v@),
            sqdev == sqdev_run(v@, mean, j as int),
        decreases len - j,
    {
        let dev = scalar_sub(v[j], mean);
        sqdev = scalar_add(sqdev, scalar_powi(dev, 2));
        j = j + 1;
    }
    scalar_div(sqdev, len_bits)
}

/// The frame-to-frame smoothness of a buffer: the shared shape of the
/// continuity and stability metrics.
fn smoothness_of(v: &Vec<u32>) -> (r: u32)
    requires
        v@.len() <= 128,
    ensures
        r == smoothness_bits(v@),
        v@.len() < 2 ==> r == HALF_BITS,
{
    let len = v.len();
    if len < 2 {
        return HALF_BITS;
    }
    let mut acc: u32 = 0;
    let mut i: usize = 1;
    while i < len
        invariant
            1 <= i <= len,
            len == v@.len(),
            acc == smoothness_run(v@, i as int),
        decreases len - i,
    {
        let diff = scalar_abs(scalar_sub(v[i], v[i - 1]));
        acc = scalar_add(acc, scalar_sub(ONE_BITS, scalar_min(diff, ONE_BITS)));
        i = i + 1;
    }
    scalar_div(acc, scalar_of_count(len - 1))
}

impl ConsciousnessModel {
    /// A fresh tracker: all buffers empty, all metrics at the zero pattern.
    pub fn new() -> (model: Self)
        ensures
            model@.wf(),
            model@.awareness == Seq::<u32>::empty(),
            model@.intention == Seq::<u32>::empty(),
            model@.memory == Seq::<u32>::empty(),
            model@.continuity == 0,
            model@.persistence == 0,
            model@.stability == 0,
            model@.self_model == 0,
            model@.world_model == 0,
            model@.confidence == 0,
    {
        Self {
            awareness_vector: Vec::new(),
            intention_vector: Vec::new(),
            memory_vector: Vec::new(),
            consciousness_continuity: 0,
            memory_persistence: 0,
            intention_stability: 0,
            self_model_accuracy: 0,
            world_model_fidelity: 0,
            prediction_confidence: 0,
        }
    }

    /// Smoothness of the awareness buffer; one half when the buffer holds
    /// fewer than two elements.
    pub fn calculate_continuity(&self) -> (r: u32)
        requires
            self@.wf(),
        ensures
            r == smoothness_bits(self@.awareness),
            self@.awareness.len() < 2 ==> r == HALF_BITS,
    {
        smoothness_of(&self.awareness_vector)
    }

    /// Persistence of the memory buffer: zero when empty, otherwise one minus
    /// the standard deviation of the stored outcomes, floored at zero.
    pub fn calculate_memory_persistence(&self) -> (r: u32)
        requires
            self@.wf(),
        ensures
            r == persistence_bits(self@.memory),
            self@.memory.len() == 0 ==> r == 0,
    {
        if self.memory_vector.len() == 0 {
            return 0;
        }
        let variance = variance_of(&self.memory_vector);
        scalar_max(scalar_sub(ONE_BITS, scalar_sqrt(variance)), 0)
    }

    /// Smoothness of the intention buffer; one half when the buffer holds
    /// fewer than two elements.
    pub fn calculate_intention_stability(&self) -> (r: u32)
        requires
            self@.wf(),
        ensures
            r == smoothness_bits(self@.intention),
            self@.intention.len() < 2 ==> r == HALF_BITS,
    {
        smoothness_of(&self.intention_vector)
    }

    /// Coherence of the awareness buffer: zero when empty, otherwise one
    /// minus the standard deviation capped at one.
    pub fn assess_self_model(&self) -> (r: u32)
        requires
            self@.wf(),
        ensures
            r == coherence_bits(self@.awareness),
            self@.awareness.len() == 0 ==> r == 0,
    {
        if self.awareness_vector.len() == 0 {
            return 0;
        }
        let variance = variance_of(&self.awareness_vector);
        scalar_sub(ONE_BITS, scalar_min(scalar_sqrt(variance), ONE_BITS))
    }

    /// Fidelity of the memory as a world model: one half for fewer than
    /// three elements, otherwise one minus the mean absolute error of linear
    /// extrapolation from each pair of preceding elements, capped at one.
    pub fn assess_world_model(&self) -> (r: u32)
        requires
            self@.wf(),
        ensures
            r == world_model_bits(self@.memory),
            self@.memory.len() < 3 ==> r == HALF_BITS,
    {
        let len = self.memory_vector.len();
        if len < 3 {
            return HALF_BITS;
        }
        let mut errors: u32 = 0;
        let mut predictions: usize = 0;
        let mut i: usize = 2;
        while i < len
            invariant
                2 <= i <= len,
                len == self@.memory.len(),
                self@.memory == self.memory_vector@,
                predictions == i - 2,
                errors == predict_err_run(self@.memory, i as int),
            decreases len - i,
        {
            let trend = scalar_sub(self.memory_vector[i - 1], self.memory_vector[i - 2]);
            let predicted = scalar_add(self.memory_vector[i - 1], trend);
            let actual = self.memory_vector[i];
            errors = scalar_add(errors, scalar_abs(scalar_sub(predicted, actual)));
            predictions = predictions + 1;
            i = i + 1;
        }
        if predictions > 0 {
            scalar_sub(
                ONE_BITS,
                scalar_min(scalar_div(errors, scalar_of_count(predictions)), ONE_BITS),
            )
        } else {
            HALF_BITS
        }
    }

    /// The confidence metric stored by the latest update: the mean of the
    /// stored world-model fidelity and persistence metrics.
    pub fn calculate_prediction_confidence(&self) -> (r: u32)
        ensures
            r == confidence_bits(self@.world_model, self@.persistence),
    {
        scalar_div(scalar_add(self.world_model_fidelity, self.memory_persistence), TWO_BITS)
    }

    /// One observation step. The awareness and intention buffers are replaced
    /// wholesale by the first 64 and 32 elements of the new context and
    /// decision signals; the outcome is appended to the rolling memory,
    /// evicting the oldest element when the memory is full. The six metrics
    /// are then recomputed, in a fixed order, from the buffers this same call
    /// produced, and the blended score is returned.
    pub fn update_consciousness(&mut self, context: &[u32], decision: &[u32], outcome: u32) -> (score: u32)
        requires
            old(self)@.wf(),
        ensures
            final(self)@.wf(),
            final(self)@.awareness == context@.take(vstd::math::min(64, context@.len() as int)),
            final(self)@.intention == decision@.take(vstd::math::min(32, decision@.len() as int)),
            final(self)@.memory == memory_step(old(self)@.memory, outcome),
            final(self)@.continuity == smoothness_bits(final(self)@.awareness),
            final(self)@.persistence == persistence_bits(final(self)@.memory),
            final(self)@.stability == smoothness_bits(final(self)@.intention),
            final(self)@.self_model == coherence_bits(final(self)@.awareness),
            final(self)@.world_model == world_model_bits(final(self)@.memory),
            final(self)@.confidence == confidence_bits(
                final(self)@.world_model,
                final(self)@.persistence,
            ),
            score == blend_bits(
                final(self)@.continuity,
                final(self)@.persistence,
                final(self)@.stability,
                final(self)@.self_model,
            ),
    {
        let take_a = if context.len() < 64 {
            context.len()
        } else {
            64
        };
        let mut awareness: Vec<u32> = Vec::new();
        let mut i: usize = 0;
        while i < take_a
            invariant
                i <= take_a,
                take_a <= context@.len(),
                awareness@ == context@.take(i as int),
            decreases take_a - i,
        {
            awareness.push(context[i]);
            proof {
                assert(context@.take(i + 1) =~= context@.take(i as int).push(context@[i as int]));
            }
            i = i + 1;
        }
        self.awareness_vector = awareness;

        let take_d = if decision.len() < 32 {
            decision.len()
        } else {
            32
        };
        let mut intention: Vec<u32> = Vec::new();
        let mut j: usize = 0;
        while j < take_d
            invariant
                j <= take_d,
                take_d <= decision@.len(),
                intention@ == decision@.take(j as int),
            decreases take_d - j,
        {
            intention.push(decision[j]);
            proof {
                assert(decision@.take(j + 1) =~= decision@.take(j as int).push(decision@[j as int]));
            }
            j = j + 1;
        }
        self.intention_vector = intention;

        if self.memory_vector.len() >= 128 {
            self.memory_vector.remove(0);
            proof {
                assert(self.memory_vector@ =~= old(self)@.memory.subrange(
                    1,
                    old(self)@.memory.len() as int,
                ));
            }
        }
        self.memory_vector.push(outcome);

        self.consciousness_continuity = self.calculate_continuity();
        self.memory_persistence = self.calculate_memory_persistence();
        self.intention_stability = self.calculate_intention_stability();
        self.self_model_accuracy = self.assess_self_model();
        self.world_model_fidelity = self.assess_world_model();
        self.prediction_confidence = self.calculate_prediction_confidence();

        scalar_div(
            scalar_add(
                scalar_add(
                    scalar_add(self.consciousness_continuity, self.memory_persistence),
                    self.intention_stability,
                ),
                self.self_model_accuracy,
            ),
            FOUR_BITS,
        )
    }

    /// The blended score from the currently stored metrics, with no
    /// recomputation: the mean of continuity, persistence, stability and
    /// self-model accuracy. On a fresh tracker, whose stored metrics are all
    /// the zero pattern, it returns the zero pattern.
    pub fn get_consciousness_level(&self) -> (r: u32)
        ensures
            r == blend_bits(self@.continuity, self@.persistence, self@.stability, self@.self_model),
            self@.continuity == 0 && self@.persistence == 0 && self@.stability == 0
                && self@.self_model == 0 ==> r == 0,
    {
        scalar_div(
            scalar_add(
                scalar_add(
                    scalar_add(self.consciousness_continuity, self.memory_persistence),
                    self.intention_stability,
                ),
                self.self_model_accuracy,
            ),
            FOUR_BITS,
        )
    }

    /// How many elements the awareness buffer currently holds.
    pub fn awareness_len(&self) -> (n: usize)
        ensures
            n == self@.awareness.len(),
    {
        self.awareness_vector.len()
    }

    /// How many elements the intention buffer currently holds.
    pub fn intention_len(&self) -> (n: usize)
        ensures
            n == self@.intention.len(),
    {
        self.intention_vector.len()
    }

    /// How many outcomes the rolling memory currently holds.
    pub fn memory_len(&self) -> (n: usize)
        ensures
            n == self@.memory.len(),
    {
        self.memory_vector.len()
    }

    /// The outcome stored at position `i` of the rolling memory, oldest
    /// first.
    pub fn memory_at(&self, i: usize) -> (r: u32)
        requires
            i < self@.memory.len(),
        ensures
            r == self@.memory[i as int],
    {
        self.memory_vector[i]
    }

    /// The stored continuity metric.
    pub fn continuity(&self) -> (r: u32)
        ensures
            r == self@.continuity,
    {
        self.consciousness_continuity
    }

    /// The stored persistence metric.
    pub fn persistence(&self) -> (r: u32)
        ensures
            r == self@.persistence,
    {
        self.memory_persistence
    }

    /// The stored stability metric.
    pub fn stability(&self) -> (r: u32)
        ensures
            r == self@.stability,
    {
        self.intention_stability
    }

    /// The stored self-model accuracy metric.
    pub fn self_model(&self) -> (r: u32)
        ensures
            r == self@.self_model,
    {
        self.self_model_accuracy
    }

    /// The stored world-model fidelity metric.
    pub fn world_model(&self) -> (r: u32)
        ensures
            r == self@.world_model,
    {
        self.world_model_fidelity
    }

    /// The stored prediction-confidence metric.
    pub fn confidence(&self) -> (r: u32)
        ensures
            r == self@.confidence,
    {
        self.prediction_confidence
    }
}

} // verus!
