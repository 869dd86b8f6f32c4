//! The owning facade: holds exactly one tracker and forwards the update and
//! query operations unchanged, as a seam for future multi-tracker
//! orchestration.

use vstd::prelude::*;

use crate::model::{
    blend_bits, coherence_bits, confidence_bits, memory_step, persistence_bits, smoothness_bits,
    world_model_bits, ConsciousnessModel, ModelView,
};

verus! {

pub struct RealAIEmbodiedSystem {
    consciousness_model: ConsciousnessModel,
}

impl View for RealAIEmbodiedSystem {
    type V = ModelView;

    closed spec fn view(&self) -> ModelView {
        self.consciousness_model@
    }
}

impl RealAIEmbodiedSystem {
    /// A fresh system owning a fresh tracker.
    pub fn new() -> (system: Self)
        ensures
            system@.wf(),
            system@.awareness == Seq::<u32>::empty(),
            system@.intention == Seq::<u32>::empty(),
            system@.memory == Seq::<u32>::empty(),
            system@.continuity == 0,
            system@.persistence == 0,
            system@.stability == 0,
            system@.self_model == 0,
            system@.world_model == 0,
            system@.confidence == 0,
    {
        Self { consciousness_model: ConsciousnessModel::new() }
    }

    /// Pure pass-through to the tracker's update.
    pub fn update_consciousness_state(
        &mut self,
        context: &[u32],
        decision: &[u32],
        outcome: u32,
    ) -> (score: u32)
        requires
            old(self)@.wf(),
        ensures
            final(self)@.wf(),
            final(self)@.awareness == context@.take(vstd::math::min(64, context@.len() as int)),
            final(self)@.intention == decision@.take(vstd::math::min(32, decision@.len() as int)),
            final(self)@.memory == memory_step(old(self)@.memory, outcome),
            final(self)@.continuity == smoothness_bits(final(self)@.awareness),
            final(self)@.persistence == persistence_bits(final(self)@.memory),
            final(self)@.stability == smoothness_bits(final(self)@.intention),
            final(self)@.self_model == coherence_bits(final(self)@.awareness),
            final(self)@.world_model == world_model_bits(final(self)@.memory),
            final(self)@.confidence == confidence_bits(
                final(self)@.world_model,
                final(self)@.persistence,
            ),
            score == blend_bits(
                final(self)@.continuity,
                final(self)@.persistence,
                final(self)@.stability,
                final(self)@.self_model,
            ),
    {
        self.consciousness_model.update_consciousness(context, decision, outcome)
    }

    /// Pure pass-through to the tracker's stored-score query.
    pub fn get_consciousness_level(&self) -> (r: u32)
        ensures
            r == blend_bits(self@.continuity, self@.persistence, self@.stability, self@.self_model),
            self@.continuity == 0 && self@.persistence == 0 && self@.stability == 0
                && self@.self_model == 0 ==> r == 0,
    {
        self.consciousness_model.get_consciousness_level()
    }
}

} // verus!
