use real_ai_core::model::ConsciousnessModel;
use real_ai_core::system::RealAIEmbodiedSystem;

fn b(x: f32) -> u32 {
    x.to_bits()
}

fn bs(xs: &[f32]) -> Vec<u32> {
    xs.iter().map(|x| x.to_bits()).collect()
}

fn f(r: u32) -> f32 {
    f32::from_bits(r)
}

// A native single-precision mirror of the five formulas, used to check that
// the library's software arithmetic matches hardware arithmetic bit for bit.

fn smoothness_ref(v: &[f32]) -> f32 {
    if v.len() < 2 {
        return 0.5;
    }
    let mut sum = 0.0f32;
    for i in 1..v.len() {
        let diff = (v[i] - v[i - 1]).abs();
        sum += 1.0 - diff.min(1.0);
    }
    sum / (v.len() - 1) as f32
}

fn variance_ref(v: &[f32]) -> f32 {
    let mean = v.iter().sum::<f32>() / v.len() as f32;
    v.iter().map(|&x| (x - mean).powi(2)).sum::<f32>() / v.len() as f32
}

fn persistence_ref(v: &[f32]) -> f32 {
    if v.is_empty() {
        return 0.0;
    }
    (1.0 - variance_ref(v).sqrt()).max(0.0)
}

fn coherence_ref(v: &[f32]) -> f32 {
    if v.is_empty() {
        return 0.0;
    }
    1.0 - variance_ref(v).sqrt().min(1.0)
}

fn world_model_ref(m: &[f32]) -> f32 {
    if m.len() < 3 {
        return 0.5;
    }
    let mut errors = 0.0f32;
    let mut predictions = 0;
    for i in 2..m.len() {
        let trend = m[i - 1] - m[i - 2];
        let predicted = m[i - 1] + trend;
        errors += (predicted - m[i]).abs();
        predictions += 1;
    }
    if predictions > 0 {
        1.0 - (errors / predictions as f32).min(1.0)
    } else {
        0.5
    }
}

#[test]
fn fresh_level_is_zero() {
    let model = ConsciousnessModel::new();
    assert_eq!(model.get_consciousness_level(), b(0.0));
    let system = RealAIEmbodiedSystem::new();
    assert_eq!(system.get_consciousness_level(), b(0.0));
}

#[test]
fn level_is_idempotent() {
    let mut model = ConsciousnessModel::new();
    let score = model.update_consciousness(&bs(&[0.3, 0.9]), &bs(&[0.4]), b(0.7));
    let first = model.get_consciousness_level();
    let second = model.get_consciousness_level();
    assert_eq!(first, second);
    assert_eq!(first, score);
}

#[test]
fn scenario_single_empty_update() {
    let mut model = ConsciousnessModel::new();
    let score = model.update_consciousness(&[], &[], b(0.0));
    assert_eq!(model.awareness_len(), 0);
    assert_eq!(model.intention_len(), 0);
    assert_eq!(model.memory_len(), 1);
    assert_eq!(model.memory_at(0), b(0.0));
    assert_eq!(model.continuity(), b(0.5));
    assert_eq!(model.stability(), b(0.5));
    assert_eq!(model.self_model(), b(0.0));
    assert_eq!(model.persistence(), b(1.0));
    assert_eq!(model.world_model(), b(0.5));
    assert_eq!(model.confidence(), b(0.75));
    assert_eq!(score, b(0.5));
    assert_eq!(model.get_consciousness_level(), b(0.5));
}

#[test]
fn scenario_three_equal_outcomes() {
    let mut model = ConsciousnessModel::new();
    model.update_consciousness(&[], &[], b(1.0));
    model.update_consciousness(&[], &[], b(1.0));
    let score = model.update_consciousness(&[], &[], b(1.0));
    assert_eq!(model.memory_len(), 3);
    for i in 0..3 {
        assert_eq!(model.memory_at(i), b(1.0));
    }
    assert_eq!(model.world_model(), b(1.0));
    assert_eq!(model.persistence(), b(1.0));
    assert_eq!(model.confidence(), b(1.0));
    assert_eq!(score, b(0.5));
}

#[test]
fn scenario_rolling_eviction() {
    let mut model = ConsciousnessModel::new();
    for i in 1..=129 {
        model.update_consciousness(&[], &[], b(i as f32));
    }
    assert_eq!(model.memory_len(), 128);
    assert_eq!(model.memory_at(0), b(2.0));
    assert_eq!(model.memory_at(127), b(129.0));
}

#[test]
fn buffers_truncate_to_capacity() {
    let mut model = ConsciousnessModel::new();
    let long_context: Vec<f32> = (0..100).map(|i| i as f32 * 0.01).collect();
    let long_decision: Vec<f32> = (0..40).map(|i| i as f32 * 0.02).collect();
    model.update_consciousness(&bs(&long_context), &bs(&long_decision), b(0.0));
    assert_eq!(model.awareness_len(), 64);
    assert_eq!(model.intention_len(), 32);
    model.update_consciousness(&bs(&[0.1; 10]), &bs(&[0.2; 5]), b(0.0));
    assert_eq!(model.awareness_len(), 10);
    assert_eq!(model.intention_len(), 5);
}

#[test]
fn memory_length_is_monotone_until_full() {
    let mut model = ConsciousnessModel::new();
    let mut previous = 0;
    for i in 1..=140 {
        model.update_consciousness(&[], &[], b(i as f32));
        let len = model.memory_len();
        assert!(len >= previous);
        assert_eq!(len, i.min(128));
        previous = len;
        if i > 128 {
            // strict FIFO: the oldest survivor is outcome number i - 127
            assert_eq!(model.memory_at(0), b((i - 127) as f32));
        }
    }
}

#[test]
fn smoothness_sentinel_below_two_elements() {
    let model = ConsciousnessModel::new();
    assert_eq!(model.calculate_continuity(), b(0.5));
    assert_eq!(model.calculate_intention_stability(), b(0.5));
    let mut model = ConsciousnessModel::new();
    model.update_consciousness(&bs(&[0.7]), &bs(&[0.3]), b(0.0));
    assert_eq!(model.continuity(), b(0.5));
    assert_eq!(model.stability(), b(0.5));
}

#[test]
fn smoothness_exact_values() {
    let mut model = ConsciousnessModel::new();
    // identical frames: every step contributes one
    model.update_consciousness(&bs(&[0.25, 0.25]), &[], b(0.0));
    assert_eq!(model.continuity(), b(1.0));
    // a jump of five saturates the penalty, so the step contributes zero
    model.update_consciousness(&bs(&[0.0, 5.0]), &[], b(0.0));
    assert_eq!(model.continuity(), b(0.0));
}

#[test]
fn persistence_empty_and_range() {
    let model = ConsciousnessModel::new();
    assert_eq!(model.calculate_memory_persistence(), b(0.0));
    let mut model = ConsciousnessModel::new();
    model.update_consciousness(&[], &[], b(1.0));
    model.update_consciousness(&[], &[], b(3.0));
    // variance of [1, 3] is 1, so persistence is max(1 - 1, 0) = 0
    assert_eq!(model.persistence(), b(0.0));
    let outcomes = [0.0f32, 0.25, -0.75, 10.0, 0.5, -2.5];
    let mut model = ConsciousnessModel::new();
    for &o in &outcomes {
        model.update_consciousness(&[], &[], b(o));
        let p = f(model.persistence());
        assert!((0.0..=1.0).contains(&p));
    }
}

#[test]
fn world_model_sentinel_below_three_elements() {
    let model = ConsciousnessModel::new();
    assert_eq!(model.assess_world_model(), b(0.5));
    let mut model = ConsciousnessModel::new();
    model.update_consciousness(&[], &[], b(4.0));
    assert_eq!(model.world_model(), b(0.5));
    model.update_consciousness(&[], &[], b(9.0));
    assert_eq!(model.world_model(), b(0.5));
    model.update_consciousness(&[], &[], b(9.0));
    assert_ne!(model.world_model(), b(0.5));
}

#[test]
fn world_model_exact_values() {
    // [1, 2, 3]: extrapolation predicts 3, the error is 0, fidelity is 1
    let mut model = ConsciousnessModel::new();
    for o in [1.0f32, 2.0, 3.0] {
        model.update_consciousness(&[], &[], b(o));
    }
    assert_eq!(model.world_model(), b(1.0));
    // [1, 2, 4]: extrapolation predicts 3, the error is 1, fidelity is 0
    let mut model = ConsciousnessModel::new();
    for o in [1.0f32, 2.0, 4.0] {
        model.update_consciousness(&[], &[], b(o));
    }
    assert_eq!(model.world_model(), b(0.0));
}

#[test]
fn self_model_exact_values() {
    let mut model = ConsciousnessModel::new();
    // variance of [1, 3] is 1, so coherence is 1 - min(1, 1) = 0
    model.update_consciousness(&bs(&[1.0, 3.0]), &[], b(0.0));
    assert_eq!(model.self_model(), b(0.0));
    // a constant buffer has variance 0, so coherence is 1
    model.update_consciousness(&bs(&[2.0, 2.0]), &[], b(0.0));
    assert_eq!(model.self_model(), b(1.0));
    // empty awareness scores 0
    model.update_consciousness(&[], &[], b(0.0));
    assert_eq!(model.self_model(), b(0.0));
}

#[test]
fn matches_native_single_precision() {
    let contexts: [&[f32]; 3] = [&[0.1, 0.7, 0.3], &[], &[0.9, 0.9, 0.2, 0.4]];
    let decisions: [&[f32]; 3] = [&[0.9, 0.2], &[0.5], &[]];
    let outcomes = [0.4f32, 0.6, -0.3];
    let mut model = ConsciousnessModel::new();
    let mut memory: Vec<f32> = Vec::new();
    for step in 0..3 {
        let score = model.update_consciousness(
            &bs(contexts[step]),
            &bs(decisions[step]),
            b(outcomes[step]),
        );
        memory.push(outcomes[step]);
        let continuity = smoothness_ref(contexts[step]);
        let persistence = persistence_ref(&memory);
        let stability = smoothness_ref(decisions[step]);
        let self_model = coherence_ref(contexts[step]);
        let world_model = world_model_ref(&memory);
        assert_eq!(model.continuity(), b(continuity));
        assert_eq!(model.persistence(), b(persistence));
        assert_eq!(model.stability(), b(stability));
        assert_eq!(model.self_model(), b(self_model));
        assert_eq!(model.world_model(), b(world_model));
        assert_eq!(model.confidence(), b((world_model + persistence) / 2.0));
        assert_eq!(
            score,
            b((continuity + persistence + stability + self_model) / 4.0)
        );
    }
}

#[test]
fn facade_forwards_unchanged() {
    let mut system = RealAIEmbodiedSystem::new();
    let mut model = ConsciousnessModel::new();
    let contexts: [&[f32]; 2] = [&[0.2, 0.8], &[1.5]];
    let decisions: [&[f32]; 2] = [&[0.1], &[0.6, 0.6]];
    let outcomes = [0.9f32, 0.1];
    for step in 0..2 {
        let from_system = system.update_consciousness_state(
            &bs(contexts[step]),
            &bs(decisions[step]),
            b(outcomes[step]),
        );
        let from_model = model.update_consciousness(
            &bs(contexts[step]),
            &bs(decisions[step]),
            b(outcomes[step]),
        );
        assert_eq!(from_system, from_model);
    }
    assert_eq!(
        system.get_consciousness_level(),
        model.get_consciousness_level()
    );
}
