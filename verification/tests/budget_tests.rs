use chatcore::budget::clamp_to_model;
use chatcore::budget::plan_budget;
use chatcore::budget::prefill_batch_size;

#[test]
fn budget_tiers_exact() {
    let b = plan_budget(Some(32));
    assert_eq!(b.max_context_tokens, 120000);
    assert_eq!(b.decode_batch_size, 8192);

    assert_eq!(plan_budget(Some(16)).max_context_tokens, 120000);
    assert_eq!(plan_budget(Some(15)).max_context_tokens, 60000);
    assert_eq!(plan_budget(Some(8)).max_context_tokens, 60000);
    assert_eq!(plan_budget(Some(7)).max_context_tokens, 30000);
    assert_eq!(plan_budget(Some(0)).max_context_tokens, 30000);
}

#[test]
fn budget_unreadable_fails_open() {
    let b = plan_budget(None);
    assert_eq!(b.max_context_tokens, 60000);
    assert_eq!(b.decode_batch_size, 8192);
}

#[test]
fn budget_monotone_samples() {
    let mut last = 0;
    for r in 0..64u64 {
        let b = plan_budget(Some(r));
        assert!(b.max_context_tokens >= last);
        assert!(
            b.max_context_tokens == 30000
                || b.max_context_tokens == 60000
                || b.max_context_tokens == 120000
        );
        last = b.max_context_tokens;
    }
}

#[test]
fn model_maximum_clamps_plan() {
    assert_eq!(clamp_to_model(120000, 8192), 8192);
    assert_eq!(clamp_to_model(60000, 131072), 60000);
    assert_eq!(clamp_to_model(60000, 60000), 60000);
}

#[test]
fn prefill_batch_is_minimum() {
    assert_eq!(prefill_batch_size(120000, 8192), 8192);
    assert_eq!(prefill_batch_size(4000, 8192), 4000);
}
