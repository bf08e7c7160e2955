use chatcore::session::EngineError;
use chatcore::session::PollOutcome;
use chatcore::session::SamplerPolicy;
use chatcore::session::Session;
use chatcore::session::Terminal;
use chatcore::session::TokenOutcome;

#[test]
fn empty_tokenization_is_refused() {
    let r = Session::begin(60000, 0, 2);
    assert_eq!(r.err(), Some(EngineError::TokenizationEmpty));
}

#[test]
fn prompt_at_ceiling_overflows_before_any_decode() {
    let r = Session::begin(100000, 100000, 2);
    assert_eq!(
        r.err(),
        Some(EngineError::Overflowed {
            tokens_used: 100000,
            max_context_tokens: 100000,
        })
    );

    let r = Session::begin(100000, 100001, 2);
    assert_eq!(
        r.err(),
        Some(EngineError::Overflowed {
            tokens_used: 100001,
            max_context_tokens: 100000,
        })
    );
}

#[test]
fn prompt_one_under_ceiling_proceeds() {
    let r = Session::begin(100000, 99999, 2);
    assert!(r.is_ok());
    let s = r.unwrap();
    assert_eq!(s.prompt_tokens, 99999);
    assert_eq!(s.tokens_consumed, 99999);
    assert_eq!(s.terminal(), None);
}

#[test]
fn tiny_allowance_is_refused_with_overflow_and_zero_decodes() {
    // remaining = 5, margin 0, cap 5: under the usable minimum of 10.
    let mut s = Session::begin(1000, 995, 2).unwrap();
    let r = s.check_generation_room();
    assert_eq!(
        r.err(),
        Some(EngineError::Overflowed {
            tokens_used: 995,
            max_context_tokens: 1000,
        })
    );
    assert_eq!(s.terminal(), Some(Terminal::Overflowed));
    assert_eq!(s.generated, 0);
    assert_eq!(s.text(), "");
}

#[test]
fn allowance_of_ten_is_usable() {
    // remaining = 11, margin 1, cap 10: exactly the usable minimum.
    let mut s = Session::begin(1000, 989, 2).unwrap();
    assert_eq!(s.check_generation_room().ok(), Some(10));
    assert_eq!(s.terminal(), None);
}

#[test]
fn allowance_caps_at_4096() {
    let s = Session::begin(120000, 10, 2).unwrap();
    assert_eq!(s.max_generation_tokens, 4096);
}

#[test]
fn allowance_reserves_ten_percent() {
    // remaining = 100 -> 100 - 10 = 90.
    let s = Session::begin(1000, 900, 2).unwrap();
    assert_eq!(s.max_generation_tokens, 90);
}

#[test]
fn near_capacity_at_85_percent() {
    let s = Session::begin(1000, 850, 2).unwrap();
    assert!(s.near_capacity());
    let s = Session::begin(1000, 849, 2).unwrap();
    assert!(!s.near_capacity());
}

#[test]
fn cancellation_mid_loop_keeps_partial_output() {
    let eos = 99;
    let mut s = Session::begin(1000, 10, eos).unwrap();
    s.check_generation_room().unwrap();
    let mut expected = String::new();
    for i in 0..7 {
        match s.poll(false) {
            PollOutcome::Sample { use_prefill_logits } => {
                assert_eq!(use_prefill_logits, i == 0);
            }
            PollOutcome::Finished(_) => panic!("stopped too early"),
        }
        let token_text = format!("t{}", i);
        match s.accept_token(1000 + i as i32, &token_text) {
            TokenOutcome::Decode { position, emit } => {
                assert_eq!(position, 10 + i);
                assert_eq!(emit, i % 5 == 0);
            }
            TokenOutcome::Finished(_) => panic!("token should not end the turn"),
        }
        s.advance();
        expected.push_str(&token_text);
    }
    // The cancel request becomes visible at generated-token index 7.
    match s.poll(true) {
        PollOutcome::Finished(t) => assert_eq!(t, Terminal::Cancelled),
        PollOutcome::Sample { .. } => panic!("cancellation ignored"),
    }
    assert_eq!(s.text(), &expected);
    assert_eq!(s.terminal(), Some(Terminal::Cancelled));
}

#[test]
fn eos_on_first_iteration_completes_with_empty_text() {
    let eos = 7;
    let mut s = Session::begin(100, 5, eos).unwrap();
    s.check_generation_room().unwrap();
    match s.poll(false) {
        PollOutcome::Sample { use_prefill_logits } => assert!(use_prefill_logits),
        PollOutcome::Finished(_) => panic!("stopped too early"),
    }
    match s.accept_token(eos, "ignored") {
        TokenOutcome::Finished(t) => assert_eq!(t, Terminal::Completed),
        TokenOutcome::Decode { .. } => panic!("end-of-sequence id must complete the turn"),
    }
    assert_eq!(s.text(), "");
    assert_eq!(s.terminal(), Some(Terminal::Completed));
}

#[test]
fn turn_end_marker_completes_without_appending() {
    let mut s = Session::begin(100, 5, 7).unwrap();
    s.check_generation_room().unwrap();
    match s.poll(false) {
        PollOutcome::Sample { .. } => {}
        PollOutcome::Finished(_) => panic!("stopped too early"),
    }
    match s.accept_token(8, "<end_of_turn>") {
        TokenOutcome::Finished(t) => assert_eq!(t, Terminal::Completed),
        TokenOutcome::Decode { .. } => panic!("turn-end marker must complete the turn"),
    }
    assert_eq!(s.text(), "");
}

#[test]
fn emit_cadence_every_fifth_and_final_token() {
    // remaining = 11, cap exactly 10.
    let mut s = Session::begin(1000, 989, 2).unwrap();
    assert_eq!(s.check_generation_room().ok(), Some(10));
    let mut emitted = Vec::new();
    for i in 0..10 {
        match s.poll(false) {
            PollOutcome::Sample { .. } => {}
            PollOutcome::Finished(_) => panic!("stopped too early"),
        }
        match s.accept_token(100 + i as i32, "x") {
            TokenOutcome::Decode { emit, .. } => emitted.push(emit),
            TokenOutcome::Finished(_) => panic!("token should not end the turn"),
        }
        s.advance();
    }
    assert_eq!(
        emitted,
        vec![true, false, false, false, false, true, false, false, false, true]
    );
    // Allowance exhausted: the next poll completes the session.
    match s.poll(false) {
        PollOutcome::Finished(t) => assert_eq!(t, Terminal::Completed),
        PollOutcome::Sample { .. } => panic!("allowance overrun"),
    }
}

#[test]
fn decode_failure_is_cache_exhaustion() {
    let mut s = Session::begin(1000, 10, 2).unwrap();
    s.check_generation_room().unwrap();
    match s.poll(false) {
        PollOutcome::Sample { .. } => {}
        PollOutcome::Finished(_) => panic!("stopped too early"),
    }
    match s.accept_token(5, "x") {
        TokenOutcome::Decode { .. } => {}
        TokenOutcome::Finished(_) => panic!("token should not end the turn"),
    }
    let e = s.fail_decode();
    assert_eq!(
        e,
        EngineError::CacheExhausted {
            tokens_used: 10,
            max_context_tokens: 1000,
        }
    );
    assert_eq!(s.terminal(), Some(Terminal::Failed));
}

#[test]
fn sampling_pipeline_is_fixed() {
    let p = SamplerPolicy::fixed();
    assert_eq!(p.penalty_last_n, 64);
    assert_eq!(p.penalty_factor_hundredths, 115);
    assert_eq!(p.top_k, 40);
    assert_eq!(p.top_p_hundredths, 95);
    assert_eq!(p.min_p_hundredths, 5);
    assert_eq!(p.temperature_hundredths, 80);
    assert_eq!(p.seed, 42);
}
