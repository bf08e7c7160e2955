use chatcore::lifecycle::CancelFlag;
use chatcore::lifecycle::LifecycleManager;
use chatcore::lifecycle::ModelSpec;
use chatcore::session::EngineError;

fn model(path: &str) -> ModelSpec {
    ModelSpec {
        path: path.to_string(),
        max_context_length: 131072,
        eos_token: 2,
        has_chat_template: true,
    }
}

#[test]
fn unload_is_idempotent_and_always_succeeds() {
    let mut m = LifecycleManager::new();
    m.install(model("/models/a.gguf"));
    assert!(m.unload().is_ok());
    assert!(m.unload().is_ok());
    assert!(!m.is_loaded());
}

#[test]
fn unload_with_nothing_loaded_succeeds() {
    let mut m = LifecycleManager::new();
    assert!(m.unload().is_ok());
    assert!(!m.is_loaded());
}

#[test]
fn loading_replaces_the_previous_model() {
    let mut m = LifecycleManager::new();
    m.install(model("/models/a.gguf"));
    m.install(model("/models/b.gguf"));
    assert!(m.is_loaded());
    assert_eq!(m.begin_request().unwrap().path, "/models/b.gguf");
}

#[test]
fn generation_without_a_model_is_refused() {
    let m = LifecycleManager::new();
    match m.begin_request() {
        Err(EngineError::NotLoaded) => {}
        _ => panic!("a request without a model must be refused as not loaded"),
    }
}

#[test]
fn cancel_flag_set_reset_read() {
    let mut f = CancelFlag::new();
    assert!(!f.read());
    f.cancel();
    assert!(f.read());
    // A session clears the flag at entry, so an early cancel has no effect
    // on the next generation.
    f.reset();
    assert!(!f.read());
}
