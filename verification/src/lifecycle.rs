//! The model/backend lifecycle: which model is loaded, installing a freshly
//! loaded one, and unloading. The backend's native handles live with the
//! driver; this manager owns their metadata and makes every decision about
//! them. The driver must guard one manager (together with its native handles)
//! by a single mutual-exclusion lock, so that load, unload and generate on
//! the same model never overlap.

use crate::session::EngineError;
use vstd::prelude::*;

verus! {

/// Metadata of a loaded model: everything generation decisions need to know
/// about it. Immutable after load; invalidated atomically with the backend.
#[derive(Debug, Clone)]
pub struct ModelSpec {
    /// Where the model container was loaded from.
    pub path: String,
    /// The largest context window the model itself supports.
    pub max_context_length: usize,
    /// The model's end-of-sequence token id.
    pub eos_token: i32,
    /// Whether the model carries a native chat template.
    pub has_chat_template: bool,
}

/// Failures of a load call. A failed load leaves the previous state in
/// place: loading over an existing model replaces it only on success.
#[derive(Debug, Clone)]
pub enum LoadError {
    /// The model file does not exist.
    FileMissing,
    /// The inference backend could not be initialized.
    BackendInitFailed,
    /// The file is not a valid model container.
    InvalidModel,
}

/// Owner of the loaded model/backend pair. Exactly one model may be live at
/// a time.
pub struct LifecycleManager {
    loaded: Option<ModelSpec>,
}

impl LifecycleManager {
    /// The currently loaded model's metadata, if any.
    pub closed spec fn model(self) -> Option<ModelSpec> {
        self.loaded
    }

    /// A fresh manager with nothing loaded.
    pub fn new() -> (r: LifecycleManager)
        ensures
            r.model() is None,
    {
        LifecycleManager { loaded: None }
    }

    /// Install a successfully loaded model, atomically replacing any
    /// previously loaded model/backend pair (the previous handles are dropped
    /// by the driver, releasing native memory).
    pub fn install(&mut self, m: ModelSpec)
        ensures
            final(self).model() == Some(m),
    {
        self.loaded = Some(m);
    }

    /// Unload: always succeeds, clears the stored handles, and is idempotent —
    /// unloading with nothing loaded is just as fine.
    pub fn unload(&mut self) -> (r: Result<(), EngineError>)
        ensures
            r is Ok,
            final(self).model() is None,
    {
        self.loaded = None;
        Ok(())
    }

    /// Begin a generation request: hands out the loaded model's metadata, or
    /// refuses with `NotLoaded` exactly when no model is present.
    pub fn begin_request(&self) -> (r: Result<&ModelSpec, EngineError>)
        ensures
            self.model() is Some <==> r is Ok,
            r is Ok ==> r->Ok_0 == self.model()->Some_0,
            r is Err ==> r->Err_0 == EngineError::NotLoaded,
    {
        match &self.loaded {
            Some(m) => Ok(m),
            None => Err(EngineError::NotLoaded),
        }
    }

    /// Whether a model is currently loaded.
    pub fn is_loaded(&self) -> (r: bool)
        ensures
            r == (self.model() is Some),
    {
        self.loaded.is_some()
    }
}

/// The shared cancellation flag of one connection: set by a cancel request
/// from any thread, reset by each generation session at entry, and read
/// non-blockingly from inside the hot loop (a reader that cannot acquire the
/// driver's lock treats the flag as not yet cancelled for that iteration).
pub struct CancelFlag {
    cancelled: bool,
}

impl CancelFlag {
    /// The flag's current value.
    pub closed spec fn is_set(self) -> bool {
        self.cancelled
    }

    /// A fresh, cleared flag.
    pub fn new() -> (r: CancelFlag)
        ensures
            !r.is_set(),
    {
        CancelFlag { cancelled: false }
    }

    /// Request cancellation; safe at any time, including before generation
    /// starts (the next session clears it again at entry).
    pub fn cancel(&mut self)
        ensures
            final(self).is_set(),
    {
        self.cancelled = true;
    }

    /// Cleared by the session at the start of each generation.
    pub fn reset(&mut self)
        ensures
            !final(self).is_set(),
    {
        self.cancelled = false;
    }

    /// Non-blocking read.
    pub fn read(&self) -> (r: bool)
        ensures
            r == self.is_set(),
    {
        self.cancelled
    }
}

} // verus!
