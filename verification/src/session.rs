//! The generation session: the state machine that runs the autoregressive
//! decode/sample loop under a fixed token budget.
//!
//! The session itself owns no backend handle. The driver tokenizes the
//! formatted prompt, feeds the session the resulting token count, and then
//! alternates between the backend (sample one token, decode it) and the
//! session, which makes every decision: when to stop, what to accumulate,
//! when to emit a streaming update, and which terminal state was reached.
//! Each step first polls the shared cancellation flag; a reader that cannot
//! acquire the flag's lock hands in `false` for that iteration.

use crate::strutil::str_eq;
use vstd::prelude::*;
use vstd::string::StringExecFns;

verus! {

/// Hard cap on the number of tokens generated in one call.
pub const MAX_GENERATION_TOKENS: usize = 4096;

/// Smallest generation allowance worth starting the sampling loop for.
pub const MIN_USABLE_GENERATION: usize = 10;

/// Streaming updates go out every this many generated tokens (plus always on
/// the final token of the loop).
pub const EMIT_EVERY: usize = 5;

/// Literal turn-end marker text that some models emit instead of their
/// end-of-sequence token id.
pub const END_OF_TURN_MARKER: &'static str = "<end_of_turn>";

/// Advisory suffix appended to the accumulated text when the context ceiling
/// is reached mid-loop.
pub const CONTEXT_LIMIT_NOTICE: &'static str =
    "\n\n*Context limit reached. Start a new conversation to continue.*";

/// Exclusive and final states of a generation session.
#[derive(Clone, Copy, Debug, PartialEq, Eq, Structural)]
pub enum Terminal {
    /// The model finished its turn, or the generation allowance ran out.
    Completed,
    /// The shared cancellation flag was seen set; partial output is kept.
    Cancelled,
    /// The token budget was or would have been exceeded.
    Overflowed,
    /// The backend failed mid-request (cache exhaustion or sampling failure).
    Failed,
}

/// Typed failures of one chat request. Every variant that reports counts
/// carries the exact token usage and budget, so the caller can decide how to
/// recover; the core never retries and never truncates history itself.
#[derive(Clone, Copy, Debug, PartialEq, Eq, Structural)]
pub enum EngineError {
    /// Generation was requested with no model loaded.
    NotLoaded,
    /// The formatted prompt tokenized to zero tokens.
    TokenizationEmpty,
    /// The prompt alone, or prompt plus generation, would exceed the budget.
    Overflowed { tokens_used: usize, max_context_tokens: usize },
    /// The backend's key/value cache was exhausted while decoding.
    CacheExhausted { tokens_used: usize, max_context_tokens: usize },
    /// The sampler failed to select a token.
    SamplingFailed,
}

/// What the driver must do next after polling the cancellation flag.
pub enum PollOutcome {
    /// The session reached a terminal state; emit the done signal and stop.
    Finished(Terminal),
    /// Sample the next token. On the very first iteration the logits are
    /// read from the last prefill position; afterwards from the single
    /// decoded token's position.
    Sample { use_prefill_logits: bool },
}

/// What the driver must do with a freshly sampled token.
pub enum TokenOutcome {
    /// The token ended the turn; emit the done signal and stop.
    Finished(Terminal),
    /// Decode the token at `position`, and if `emit` is set, forward the
    /// accumulated text to the stream sink first.
    Decode { position: usize, emit: bool },
}

/// The generation allowance for a call: the remaining budget less a ten
/// percent safety margin, capped at `MAX_GENERATION_TOKENS`.
pub open spec fn generation_cap(max_context_tokens: int, prompt_tokens: int) -> int {
    let remaining = max_context_tokens - prompt_tokens;
    let kept = remaining - remaining / 10;
    if kept < MAX_GENERATION_TOKENS {
        kept
    } else {
        MAX_GENERATION_TOKENS as int
    }
}

/// Prompts at or above this share of the ceiling trigger a capacity warning
/// (85 percent, in whole tokens).
pub open spec fn capacity_threshold(max_context_tokens: int) -> int {
    max_context_tokens * 85 / 100
}

/// Ephemeral, call-scoped state of one generation request. Created after
/// tokenization, destroyed when the request ends; it never outlives one
/// request and is never shared across calls.
pub struct Session {
    /// The effective context ceiling for this call (prompt plus generated).
    pub max_context_tokens: usize,
    /// How many tokens the formatted prompt tokenized to.
    pub prompt_tokens: usize,
    /// The model's end-of-sequence token id.
    pub eos_token: i32,
    /// The generation allowance computed once at the start of the call.
    pub max_generation_tokens: usize,
    /// How many tokens have been generated so far.
    pub generated: usize,
    /// Prompt plus generated tokens: the backend positions consumed so far.
    pub tokens_consumed: usize,
    /// Everything the model has said so far in this request.
    pub accumulated: String,
    /// The terminal state, once one is reached.
    pub outcome: Option<Terminal>,
}

impl Session {
    /// Well-formedness: the budget invariant of the data model. The prompt
    /// fits strictly under the ceiling, the allowance is the planned one, and
    /// the consumed positions never exceed the ceiling.
    pub open spec fn wf(self) -> bool {
        &&& 0 < self.prompt_tokens < self.max_context_tokens
        &&& self.max_generation_tokens == generation_cap(
            self.max_context_tokens as int,
            self.prompt_tokens as int,
        )
        &&& self.tokens_consumed == self.prompt_tokens + self.generated
        &&& self.generated <= self.max_generation_tokens
        &&& self.tokens_consumed <= self.max_context_tokens
    }

    /// Open a session for a prompt of `prompt_tokens` tokens under a ceiling
    /// of `max_context_tokens`. Refuses an empty tokenization, and refuses —
    /// before any decode call is made — a prompt that already fills the
    /// ceiling.
    pub fn begin(max_context_tokens: usize, prompt_tokens: usize, eos_token: i32) -> (r: Result<
        Session,
        EngineError,
    >)
        ensures
            prompt_tokens == 0 ==> r == Result::<Session, EngineError>::Err(
                EngineError::TokenizationEmpty,
            ),
            prompt_tokens > 0 && prompt_tokens >= max_context_tokens ==> r == Result::<
                Session,
                EngineError,
            >::Err(
                EngineError::Overflowed { tokens_used: prompt_tokens, max_context_tokens },
            ),
            0 < prompt_tokens < max_context_tokens ==> {
                &&& r is Ok
                &&& r->Ok_0.wf()
                &&& r->Ok_0.max_context_tokens == max_context_tokens
                &&& r->Ok_0.prompt_tokens == prompt_tokens
                &&& r->Ok_0.eos_token == eos_token
                &&& r->Ok_0.generated == 0
                &&& r->Ok_0.tokens_consumed == prompt_tokens
                &&& r->Ok_0.accumulated@ == Seq::<char>::empty()
                &&& r->Ok_0.outcome is None
            },
    {
        if prompt_tokens == 0 {
            return Err(EngineError::TokenizationEmpty);
        }
        if prompt_tokens >= max_context_tokens {
            return Err(EngineError::Overflowed { tokens_used: prompt_tokens, max_context_tokens });
        }
        let remaining = max_context_tokens - prompt_tokens;
        let kept = remaining - remaining / 10;
        let cap = if kept < MAX_GENERATION_TOKENS {
            kept
        } else {
            MAX_GENERATION_TOKENS
        };
        Ok(
            Session {
                max_context_tokens,
                prompt_tokens,
                eos_token,
                max_generation_tokens: cap,
                generated: 0,
                tokens_consumed: prompt_tokens,
                accumulated: String::new(),
                outcome: None,
            },
        )
    }

    /// Advisory: the prompt already uses 85 percent or more of the ceiling.
    /// Never an error; the driver forwards it as a status notice.
    pub fn near_capacity(&self) -> (r: bool)
        ensures
            r <==> self.prompt_tokens as int >= capacity_threshold(self.max_context_tokens as int),
    {
        let threshold = (self.max_context_tokens as u128) * 85 / 100;
        (self.prompt_tokens as u128) >= threshold
    }

    /// Checked right after the prefill decode: if the generation allowance is
    /// below the usable minimum, the session moves to `Overflowed` and the
    /// request is refused before a single token is generated.
    pub fn check_generation_room(&mut self) -> (r: Result<usize, EngineError>)
        requires
            old(self).wf(),
            old(self).outcome is None,
            old(self).generated == 0,
        ensures
            final(self).wf(),
            old(self).max_generation_tokens >= MIN_USABLE_GENERATION ==> {
                &&& r == Result::<usize, EngineError>::Ok(old(self).max_generation_tokens)
                &&& *final(self) == *old(self)
            },
            old(self).max_generation_tokens < MIN_USABLE_GENERATION ==> {
                &&& r == Result::<usize, EngineError>::Err(
                    EngineError::Overflowed {
                        tokens_used: old(self).prompt_tokens,
                        max_context_tokens: old(self).max_context_tokens,
                    },
                )
                &&& *final(self) == (Session { outcome: Some(Terminal::Overflowed), ..*old(self) })
            },
    {
        if self.max_generation_tokens < MIN_USABLE_GENERATION {
            self.outcome = Some(Terminal::Overflowed);
            Err(
                EngineError::Overflowed {
                    tokens_used: self.prompt_tokens,
                    max_context_tokens: self.max_context_tokens,
                },
            )
        } else {
            Ok(self.max_generation_tokens)
        }
    }

    /// One poll at the top of the sampling loop. Decides, in this order:
    /// allowance exhausted (normal completion), cancellation (partial output
    /// kept), context ceiling reached (advisory suffix appended), or proceed
    /// to sampling.
    pub fn poll(&mut self, cancelled: bool) -> (r: PollOutcome)
        requires
            old(self).wf(),
            old(self).outcome is None,
        ensures
            final(self).wf(),
            old(self).generated >= old(self).max_generation_tokens ==> {
                &&& r is Finished && r->Finished_0 == Terminal::Completed
                &&& *final(self) == (Session { outcome: Some(Terminal::Completed), ..*old(self) })
            },
            old(self).generated < old(self).max_generation_tokens && cancelled ==> {
                &&& r is Finished && r->Finished_0 == Terminal::Cancelled
                &&& *final(self) == (Session { outcome: Some(Terminal::Cancelled), ..*old(self) })
            },
            old(self).generated < old(self).max_generation_tokens && !cancelled && old(
                self,
            ).tokens_consumed >= old(self).max_context_tokens ==> {
                &&& r is Finished && r->Finished_0 == Terminal::Overflowed
                &&& final(self).outcome == Some(Terminal::Overflowed)
                &&& final(self).accumulated@ == old(self).accumulated@ + CONTEXT_LIMIT_NOTICE@
                &&& *final(self) == (Session {
                    outcome: Some(Terminal::Overflowed),
                    accumulated: final(self).accumulated,
                    ..*old(self)
                })
            },
            old(self).generated < old(self).max_generation_tokens && !cancelled && old(
                self,
            ).tokens_consumed < old(self).max_context_tokens ==> {
                &&& r is Sample
                &&& r->use_prefill_logits == (old(self).generated == 0)
                &&& *final(self) == *old(self)
            },
    {
        if self.generated >= self.max_generation_tokens {
            self.outcome = Some(Terminal::Completed);
            return PollOutcome::Finished(Terminal::Completed);
        }
        if cancelled {
            self.outcome = Some(Terminal::Cancelled);
            return PollOutcome::Finished(Terminal::Cancelled);
        }
        if self.tokens_consumed >= self.max_context_tokens {
            self.accumulated.append(CONTEXT_LIMIT_NOTICE);
            self.outcome = Some(Terminal::Overflowed);
            return PollOutcome::Finished(Terminal::Overflowed);
        }
        PollOutcome::Sample { use_prefill_logits: self.generated == 0 }
    }

    /// Judge a freshly sampled token: the end-of-sequence id or the literal
    /// turn-end marker completes the turn with nothing appended; any other
    /// token is appended to the accumulated text and handed back for
    /// decoding, with the emit cadence decided here.
    pub fn accept_token(&mut self, token: i32, token_text: &str) -> (r: TokenOutcome)
        requires
            old(self).wf(),
            old(self).outcome is None,
            old(self).generated < old(self).max_generation_tokens,
            old(self).tokens_consumed < old(self).max_context_tokens,
        ensures
            final(self).wf(),
            token == old(self).eos_token ==> {
                &&& r is Finished && r->Finished_0 == Terminal::Completed
                &&& *final(self) == (Session { outcome: Some(Terminal::Completed), ..*old(self) })
            },
            token != old(self).eos_token && token_text@ == END_OF_TURN_MARKER@ ==> {
                &&& r is Finished && r->Finished_0 == Terminal::Completed
                &&& *final(self) == (Session { outcome: Some(Terminal::Completed), ..*old(self) })
            },
            token != old(self).eos_token && token_text@ != END_OF_TURN_MARKER@ ==> {
                &&& r is Decode
                &&& r->position == old(self).tokens_consumed
                &&& r->emit == (old(self).generated % EMIT_EVERY == 0 || old(self).generated == old(
                    self,
                ).max_generation_tokens - 1)
                &&& final(self).accumulated@ == old(self).accumulated@ + token_text@
                &&& *final(self) == (Session {
                    accumulated: final(self).accumulated,
                    ..*old(self)
                })
            },
    {
        if token == self.eos_token {
            self.outcome = Some(Terminal::Completed);
            return TokenOutcome::Finished(Terminal::Completed);
        }
        if str_eq(token_text, END_OF_TURN_MARKER) {
            self.outcome = Some(Terminal::Completed);
            return TokenOutcome::Finished(Terminal::Completed);
        }
        let emit = self.generated % EMIT_EVERY == 0 || self.generated
            == self.max_generation_tokens - 1;
        self.accumulated.append(token_text);
        TokenOutcome::Decode { position: self.tokens_consumed, emit }
    }

    /// The decode of the accepted token succeeded: one more position is
    /// consumed and one more token counts as generated.
    pub fn advance(&mut self)
        requires
            old(self).wf(),
            old(self).outcome is None,
            old(self).generated < old(self).max_generation_tokens,
            old(self).tokens_consumed < old(self).max_context_tokens,
        ensures
            final(self).wf(),
            *final(self) == (Session {
                generated: (old(self).generated + 1) as usize,
                tokens_consumed: (old(self).tokens_consumed + 1) as usize,
                ..*old(self)
            }),
    {
        self.generated = self.generated + 1;
        self.tokens_consumed = self.tokens_consumed + 1;
    }

    /// The decode of the accepted token failed: the backend's cache is
    /// exhausted, which is fatal for this request (the caller should start a
    /// new conversation, not retry).
    pub fn fail_decode(&mut self) -> (e: EngineError)
        requires
            old(self).wf(),
        ensures
            *final(self) == (Session { outcome: Some(Terminal::Failed), ..*old(self) }),
            e == (EngineError::CacheExhausted {
                tokens_used: old(self).tokens_consumed,
                max_context_tokens: old(self).max_context_tokens,
            }),
    {
        self.outcome = Some(Terminal::Failed);
        EngineError::CacheExhausted {
            tokens_used: self.tokens_consumed,
            max_context_tokens: self.max_context_tokens,
        }
    }

    /// The sampler failed to select a token: fatal for this request.
    pub fn fail_sampling(&mut self) -> (e: EngineError)
        requires
            old(self).wf(),
        ensures
            *final(self) == (Session { outcome: Some(Terminal::Failed), ..*old(self) }),
            e == EngineError::SamplingFailed,
    {
        self.outcome = Some(Terminal::Failed);
        EngineError::SamplingFailed
    }

    /// The text accumulated so far; valid partial output in every state.
    pub fn text(&self) -> (r: &String)
        ensures
            r@ == self.accumulated@,
    {
        &self.accumulated
    }

    /// The terminal state, once the session has reached one.
    pub fn terminal(&self) -> (r: Option<Terminal>)
        ensures
            r == self.outcome,
    {
        self.outcome
    }
}

/// The budget invariant can never be violated mid-loop: as long as the
/// generation allowance has not been exhausted, the consumed positions of a
/// well-formed session are strictly under the ceiling, so the in-loop
/// overflow stop is a safety net that a well-formed session never needs.
pub proof fn lemma_within_budget(s: Session)
    requires
        s.wf(),
        s.generated < s.max_generation_tokens,
    ensures
        s.tokens_consumed < s.max_context_tokens,
{
}

/// The fixed sampling pipeline of §4.4, applied in this order on every
/// iteration: repetition penalty first (so penalized tokens can be excluded
/// before the truncation filters renormalize), then top-k, nucleus,
/// minimum-probability, temperature, and a seeded draw. Ratios are stated in
/// hundredths, since the policy itself holds no fractional state; the
/// backend receives them as the corresponding fractions.
pub struct SamplerPolicy {
    /// How many recent tokens the repetition penalty looks back over.
    pub penalty_last_n: u32,
    /// Repetition penalty factor, in hundredths (115 stands for 1.15).
    pub penalty_factor_hundredths: u32,
    /// Keep only this many most likely tokens.
    pub top_k: u32,
    /// Nucleus sampling mass, in hundredths (95 stands for 0.95).
    pub top_p_hundredths: u32,
    /// Minimum token probability, in hundredths (5 stands for 0.05).
    pub min_p_hundredths: u32,
    /// Temperature, in hundredths (80 stands for 0.8).
    pub temperature_hundredths: u32,
    /// Fixed seed for the final draw, kept for reproducibility.
    pub seed: u32,
}

impl SamplerPolicy {
    /// The one pipeline every generation uses.
    pub fn fixed() -> (r: SamplerPolicy)
        ensures
            r.penalty_last_n == 64,
            r.penalty_factor_hundredths == 115,
            r.top_k == 40,
            r.top_p_hundredths == 95,
            r.min_p_hundredths == 5,
            r.temperature_hundredths == 80,
            r.seed == 42,
    {
        SamplerPolicy {
            penalty_last_n: 64,
            penalty_factor_hundredths: 115,
            top_k: 40,
            top_p_hundredths: 95,
            min_p_hundredths: 5,
            temperature_hundredths: 80,
            seed: 42,
        }
    }
}

} // verus!
