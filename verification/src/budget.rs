//! Context budget planning: convert the host's total RAM into a token-count
//! ceiling and a decode batch size for one generation call.

use vstd::prelude::*;

verus! {

/// Token ceiling used on hosts with 16 GiB of RAM or more.
pub const HIGH_RAM_TOKENS: usize = 120000;

/// Token ceiling used on hosts with at least 8 but under 16 GiB of RAM.
pub const MEDIUM_RAM_TOKENS: usize = 60000;

/// Token ceiling used on hosts with under 8 GiB of RAM.
pub const LOW_RAM_TOKENS: usize = 30000;

/// Token ceiling used when the RAM reading is unavailable (fail open).
pub const DEFAULT_TOKENS: usize = 60000;

/// Number of tokens a single decode pass may carry, independent of RAM.
pub const DECODE_BATCH_SIZE: usize = 8192;

/// The per-call context budget derived from the hardware probe's RAM reading.
/// It is recomputed for every generation call and never shared across calls.
pub struct ContextBudget {
    /// Ceiling on prompt plus generated tokens for this call.
    pub max_context_tokens: usize,
    /// How many tokens one batched decode pass may process.
    pub decode_batch_size: usize,
}

/// The tiered policy: the token ceiling afforded by `ram_gib` GiB of RAM,
/// with `None` standing for an unreadable RAM figure.
pub open spec fn budget_tokens(ram_gib: Option<u64>) -> usize {
    match ram_gib {
        Some(r) => if r >= 16 {
            HIGH_RAM_TOKENS
        } else if r >= 8 {
            MEDIUM_RAM_TOKENS
        } else {
            LOW_RAM_TOKENS
        },
        None => DEFAULT_TOKENS,
    }
}

/// Select the context budget for one generation call from the host's total
/// RAM in GiB; `None` means the reading was unavailable.
pub fn plan_budget(ram_gib: Option<u64>) -> (b: ContextBudget)
    ensures
        b.max_context_tokens == budget_tokens(ram_gib),
        b.decode_batch_size == DECODE_BATCH_SIZE,
{
    let max_context_tokens: usize = match ram_gib {
        Some(r) => {
            if r >= 16 {
                HIGH_RAM_TOKENS
            } else if r >= 8 {
                MEDIUM_RAM_TOKENS
            } else {
                LOW_RAM_TOKENS
            }
        },
        None => DEFAULT_TOKENS,
    };
    ContextBudget { max_context_tokens, decode_batch_size: DECODE_BATCH_SIZE }
}

/// The planned ceiling is a heuristic safety margin, not a hard backend
/// limit: the backend's own maximum context length, if smaller, clamps it.
pub fn clamp_to_model(planned: usize, model_max: usize) -> (r: usize)
    ensures
        r == if model_max < planned {
            model_max as int
        } else {
            planned as int
        },
{
    if model_max < planned {
        model_max
    } else {
        planned
    }
}

/// Size of the batched prefill pass: the smaller of the context ceiling and
/// the decode batch size.
pub fn prefill_batch_size(max_context_tokens: usize, decode_batch_size: usize) -> (r: usize)
    ensures
        r == if max_context_tokens < decode_batch_size {
            max_context_tokens as int
        } else {
            decode_batch_size as int
        },
{
    if max_context_tokens < decode_batch_size {
        max_context_tokens
    } else {
        decode_batch_size
    }
}

/// Every RAM reading is afforded one of the three tiered ceilings, and the
/// unreadable case falls open to the medium tier.
pub proof fn lemma_budget_tiers(ram_gib: Option<u64>)
    ensures
        budget_tokens(ram_gib) == LOW_RAM_TOKENS || budget_tokens(ram_gib) == MEDIUM_RAM_TOKENS
            || budget_tokens(ram_gib) == HIGH_RAM_TOKENS,
        budget_tokens(None) == MEDIUM_RAM_TOKENS,
{
}

/// The token ceiling is monotonically non-decreasing in the RAM reading.
pub proof fn lemma_budget_monotonic(r1: u64, r2: u64)
    requires
        r1 <= r2,
    ensures
        budget_tokens(Some(r1)) <= budget_tokens(Some(r2)),
{
}

} // verus!
