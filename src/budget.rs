//! The cap on completion length, from the prompt's length in characters.

use vstd::prelude::*;
use vstd::string::*;

verus! {

/// Divides the prompt's character count to get the completion cap, and bounds it.
#[derive(Clone, Copy, Debug, PartialEq, Eq, Structural)]
pub struct TokenBudget {
    /// Characters of prompt per token of completion
    pub divisor: u64,
    /// The largest cap ever requested
    pub ceiling: u16,
}

/// The cap for a prompt of `len` characters: `len / divisor`, at least 1, at most `ceiling`.
pub open spec fn budget_for(len: nat, divisor: nat, ceiling: nat) -> nat
    recommends
        divisor > 0,
{
    let q = len / divisor;
    if q < 1 {
        1
    } else if q > ceiling {
        ceiling
    } else {
        q
    }
}

impl TokenBudget {
    /// Whether the budget can be applied: a non-zero divisor and a ceiling of at least 1.
    pub open spec fn wf(&self) -> bool {
        self.divisor > 0 && self.ceiling >= 1
    }

    /// A budget from its two parameters, or `None` when the divisor is zero or the
    /// ceiling is zero.
    pub fn new(divisor: u64, ceiling: u16) -> (r: Option<TokenBudget>)
        ensures
            r is Some <==> (divisor > 0 && ceiling >= 1),
            r matches Some(b) ==> b.wf() && b.divisor == divisor && b.ceiling == ceiling,
    {
        if divisor > 0 && ceiling >= 1 {
            Some(TokenBudget { divisor, ceiling })
        } else {
            None
        }
    }

    /// The cap for a prompt of `len` characters.
    pub fn max_tokens_for_len(&self, len: u64) -> (r: u16)
        requires
            self.wf(),
        ensures
            r as nat == budget_for(len as nat, self.divisor as nat, self.ceiling as nat),
    {
        let q = len / self.divisor;
        if q < 1 {
            1
        } else if q > self.ceiling as u64 {
            self.ceiling
        } else {
            q as u16
        }
    }

    /// The cap on the completion's length for `prompt`, by its character count.
    pub fn estimate_max_tokens(&self, prompt: &str) -> (r: u16)
        requires
            self.wf(),
        ensures
            r as nat == budget_for(prompt@.len(), self.divisor as nat, self.ceiling as nat),
    {
        let n = prompt.unicode_len();
        self.max_tokens_for_len(n as u64)
    }
}

impl Default for TokenBudget {
    /// A quarter of the prompt's length, at most 256.
    fn default() -> (r: TokenBudget)
        ensures
            r.divisor == 4 && r.ceiling == 256,
    {
        TokenBudget { divisor: 4, ceiling: 256 }
    }
}

/// The cap never falls as the prompt grows, and stays between 1 and the ceiling.
pub proof fn lemma_budget_monotonic(len1: nat, len2: nat, divisor: nat, ceiling: nat)
    requires
        divisor > 0,
        ceiling >= 1,
        len1 <= len2,
    ensures
        budget_for(len1, divisor, ceiling) <= budget_for(len2, divisor, ceiling),
        1 <= budget_for(len1, divisor, ceiling) <= ceiling,
{
    vstd::arithmetic::div_mod::lemma_div_is_ordered(len1 as int, len2 as int, divisor as int);
}

} // verus!
