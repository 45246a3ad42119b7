//! The run of the pipeline: which requests to issue, how their outcomes become
//! candidates, and what the operator's decision leads to.

use vstd::prelude::*;
use rand::Rng;
use crate::budget::{budget_for, TokenBudget};
use crate::completion::{
    collect, choice_texts, response_candidates, response_choices, response_tokens, string_views,
    CompletionError, OpenAiCompletionResponse,
};
use crate::prompt::{
    preset_postamble, preset_postmessage, preset_preamble,
    prompt_text, render, PromptPreset, PRESET_COUNT,
};

verus! {

/// What a run needs to know before it issues requests.
#[derive(Clone, Debug)]
pub struct RunConfig {
    /// Draw a preset at random for each try, one candidate each
    pub stochastic: bool,
    /// How many candidates to generate
    pub num_tries: u8,
    /// The programming language named in the prompt
    pub language: String,
    /// The cap on completion length
    pub budget: TokenBudget,
}

impl RunConfig {
    /// At least one try, and a budget that can be applied.
    pub open spec fn wf(&self) -> bool {
        self.num_tries >= 1 && self.budget.wf()
    }
}

/// One completion request to issue.
#[derive(Clone, Debug)]
pub struct PlannedRequest {
    /// The preset the prompt was rendered from
    pub preset: PromptPreset,
    /// The rendered prompt
    pub prompt: String,
    /// The cap on the completion's length
    pub max_tokens: u16,
    /// How many candidates to ask for
    pub n: u8,
}

/// The prompt of preset `p` for this run's diff and language.
pub open spec fn preset_prompt(p: PromptPreset, diff: Seq<char>, language: Seq<char>) -> Seq<char> {
    prompt_text(preset_preamble(p), language, preset_postamble(p), '=', diff, preset_postmessage(p))
}

/// Whether `r` is the request for preset `p` asking for `n` candidates.
pub open spec fn is_request_for(
    r: PlannedRequest,
    p: PromptPreset,
    n: nat,
    diff: Seq<char>,
    cfg: RunConfig,
) -> bool {
    let text = preset_prompt(p, diff, cfg.language@);
    &&& r.preset == p
    &&& r.prompt@ == text
    &&& r.max_tokens as nat == budget_for(text.len(), cfg.budget.divisor as nat, cfg.budget.ceiling as nat)
    &&& r.n as nat == n
}

/// The requests of a run: in stochastic mode one per try, from the drawn presets, each
/// asking for one candidate; otherwise one request from the default preset asking for
/// as many candidates as there are tries.
pub open spec fn is_plan(
    rs: Seq<PlannedRequest>,
    cfg: RunConfig,
    diff: Seq<char>,
    picks: Seq<PromptPreset>,
) -> bool {
    if cfg.stochastic {
        &&& rs.len() == cfg.num_tries
        &&& forall|i: int| 0 <= i < rs.len() ==> is_request_for(#[trigger] rs[i], picks[i], 1, diff, cfg)
    } else {
        &&& rs.len() == 1
        &&& is_request_for(rs[0], PromptPreset::Expert, cfg.num_tries as nat, diff, cfg)
    }
}

fn request_for(preset: PromptPreset, n: u8, diff: &str, cfg: &RunConfig) -> (r: PlannedRequest)
    requires
        cfg.wf(),
    ensures
        is_request_for(r, preset, n as nat, diff@, *cfg),
{
    let t = preset.template();
    let prompt = render(&t, diff, cfg.language.as_str());
    let max_tokens = cfg.budget.estimate_max_tokens(prompt.as_str());
    PlannedRequest { preset, prompt, max_tokens, n }
}

/// The requests to issue for `diff`, with `picks` the presets drawn for a stochastic run.
pub fn plan_requests(cfg: &RunConfig, diff: &str, picks: &Vec<PromptPreset>) -> (r: Vec<
    PlannedRequest,
>)
    requires
        cfg.wf(),
        cfg.stochastic ==> picks@.len() == cfg.num_tries,
    ensures
        is_plan(r@, *cfg, diff@, picks@),
{
    let mut out: Vec<PlannedRequest> = Vec::new();
    if cfg.stochastic {
        let mut i: usize = 0;
        while i < cfg.num_tries as usize
            invariant
                cfg.wf(),
                picks@.len() == cfg.num_tries,
                i <= cfg.num_tries,
                out@.len() == i,
                forall|j: int| 0 <= j < i ==> is_request_for(#[trigger] out@[j], picks@[j], 1, diff@, *cfg),
            decreases cfg.num_tries - i,
        {
            out.push(request_for(picks[i], 1, diff, cfg));
            i = i + 1;
        }
    } else {
        out.push(request_for(PromptPreset::Expert, cfg.num_tries, diff, cfg));
    }
    out
}

/// Relies on `rand::Rng::gen_range` over the thread's generator: a value below `n`.
#[verifier::external_body]
fn random_below(n: usize) -> (r: usize)
    requires
        n > 0,
    ensures
        r < n,
{
    rand::thread_rng().gen_range(0..n)
}

/// Draws `count` presets, each independently and uniformly from the built-in list.
pub fn sample_presets(count: u8) -> (r: Vec<PromptPreset>)
    ensures
        r@.len() == count,
{
    let mut out: Vec<PromptPreset> = Vec::new();
    let mut i: u8 = 0;
    while i < count
        invariant
            i <= count,
            out@.len() == i,
        decreases count - i,
    {
        out.push(PromptPreset::from_index(random_below(PRESET_COUNT)));
        i = i + 1;
    }
    out
}

/// The requests of a run, with fresh presets drawn in stochastic mode: as many
/// requests as tries each asking for one candidate, or one asking for all of them.
pub fn requests_for_run(cfg: &RunConfig, diff: &str) -> (r: Vec<PlannedRequest>)
    requires
        cfg.wf(),
    ensures
        exists|picks: Seq<PromptPreset>| #[trigger] is_plan(r@, *cfg, diff@, picks),
{
    let picks = if cfg.stochastic {
        sample_presets(cfg.num_tries)
    } else {
        Vec::new()
    };
    let r = plan_requests(cfg, diff, &picks);
    assert(is_plan(r@, *cfg, diff@, picks@));
    r
}

/// A stochastic run issues one request per try, each for one candidate; any other run
/// issues one request for as many candidates as there are tries.
pub proof fn lemma_request_counts(
    rs: Seq<PlannedRequest>,
    cfg: RunConfig,
    diff: Seq<char>,
    picks: Seq<PromptPreset>,
)
    requires
        is_plan(rs, cfg, diff, picks),
    ensures
        cfg.stochastic ==> rs.len() == cfg.num_tries && forall|i: int|
            0 <= i < rs.len() ==> (#[trigger] rs[i]).n == 1,
        !cfg.stochastic ==> rs.len() == 1 && rs[0].n == cfg.num_tries,
{
    if cfg.stochastic {
        assert forall|i: int| 0 <= i < rs.len() implies (#[trigger] rs[i]).n == 1 by {
            assert(is_request_for(rs[i], picks[i], 1, diff, cfg));
        }
    }
}

/// Where a run stands.
#[derive(Clone, Debug)]
pub enum RunState {
    /// Nothing done yet
    Start,
    /// The diff has been read
    DiffReady { diff: String },
    /// Candidates are ready for the operator, with the tokens their responses cost
    CandidatesReady { candidates: Vec<String>, tokens: u64 },
    /// The operator accepted; this message goes to the commit
    Committed { message: String },
    /// The operator declined; these tokens were spent for nothing
    Declined { wasted_tokens: u64 },
    /// The run failed
    Failed { error: CompletionError },
}

/// The outcome of one request: its candidates, or why it gave none.
pub open spec fn slot_result(o: Result<OpenAiCompletionResponse, CompletionError>) -> Result<
    Seq<Seq<char>>,
    CompletionError,
> {
    match o {
        Err(e) => Err(e),
        Ok(r) => if choice_texts(response_choices(r)).len() == 0 {
            Err(CompletionError::EmptyCompletion)
        } else {
            Ok(response_candidates(r))
        },
    }
}

/// The candidates of all requests that gave some, in request order.
pub open spec fn all_candidates(os: Seq<Result<OpenAiCompletionResponse, CompletionError>>) -> Seq<
    Seq<char>,
>
    decreases os.len(),
{
    if os.len() == 0 {
        Seq::<Seq<char>>::empty()
    } else {
        all_candidates(os.drop_last()) + match slot_result(os.last()) {
            Ok(c) => c,
            Err(_) => Seq::<Seq<char>>::empty(),
        }
    }
}

/// How many requests gave candidates.
pub open spec fn good_slots(os: Seq<Result<OpenAiCompletionResponse, CompletionError>>) -> nat
    decreases os.len(),
{
    if os.len() == 0 {
        0
    } else {
        good_slots(os.drop_last()) + if slot_result(os.last()) is Ok {
            1nat
        } else {
            0nat
        }
    }
}

/// The tokens billed over all responses received.
pub open spec fn tokens_spent(os: Seq<Result<OpenAiCompletionResponse, CompletionError>>) -> nat
    decreases os.len(),
{
    if os.len() == 0 {
        0
    } else {
        tokens_spent(os.drop_last()) + match os.last() {
            Ok(r) => response_tokens(r),
            Err(_) => 0,
        }
    }
}

/// The error of the first request that gave no candidates, if any did not.
pub open spec fn failure_so_far(os: Seq<Result<OpenAiCompletionResponse, CompletionError>>) -> Option<
    CompletionError,
>
    decreases os.len(),
{
    if os.len() == 0 {
        None
    } else {
        match failure_so_far(os.drop_last()) {
            Some(e) => Some(e),
            None => match slot_result(os.last()) {
                Err(e) => Some(e),
                Ok(_) => None,
            },
        }
    }
}

/// The error a run fails with when no request gave candidates: that of the first
/// request, or `EmptyCompletion` when there was no request.
pub open spec fn first_failure(os: Seq<Result<OpenAiCompletionResponse, CompletionError>>) -> CompletionError {
    match failure_so_far(os) {
        Some(e) => e,
        None => CompletionError::EmptyCompletion,
    }
}

/// A number capped at the largest `u64`.
pub open spec fn capped(n: nat) -> u64 {
    if n > u64::MAX {
        u64::MAX
    } else {
        n as u64
    }
}

fn append_strings(out: &mut Vec<String>, src: &Vec<String>)
    ensures
        string_views(final(out)@) == string_views(old(out)@) + string_views(src@),
{
    let mut j: usize = 0;
    while j < src.len()
        invariant
            j <= src.len(),
            string_views(out@) == string_views(old(out)@) + string_views(src@.take(j as int)),
        decreases src.len() - j,
    {
        let ghost before = out@;
        out.push(src[j].clone());
        j = j + 1;
        assert(string_views(out@) =~= string_views(before).push(src@[j - 1]@));
        assert(string_views(src@.take(j as int)) =~= string_views(src@.take(j - 1 as int)).push(
            src@[j - 1]@,
        ));
    }
    assert(src@.take(src.len() as int) =~= src@);
}

/// Gathers the responses of a run's requests, in request order: a request that failed,
/// or whose response held no text, is left out; if every request is left out, the run
/// fails with the first one's error. The tokens of every response received are counted.
pub fn gather_candidates(outcomes: &Vec<Result<OpenAiCompletionResponse, CompletionError>>) -> (r:
    RunState)
    ensures
        good_slots(outcomes@) == 0 ==> r == (RunState::Failed { error: first_failure(outcomes@) }),
        good_slots(outcomes@) > 0 ==> (r matches RunState::CandidatesReady { candidates, tokens }
            && string_views(candidates@) == all_candidates(outcomes@) && tokens == capped(
            tokens_spent(outcomes@),
        )),
{
    let mut cands: Vec<String> = Vec::new();
    let mut tokens: u64 = 0;
    let mut good: bool = false;
    let mut failure: Option<CompletionError> = None;
    let mut i: usize = 0;
    while i < outcomes.len()
        invariant
            i <= outcomes.len(),
            string_views(cands@) == all_candidates(outcomes@.take(i as int)),
            tokens == capped(tokens_spent(outcomes@.take(i as int))),
            good == (good_slots(outcomes@.take(i as int)) > 0),
            failure == failure_so_far(outcomes@.take(i as int)),
        decreases outcomes.len() - i,
    {
        let ghost pre = outcomes@.take(i as int);
        let ghost post = outcomes@.take(i + 1 as int);
        assert(post.drop_last() =~= pre);
        let ghost o = outcomes@[i as int];
        assert(post.last() == o);
        match &outcomes[i] {
            Err(e) => {
                if failure.is_none() {
                    failure = Some(e.duplicate());
                }
                assert(string_views(cands@) =~= all_candidates(post));
            },
            Ok(resp) => {
                let t = resp.total_tokens();
                tokens = tokens.saturating_add(t as u64);
                match collect(resp) {
                    Ok(cs) => {
                        append_strings(&mut cands, &cs);
                        good = true;
                    },
                    Err(e) => {
                        assert(e == CompletionError::EmptyCompletion);
                        if failure.is_none() {
                            failure = Some(e);
                        }
                        assert(string_views(cands@) =~= all_candidates(post));
                    },
                }
            },
        }
        i = i + 1;
    }
    assert(outcomes@.take(outcomes.len() as int) =~= outcomes@);
    if good {
        RunState::CandidatesReady { candidates: cands, tokens }
    } else {
        match failure {
            Some(e) => RunState::Failed { error: e },
            None => RunState::Failed { error: CompletionError::EmptyCompletion },
        }
    }
}

} // verus!

verus! {

/// How many requests failed outright.
pub open spec fn failed_requests(os: Seq<Result<OpenAiCompletionResponse, CompletionError>>) -> nat
    decreases os.len(),
{
    if os.len() == 0 {
        0
    } else {
        failed_requests(os.drop_last()) + if os.last() is Err {
            1nat
        } else {
            0nat
        }
    }
}

/// Whether every response received holds exactly one non-empty text.
pub open spec fn one_text_each(os: Seq<Result<OpenAiCompletionResponse, CompletionError>>) -> bool {
    forall|i: int|
        0 <= i < os.len() ==> (#[trigger] os[i] matches Ok(r) ==> choice_texts(
            response_choices(r),
        ).len() == 1)
}

/// Of `n` requests that each give one candidate when they succeed, `k` failing leaves
/// `n - k` candidates while `k < n`, and no candidate at all, so a failed run, when
/// `k == n`.
pub proof fn lemma_partial_batch(os: Seq<Result<OpenAiCompletionResponse, CompletionError>>)
    requires
        one_text_each(os),
    ensures
        failed_requests(os) <= os.len(),
        good_slots(os) == os.len() - failed_requests(os),
        all_candidates(os).len() == os.len() - failed_requests(os),
        failed_requests(os) < os.len() ==> good_slots(os) > 0,
        failed_requests(os) == os.len() ==> good_slots(os) == 0,
    decreases os.len(),
{
    if os.len() > 0 {
        let d = os.drop_last();
        assert forall|i: int| 0 <= i < d.len() implies (#[trigger] d[i] matches Ok(r)
            ==> choice_texts(response_choices(r)).len() == 1) by {
            assert(d[i] == os[i]);
        }
        lemma_partial_batch(d);
        let o = os.last();
        assert(o == os[os.len() - 1]);
    }
}

impl RunState {
    /// The first state of a run: the diff is ready, or reading it failed.
    pub fn start(diff: Result<String, CompletionError>) -> (r: RunState)
        ensures
            diff matches Ok(d) ==> r == (RunState::DiffReady { diff: d }),
            diff matches Err(e) ==> r == (RunState::Failed { error: e }),
    {
        match diff {
            Ok(d) => RunState::DiffReady { diff: d },
            Err(e) => RunState::Failed { error: e },
        }
    }

    /// The operator's answer to the first candidate: accepting commits it as it is,
    /// declining reports the tokens spent. Any other state stays as it is; with no
    /// candidate the run fails.
    pub fn decide(self, accept: bool) -> (r: RunState)
        ensures
            self matches RunState::CandidatesReady { candidates, tokens } ==> (if candidates@.len()
                == 0 {
                r == (RunState::Failed { error: CompletionError::EmptyCompletion })
            } else if accept {
                (r matches RunState::Committed { message } && message@ == candidates@[0]@)
            } else {
                r == (RunState::Declined { wasted_tokens: tokens })
            }),
            !(self is CandidatesReady) ==> r == self,
    {
        match self {
            RunState::CandidatesReady { candidates, tokens } => {
                if candidates.len() == 0 {
                    RunState::Failed { error: CompletionError::EmptyCompletion }
                } else if accept {
                    RunState::Committed { message: candidates[0].clone() }
                } else {
                    RunState::Declined { wasted_tokens: tokens }
                }
            },
            other => other,
        }
    }
}

} // verus!
