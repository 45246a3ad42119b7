//! What the completion service returns, and how candidates are taken from it.

use vstd::prelude::*;
use vstd::string::*;
use crate::text::{cleaned, remove_blank_lines};

verus! {

/// Token accounting of one response.
#[derive(Clone, Copy, Debug, PartialEq, Eq, Structural)]
pub struct OpenAiUsage {
    /// Tokens in the prompt
    pub prompt_tokens: Option<u16>,
    /// Tokens in the completions
    pub completion_tokens: Option<u16>,
    /// Tokens billed in all
    pub total_tokens: Option<u16>,
}

/// One candidate completion.
#[derive(Clone, Debug)]
pub struct OpenAiChoice {
    /// The generated text, if any
    pub text: Option<String>,
    /// The candidate's position among those requested
    pub index: Option<u8>,
    /// Why generation stopped
    pub finish_reason: Option<String>,
}

/// Why the service stopped generating a candidate.
#[derive(Clone, Copy, Debug, PartialEq, Eq, Structural)]
pub enum FinishReason {
    /// A natural end or a stop sequence
    Stop,
    /// The length cap
    Length,
    /// Anything else, or nothing reported
    Other,
}

/// The response to one completion request.
#[derive(Clone, Debug)]
pub struct OpenAiCompletionResponse {
    /// The response's identifier
    pub id: Option<String>,
    /// The kind of object returned
    pub object: Option<String>,
    /// When it was created, in seconds since the epoch
    pub created: Option<u64>,
    /// The model that answered
    pub model: Option<String>,
    /// The candidates, in the service's order
    pub choices: Option<Vec<OpenAiChoice>>,
    /// The tokens spent
    pub usage: Option<OpenAiUsage>,
}

/// Why a run of the pipeline failed.
#[derive(Clone, Debug)]
pub enum CompletionError {
    /// The service could not be reached, or the connection failed
    Transport(String),
    /// The service answered with a status outside 2xx
    HttpStatus { status: u16, body: String },
    /// The service's answer was not the expected JSON
    Decode(String),
    /// The service returned no usable candidate
    EmptyCompletion,
    /// The staged diff could not be read
    DiffUnavailable(String),
    /// No author identity could be found for the commit
    IdentityUnresolved(String),
}

impl CompletionError {
    /// A copy of this error.
    pub fn duplicate(&self) -> (r: CompletionError)
        ensures
            r == *self,
    {
        match self {
            CompletionError::Transport(m) => CompletionError::Transport(m.clone()),
            CompletionError::HttpStatus { status, body } => CompletionError::HttpStatus {
                status: *status,
                body: body.clone(),
            },
            CompletionError::Decode(m) => CompletionError::Decode(m.clone()),
            CompletionError::EmptyCompletion => CompletionError::EmptyCompletion,
            CompletionError::DiffUnavailable(m) => CompletionError::DiffUnavailable(m.clone()),
            CompletionError::IdentityUnresolved(m) => CompletionError::IdentityUnresolved(m.clone()),
        }
    }
}

/// Whether a choice carries a non-empty text.
pub open spec fn has_text(c: OpenAiChoice) -> bool {
    c.text matches Some(t) && t@.len() > 0
}

/// The non-empty texts among `cs`, in order.
pub open spec fn choice_texts(cs: Seq<OpenAiChoice>) -> Seq<Seq<char>>
    decreases cs.len(),
{
    if cs.len() == 0 {
        Seq::<Seq<char>>::empty()
    } else {
        let prev = choice_texts(cs.drop_last());
        if has_text(cs.last()) {
            prev.push(cs.last().text.unwrap()@)
        } else {
            prev
        }
    }
}

/// The choices of a response, none when it reports none.
pub open spec fn response_choices(r: OpenAiCompletionResponse) -> Seq<OpenAiChoice> {
    match r.choices {
        Some(v) => v@,
        None => Seq::<OpenAiChoice>::empty(),
    }
}

/// The cleaned candidates of a response, in the service's order.
pub open spec fn response_candidates(r: OpenAiCompletionResponse) -> Seq<Seq<char>> {
    choice_texts(response_choices(r)).map_values(|t: Seq<char>| cleaned(t))
}

/// The tokens a response reports as billed, 0 when it reports none.
pub open spec fn response_tokens(r: OpenAiCompletionResponse) -> nat {
    match r.usage {
        Some(u) => match u.total_tokens {
            Some(t) => t as nat,
            None => 0,
        },
        None => 0,
    }
}

/// The views of a sequence of strings.
pub open spec fn string_views(v: Seq<String>) -> Seq<Seq<char>> {
    v.map_values(|s: String| s@)
}

impl OpenAiChoice {
    /// The reason generation stopped: `"stop"`, `"length"`, or anything else.
    pub fn finish(&self) -> (r: FinishReason)
        ensures
            r == (match self.finish_reason {
                Some(f) => if f@ == "stop"@ {
                    FinishReason::Stop
                } else if f@ == "length"@ {
                    FinishReason::Length
                } else {
                    FinishReason::Other
                },
                None => FinishReason::Other,
            }),
    {
        match &self.finish_reason {
            Some(f) => {
                if *f == "stop".to_string() {
                    FinishReason::Stop
                } else if *f == "length".to_string() {
                    FinishReason::Length
                } else {
                    FinishReason::Other
                }
            },
            None => FinishReason::Other,
        }
    }
}

impl OpenAiCompletionResponse {
    /// The tokens this response reports as billed, 0 when it reports none.
    pub fn total_tokens(&self) -> (r: u16)
        ensures
            r as nat == response_tokens(*self),
    {
        match &self.usage {
            Some(u) => match u.total_tokens {
                Some(t) => t,
                None => 0,
            },
            None => 0,
        }
    }
}

/// Every non-empty text of the response, cleaned of blank lines, in the service's order;
/// a choice without text is skipped, and a response with no text at all is an
/// `EmptyCompletion` error.
pub fn collect(resp: &OpenAiCompletionResponse) -> (r: Result<Vec<String>, CompletionError>)
    ensures
        r is Ok <==> choice_texts(response_choices(*resp)).len() > 0,
        r matches Ok(v) ==> string_views(v@) == response_candidates(*resp),
        r matches Err(e) ==> e is EmptyCompletion,
{
    let mut out: Vec<String> = Vec::new();
    match &resp.choices {
        None => {
            return Err(CompletionError::EmptyCompletion);
        },
        Some(cs) => {
            let mut i: usize = 0;
            while i < cs.len()
                invariant
                    i <= cs.len(),
                    resp.choices == Some(*cs),
                    string_views(out@) == choice_texts(cs@.take(i as int)).map_values(
                        |t: Seq<char>| cleaned(t),
                    ),
                decreases cs.len() - i,
            {
                let ghost prev = choice_texts(cs@.take(i as int));
                assert(cs@.take(i + 1 as int).drop_last() =~= cs@.take(i as int));
                match &cs[i].text {
                    Some(t) => {
                        if t.as_str().unicode_len() > 0 {
                            let c = remove_blank_lines(t);
                            let ghost before = out@;
                            out.push(c);
                            assert(string_views(out@) =~= string_views(before).push(c@));
                            assert(prev.push(t@).map_values(|t: Seq<char>| cleaned(t))
                                =~= prev.map_values(|t: Seq<char>| cleaned(t)).push(cleaned(t@)));
                        }
                    },
                    None => {},
                }
                i = i + 1;
            }
            assert(cs@.take(cs.len() as int) =~= cs@);
        },
    }
    if out.len() == 0 {
        Err(CompletionError::EmptyCompletion)
    } else {
        Ok(out)
    }
}

} // verus!
