use vstd::prelude::*;
use crate::model::{History, HistoryView};
use crate::prompt::{prompt_for, render};
use crate::reply::{Reply, ReplyView, SummaryError, summary_view, error_reply, error_view, respond};

verus! {

/// The bound on the number of tokens that the model may generate for a summary.
pub const MAX_SUMMARY_TOKENS: u32 = 50;

/// The text-generation models that a summary can be asked of.
#[derive(PartialEq, Eq, Structural, Clone, Copy, Debug)]
pub enum InferenceModel {
    /// The chat-tuned Llama 2 model.
    Llama2Chat,
}

/// The model that summaries are asked of.
pub const SUMMARY_MODEL: InferenceModel = InferenceModel::Llama2Chat;

/// The conversation id that a route parameter names: none when it is absent or
/// empty.
pub open spec fn requested_id(param: Option<Seq<char>>) -> Option<Seq<char>> {
    match param {
        Some(id) => if id.len() > 0 { Some(id) } else { None },
        None => None,
    }
}

/// The prompt that a looked-up history leads to: none when the lookup failed.
pub open spec fn prompt_to_send(stored: Option<HistoryView>) -> Option<Seq<char>> {
    match stored {
        Some(h) => Some(prompt_for(h.turns)),
        None => None,
    }
}

/// Whether a request with route parameter `param`, whose lookup gave `stored`,
/// goes on to call the model.
pub open spec fn consults_model(param: Option<Seq<char>>, stored: Option<HistoryView>) -> bool {
    requested_id(param) is Some && prompt_to_send(stored) is Some
}

/// Whether `reply` is what the model's outcome `output` leads to for conversation `id`.
pub open spec fn answers(id: Seq<char>, output: Option<Seq<char>>, reply: ReplyView) -> bool {
    match output {
        Some(text) => reply == summary_view(id, text),
        None => reply == error_view(SummaryError::InferenceFailure),
    }
}

/// Whether `reply` is a reply to a request with route parameter `param`, when the
/// store answers `stored` and the model answers `output`.
pub open spec fn handles(
    param: Option<Seq<char>>,
    stored: Option<HistoryView>,
    output: Option<Seq<char>>,
    reply: ReplyView,
) -> bool {
    match requested_id(param) {
        None => reply == error_view(SummaryError::MissingParameter),
        Some(id) => match prompt_to_send(stored) {
            None => reply == error_view(SummaryError::HistoryUnavailable),
            Some(_) => answers(id, output, reply),
        },
    }
}

/// The view of an optional string.
pub open spec fn opt_view(s: Option<String>) -> Option<Seq<char>> {
    match s {
        Some(t) => Some(t@),
        None => None,
    }
}

/// The view of an optional history.
pub open spec fn opt_history_view(h: Option<History>) -> Option<HistoryView> {
    match h {
        Some(x) => Some(x@),
        None => None,
    }
}

/// A request that waits for the history of conversation `id` to be looked up.
pub struct AwaitingHistory {
    pub id: String,
}

/// A request that waits for the model's answer to `prompt`.
pub struct AwaitingSummary {
    pub id: String,
    pub prompt: String,
}

/// Begins a request whose route gave `param` as the conversation id: either the
/// lookup to make, or at once the reply.
pub fn start(param: Option<String>) -> (r: Result<AwaitingHistory, Reply>)
    ensures
        r is Ok <==> requested_id(opt_view(param)) is Some,
        r matches Ok(s) ==> requested_id(opt_view(param)) == Some(s.id@),
        r matches Err(reply) ==> reply@ == error_view(SummaryError::MissingParameter),
{
    match param {
        Some(id) => {
            if !id.as_str().is_empty() {
                Ok(AwaitingHistory { id })
            } else {
                Err(error_reply(SummaryError::MissingParameter))
            }
        },
        None => Err(error_reply(SummaryError::MissingParameter)),
    }
}

impl AwaitingHistory {
    /// The key under which the history is stored.
    pub fn lookup_key(&self) -> (k: &str)
        ensures
            k@ == self.id@,
    {
        self.id.as_str()
    }

    /// Takes the lookup's outcome (none when the history is missing or unreadable):
    /// either the prompt to send to the model, or at once the reply.
    pub fn on_history(self, stored: Option<History>) -> (r: Result<AwaitingSummary, Reply>)
        ensures
            r is Ok <==> stored is Some,
            r matches Ok(s) ==> s.id@ == self.id@ && prompt_to_send(opt_history_view(stored))
                == Some(s.prompt@),
            r matches Err(reply) ==> reply@ == error_view(SummaryError::HistoryUnavailable),
    {
        match stored {
            Some(history) => {
                let prompt = render(&history);
                Ok(AwaitingSummary { id: self.id, prompt })
            },
            None => Err(error_reply(SummaryError::HistoryUnavailable)),
        }
    }
}

impl AwaitingSummary {
    /// The prompt to send to the model.
    pub fn prompt(&self) -> (p: &str)
        ensures
            p@ == self.prompt@,
    {
        self.prompt.as_str()
    }

    /// The model to ask.
    pub fn model(&self) -> (m: InferenceModel)
        ensures
            m == SUMMARY_MODEL,
    {
        SUMMARY_MODEL
    }

    /// The bound on the tokens that the model may generate.
    pub fn max_tokens(&self) -> (n: u32)
        ensures
            n == MAX_SUMMARY_TOKENS,
    {
        MAX_SUMMARY_TOKENS
    }

    /// Takes the model's outcome (none when inference failed) and gives the reply.
    pub fn on_summary(self, output: Option<String>) -> (r: Reply)
        ensures
            answers(self.id@, opt_view(output), r@),
    {
        match output {
            Some(text) => respond(self.id.as_str(), text.as_str()),
            None => error_reply(SummaryError::InferenceFailure),
        }
    }
}

} // verus!
