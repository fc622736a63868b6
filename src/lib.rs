//! Summaries of stored chat conversations.
//!
//! The library holds the request's logic: the conversation model, the prompt that
//! is sent to a text-generation model, the JSON reply, and the decisions taken
//! between the two outside calls (the history lookup and the inference call).
//! Whoever hosts it performs those calls and hands their outcomes back.
mod flow;
mod laws;
mod model;
mod prompt;
mod reply;

pub use model::{History, HistoryView, Summary, Turn, TurnView, turn_views};
pub use prompt::{HISTORY_PLACEHOLDER, PROMPT_TEMPLATE, prompt_for, render, render_transcript, replace_all, transcript, turn_line};
pub use reply::{ERROR_STATUS, OK_STATUS, Reply, ReplyView, SummaryError, error_reply, error_text, error_view, frame_summary, hex_digit, json_escape, json_escaped, json_string_of, respond, summary_frame, summary_json, summary_view};
pub use flow::{AwaitingHistory, AwaitingSummary, InferenceModel, SUMMARY_MODEL, MAX_SUMMARY_TOKENS, answers, consults_model, handles, opt_history_view, opt_view, prompt_to_send, requested_id, start};
pub use laws::{failed_inference_gives_no_summary, reply_succeeds_exactly_when_every_step_does, missing_history_skips_model, occurs_in, prompt_depends_on_roles_and_contents, prompt_of_no_turns, stored_conversation_reply_echoes_id, transcript_keeps_order};
