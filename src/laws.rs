use vstd::prelude::*;
use crate::model::{HistoryView, TurnView};
use crate::prompt::{HISTORY_PLACEHOLDER, PROMPT_TEMPLATE, prompt_for, replace_all, transcript};
use crate::reply::{OK_STATUS, error_text, ReplyView, SummaryError, error_view, summary_view};
use crate::flow::{consults_model, handles, requested_id};

verus! {

/// A request for a stored conversation whose summary the model produced is
/// answered with status 200 and a body that carries the requested id, whatever id
/// the stored record holds.
pub proof fn stored_conversation_reply_echoes_id(
    id: Seq<char>,
    stored: HistoryView,
    text: Seq<char>,
    reply: ReplyView,
)
    requires
        id.len() > 0,
        handles(Some(id), Some(stored), Some(text), reply),
    ensures
        reply == summary_view(id, text),
        reply.status == OK_STATUS,
        consults_model(Some(id), Some(stored)),
{
}

/// A reply has status 200 exactly when the id was given, the history was found
/// and the model produced text; every failure is answered with another status.
pub proof fn reply_succeeds_exactly_when_every_step_does(
    param: Option<Seq<char>>,
    stored: Option<HistoryView>,
    output: Option<Seq<char>>,
    reply: ReplyView,
)
    requires
        handles(param, stored, output, reply),
    ensures
        reply.status == OK_STATUS <==> (requested_id(param) is Some && stored is Some
            && output is Some),
{
}

/// Turns with equal roles and contents, in the same order, give the same prompt:
/// the ids of turns play no part in it.
pub proof fn prompt_depends_on_roles_and_contents(a: Seq<TurnView>, b: Seq<TurnView>)
    requires
        a.len() == b.len(),
        forall|i: int| 0 <= i < a.len() ==> a[i].role == b[i].role && a[i].content == b[i].content,
    ensures
        transcript(a) == transcript(b),
        prompt_for(a) == prompt_for(b),
    decreases a.len(),
{
    if a.len() > 0 {
        prompt_depends_on_roles_and_contents(a.drop_last(), b.drop_last());
    }
}

/// With no turns, the prompt is the template with the placeholder replaced by
/// nothing.
pub proof fn prompt_of_no_turns()
    ensures
        transcript(Seq::<TurnView>::empty()) == Seq::<char>::empty(),
        prompt_for(Seq::<TurnView>::empty()) == replace_all(
            PROMPT_TEMPLATE@,
            HISTORY_PLACEHOLDER@,
            Seq::<char>::empty(),
        ),
{
}

/// The transcript of two runs of turns, one after the other, is the first's
/// transcript followed by the second's: turns keep their order.
pub proof fn transcript_keeps_order(a: Seq<TurnView>, b: Seq<TurnView>)
    ensures
        transcript(a + b) == transcript(a) + transcript(b),
    decreases b.len(),
{
    if b.len() == 0 {
        assert(a + b =~= a);
    } else {
        transcript_keeps_order(a, b.drop_last());
        assert((a + b).drop_last() =~= a + b.drop_last());
        assert((a + b).last() == b.last());
    }
}

/// When the history cannot be looked up, the model is never called and the
/// reply is a failure.
pub proof fn missing_history_skips_model(
    param: Option<Seq<char>>,
    output: Option<Seq<char>>,
    reply: ReplyView,
)
    requires
        handles(param, None, output, reply),
    ensures
        !consults_model(param, None),
        reply.status != OK_STATUS,
{
}

/// Whether `t` occurs in `s` as a run of consecutive characters.
pub open spec fn occurs_in(t: Seq<char>, s: Seq<char>) -> bool {
    exists|i: int| 0 <= i <= s.len() - t.len() && #[trigger] s.subrange(i, i + t.len()) == t
}

/// No failure body holds a double quote, so none holds a quoted field name.
proof fn error_text_has_no_quote(e: SummaryError)
    ensures
        forall|j: int| 0 <= j < error_text(e).len() ==> error_text(e)[j] != '"',
{
    reveal_strlit("cannot get conversation ID from param");
    reveal_strlit("cannot load conversation history");
    reveal_strlit("cannot generate a summary");
    reveal_strlit("cannot serialize the summary");
}

/// When the model gives no text, the reply is a failure whose body holds no
/// `"summary"` field.
pub proof fn failed_inference_gives_no_summary(
    param: Option<Seq<char>>,
    stored: Option<HistoryView>,
    reply: ReplyView,
)
    requires
        handles(param, stored, None, reply),
    ensures
        reply.status != OK_STATUS,
        !occurs_in("\"summary\""@, reply.body),
{
    reveal_strlit("\"summary\"");
    let field = "\"summary\""@;
    let e = choose|e: SummaryError| reply == error_view(e);
    error_text_has_no_quote(e);
    if occurs_in(field, reply.body) {
        let i = choose|i: int|
            0 <= i <= reply.body.len() - field.len() && #[trigger] reply.body.subrange(i, i + field.len()) == field;
        assert(reply.body.subrange(i, i + field.len())[0] == reply.body[i]);
    }
}

} // verus!
