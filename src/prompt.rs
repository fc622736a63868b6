use vstd::prelude::*;
use vstd::string::StringExecFns;
use crate::model::{History, Turn, TurnView, turn_views};

verus! {

/// The token in the template that the conversation's transcript replaces.
pub const HISTORY_PLACEHOLDER: &'static str = "{HISTORY}";

/// The fixed few-shot instruction block sent to the model, with the transcript's
/// place marked by the placeholder.
pub const PROMPT_TEMPLATE: &'static str = "
<<SYS>>
You are a bot that generates short summaries for conversations given a conversation history between a user and an AI assistant. The summaries should be as concise as possible
<</SYS>>
Follow the pattern of the following examples:
[INST]
PROMPTS
User: When was da Vinci born?
Assistant: Leonardo da Vinci was born on April 15, 1452.
User: how old was he when he painted the Mona Lisa?
SUMMARY: The life and career of Leonardo da Vinci
[/INST]
[INST]
PROMPTS
User: What is the climate in California?
Assistant: The climate in California is generally mild, with cool, wet winters and dry summers. The state's diverse geography and coastal location result in a wide range of climates.
SUMMARY: The climate of California
[/INST]
PROMPTS
{HISTORY}
SUMMARY: 
";

/// One turn as it stands in a transcript: `role:content`.
pub open spec fn turn_line(t: TurnView) -> Seq<char> {
    t.role + seq![':'] + t.content
}

/// The turns' lines, in order, with nothing between them.
pub open spec fn transcript(ts: Seq<TurnView>) -> Seq<char>
    decreases ts.len(),
{
    if ts.len() == 0 {
        Seq::empty()
    } else {
        transcript(ts.drop_last()) + turn_line(ts.last())
    }
}

/// `s` with every match of `pat` replaced by `rep`, matches taken from the left
/// and never overlapping.
pub open spec fn replace_all(s: Seq<char>, pat: Seq<char>, rep: Seq<char>) -> Seq<char>
    decreases s.len(),
{
    if pat.len() == 0 || s.len() < pat.len() {
        s
    } else if s.subrange(0, pat.len() as int) == pat {
        rep + replace_all(s.skip(pat.len() as int), pat, rep)
    } else {
        seq![s[0]] + replace_all(s.skip(1), pat, rep)
    }
}

/// The prompt for a conversation made of the turns `ts`.
pub open spec fn prompt_for(ts: Seq<TurnView>) -> Seq<char> {
    replace_all(PROMPT_TEMPLATE@, HISTORY_PLACEHOLDER@, transcript(ts))
}

/// Relies on str::replace: every match of `from` in `s`, found from the left
/// without overlap, is replaced by `to`.
#[verifier::external_body]
fn replace(s: &str, from: &str, to: &str) -> (r: String)
    requires
        from@.len() > 0,
    ensures
        r@ == replace_all(s@, from@, to@),
{
    s.replace(from, to)
}

/// The turns written one after another as `role:content`, with no separator.
pub fn render_transcript(turns: &Vec<Turn>) -> (r: String)
    ensures
        r@ == transcript(turn_views(turns@)),
{
    let mut text = String::new();
    let mut i: usize = 0;
    while i < turns.len()
        invariant
            i <= turns.len(),
            text@ == transcript(turn_views(turns@.subrange(0, i as int))),
        decreases turns.len() - i,
    {
        let turn = &turns[i];
        text.append(turn.role.as_str());
        text.append(":");
        text.append(turn.content.as_str());
        proof {
            reveal_strlit(":");
            let before = turn_views(turns@.subrange(0, i as int));
            let after = turn_views(turns@.subrange(0, i + 1));
            assert(after.drop_last() =~= before);
            assert(after.last() == turns@[i as int]@);
        }
        i += 1;
    }
    assert(turns@.subrange(0, turns.len() as int) =~= turns@);
    text
}

/// The prompt for `history`: the template with the transcript of its turns in
/// place of the placeholder.
pub fn render(history: &History) -> (r: String)
    ensures
        r@ == prompt_for(turn_views(history.turns@)),
{
    let text = render_transcript(&history.turns);
    proof {
        reveal_strlit("{HISTORY}");
    }
    replace(PROMPT_TEMPLATE, HISTORY_PLACEHOLDER, text.as_str())
}

} // verus!
