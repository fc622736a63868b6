use vstd::prelude::*;

verus! {

/// One message of a conversation.
pub struct Turn {
    /// The turn's own identifier; rendering does not use it.
    pub id: String,
    pub role: String,
    pub content: String,
}

/// What a turn is, as text.
pub struct TurnView {
    pub id: Seq<char>,
    pub role: Seq<char>,
    pub content: Seq<char>,
}

impl View for Turn {
    type V = TurnView;

    open spec fn view(&self) -> TurnView {
        TurnView { id: self.id@, role: self.role@, content: self.content@ }
    }
}

/// The views of a sequence of turns, in their order.
pub open spec fn turn_views(turns: Seq<Turn>) -> Seq<TurnView> {
    turns.map_values(|t: Turn| t@)
}

/// A stored conversation transcript: its turns in conversation order.
pub struct History {
    /// The id that the stored record carries; replies never take it from here.
    pub id: String,
    pub turns: Vec<Turn>,
}

/// What a history is: its stored id and the views of its turns.
pub struct HistoryView {
    pub id: Seq<char>,
    pub turns: Seq<TurnView>,
}

impl View for History {
    type V = HistoryView;

    open spec fn view(&self) -> HistoryView {
        HistoryView { id: self.id@, turns: turn_views(self.turns@) }
    }
}

/// The reply's payload: the requested conversation id and the generated text.
pub struct Summary {
    pub id: String,
    pub summary: String,
}

} // verus!
