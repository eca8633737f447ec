use vstd::prelude::*;

use crate::chat::{calls_view, ToolCallRequest, ToolCallView};
use crate::error::Error;

verus! {

/// One candidate answer of a model response: optional terminal content and
/// the tool calls the model asks to have resolved.
pub struct ChatChoice {
    pub content: Option<String>,
    pub tool_calls: Vec<ToolCallRequest>,
}

/// The mathematical value of a `ChatChoice`.
pub ghost struct ChoiceView {
    pub content: Option<Seq<char>>,
    pub tool_calls: Seq<ToolCallView>,
}

impl View for ChatChoice {
    type V = ChoiceView;

    open spec fn view(&self) -> ChoiceView {
        ChoiceView {
            content: match self.content {
                Option::Some(c) => Option::Some(c@),
                Option::None => Option::None,
            },
            tool_calls: calls_view(self.tool_calls@),
        }
    }
}

/// A response document of the remote endpoint, reduced to the fields this
/// core consumes: the ordered candidate choices.
pub struct ChatResponse {
    pub choices: Vec<ChatChoice>,
}

impl View for ChatResponse {
    type V = Seq<ChoiceView>;

    open spec fn view(&self) -> Seq<ChoiceView> {
        self.choices@.map_values(|c: ChatChoice| c@)
    }
}

/// What a model response asks of the orchestration loop.
pub enum Outcome {
    /// The first choice carries terminal content and no pending tool calls.
    FinalContent { content: String },
    /// The first choice carries one or more tool calls, to be resolved
    /// before any answer is final; content beside them is ignored.
    ToolCallsRequested { calls: Vec<ToolCallRequest> },
}

/// The mathematical value of an `Outcome`.
pub ghost enum OutcomeView {
    FinalContent { content: Seq<char> },
    ToolCallsRequested { calls: Seq<ToolCallView> },
}

impl View for Outcome {
    type V = OutcomeView;

    open spec fn view(&self) -> OutcomeView {
        match self {
            Outcome::FinalContent { content } => OutcomeView::FinalContent { content: content@ },
            Outcome::ToolCallsRequested { calls } => OutcomeView::ToolCallsRequested {
                calls: calls_view(calls@),
            },
        }
    }
}

/// How a response document is read. Only the first choice is considered;
/// all others are ignored. Tool calls take priority over content, and a
/// choice with neither is treated like a response without choices.
pub open spec fn interpret_spec(choices: Seq<ChoiceView>) -> Option<OutcomeView> {
    if choices.len() == 0 {
        Option::None
    } else if choices[0].tool_calls.len() > 0 {
        Option::Some(OutcomeView::ToolCallsRequested { calls: choices[0].tool_calls })
    } else if choices[0].content is Some {
        Option::Some(OutcomeView::FinalContent { content: choices[0].content->0 })
    } else {
        Option::None
    }
}

/// Take the first choice of a response, or fail when it has none.
pub fn first_choicel(chat_response: ChatResponse) -> (r: Result<ChatChoice, Error>)
    ensures
        chat_response@.len() > 0 ==> (r matches Ok(c) && c@ == chat_response@[0]),
        chat_response@.len() == 0 ==> (r matches Err(e) && e is EmptyResponse),
{
    let mut choices = chat_response.choices;
    if choices.len() == 0 {
        Err(Error::EmptyResponse)
    } else {
        Ok(choices.remove(0))
    }
}

/// Classify a response as terminal content or requested tool calls,
/// exactly as `interpret_spec` reads its value.
pub fn interpret(response: ChatResponse) -> (r: Result<Outcome, Error>)
    ensures
        interpret_spec(response@) matches Some(o) ==> (r matches Ok(out) && out@ == o),
        interpret_spec(response@) is None ==> (r matches Err(e) && e is EmptyResponse),
{
    let ghost choices = response@;
    let first = match first_choicel(response) {
        Ok(c) => c,
        Err(e) => {
            return Err(e);
        },
    };
    if first.tool_calls.len() > 0 {
        Ok(Outcome::ToolCallsRequested { calls: first.tool_calls })
    } else {
        match first.content {
            Option::Some(content) => Ok(Outcome::FinalContent { content }),
            Option::None => Err(Error::EmptyResponse),
        }
    }
}

/// Interpretation is a pure function of the response document: two response
/// documents with equal values are read as the same outcome, however often
/// each is interpreted.
pub proof fn lemma_interpret_pure(a: Seq<ChoiceView>, b: Seq<ChoiceView>)
    requires
        a == b,
    ensures
        interpret_spec(a) == interpret_spec(b),
{
}

} // verus!
