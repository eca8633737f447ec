use vstd::prelude::*;

use crate::error::Error;
use crate::json::json_ok;

verus! {

broadcast use vstd::string::next_postcondition, vstd::string::axiom_spec_iter;

/// One request, emitted by the remote model, to invoke a named tool.
pub struct ToolCallRequest {
    /// Identifier assigned by the remote model; a tool-result entry answers it.
    pub id: String,
    /// The name the tool was registered under.
    pub name: String,
    /// The call's arguments, as serialized document text.
    pub arguments: String,
}

/// The mathematical value of a `ToolCallRequest`.
pub ghost struct ToolCallView {
    pub id: Seq<char>,
    pub name: Seq<char>,
    pub arguments: Seq<char>,
}

impl View for ToolCallRequest {
    type V = ToolCallView;

    open spec fn view(&self) -> ToolCallView {
        ToolCallView { id: self.id@, name: self.name@, arguments: self.arguments@ }
    }
}

/// The values of a sequence of tool call requests, in order.
pub open spec fn calls_view(calls: Seq<ToolCallRequest>) -> Seq<ToolCallView> {
    calls.map_values(|c: ToolCallRequest| c@)
}

impl Clone for ToolCallRequest {
    /// A clone carries the same id, name and argument text.
    fn clone(&self) -> (r: Self)
        ensures
            r@ == self@,
    {
        ToolCallRequest {
            id: self.id.clone(),
            name: self.name.clone(),
            arguments: self.arguments.clone(),
        }
    }
}

/// Copy a batch of tool call requests, value for value and in order.
#[verifier::loop_isolation(false)]
fn clone_calls(calls: &Vec<ToolCallRequest>) -> (r: Vec<ToolCallRequest>)
    ensures
        calls_view(r@) == calls_view(calls@),
{
    let mut out: Vec<ToolCallRequest> = Vec::new();
    let mut i: usize = 0;
    proof {
        assert(calls_view(out@) =~= calls_view(calls@).take(0));
    }
    while i < calls.len()
        invariant
            i <= calls@.len(),
            calls_view(out@) == calls_view(calls@).take(i as int),
        decreases calls@.len() - i,
    {
        out.push(calls[i].clone());
        proof {
            assert(calls_view(out@) =~= calls_view(calls@).take(i as int + 1));
        }
        i = i + 1;
    }
    proof {
        assert(calls_view(calls@).take(i as int) =~= calls_view(calls@));
    }
    out
}

/// One entry of a conversation, tagged with its role.
pub enum ConversationEntry {
    /// A user turn with plain text content.
    User { content: String },
    /// An assistant turn with plain text content.
    Assistant { content: String },
    /// An assistant turn that requests one or more tool invocations.
    AssistantToolCalls { tool_calls: Vec<ToolCallRequest> },
    /// A tool-result turn answering one tool call of a preceding assistant turn.
    Tool { tool_call_id: String, content: String },
}

/// The mathematical value of a `ConversationEntry`.
pub ghost enum EntryView {
    User { content: Seq<char> },
    Assistant { content: Seq<char> },
    AssistantToolCalls { tool_calls: Seq<ToolCallView> },
    Tool { tool_call_id: Seq<char>, content: Seq<char> },
}

impl View for ConversationEntry {
    type V = EntryView;

    open spec fn view(&self) -> EntryView {
        match self {
            ConversationEntry::User { content } => EntryView::User { content: content@ },
            ConversationEntry::Assistant { content } => EntryView::Assistant {
                content: content@,
            },
            ConversationEntry::AssistantToolCalls { tool_calls } => {
                EntryView::AssistantToolCalls { tool_calls: calls_view(tool_calls@) }
            },
            ConversationEntry::Tool { tool_call_id, content } => EntryView::Tool {
                tool_call_id: tool_call_id@,
                content: content@,
            },
        }
    }
}

/// The values of a transcript, in order.
pub open spec fn entries_view(entries: Seq<ConversationEntry>) -> Seq<EntryView> {
    entries.map_values(|e: ConversationEntry| e@)
}

impl Clone for ConversationEntry {
    /// A clone carries the same value: role, texts and tool calls.
    fn clone(&self) -> (r: Self)
        ensures
            r@ == self@,
    {
        match self {
            ConversationEntry::User { content } => ConversationEntry::User {
                content: content.clone(),
            },
            ConversationEntry::Assistant { content } => ConversationEntry::Assistant {
                content: content.clone(),
            },
            ConversationEntry::AssistantToolCalls { tool_calls } => {
                ConversationEntry::AssistantToolCalls { tool_calls: clone_calls(tool_calls) }
            },
            ConversationEntry::Tool { tool_call_id, content } => ConversationEntry::Tool {
                tool_call_id: tool_call_id.clone(),
                content: content.clone(),
            },
        }
    }
}

/// Build a user entry carrying `content`.
///
/// The transport forbids empty user turns, so empty content is rejected.
pub fn user_msg(content: String) -> (r: Result<ConversationEntry, Error>)
    ensures
        content@.len() > 0 ==> (r matches Ok(e) && e@ == (EntryView::User {
            content: content@,
        })),
        content@.len() == 0 ==> (r matches Err(e) && e is Validation),
{
    if content.as_str().is_empty() {
        Err(Error::Validation { detail: content })
    } else {
        Ok(ConversationEntry::User { content })
    }
}

/// Build an assistant entry carrying a non-empty batch of tool calls, in order.
pub fn tool_calls_msg(tool_calls: Vec<ToolCallRequest>) -> (r: Result<ConversationEntry, Error>)
    ensures
        tool_calls@.len() > 0 ==> (r matches Ok(e) && e@ == (EntryView::AssistantToolCalls {
            tool_calls: calls_view(tool_calls@),
        })),
        tool_calls@.len() == 0 ==> (r matches Err(e) && e is Validation),
{
    if tool_calls.len() == 0 {
        Err(Error::Validation { detail: String::new() })
    } else {
        Ok(ConversationEntry::AssistantToolCalls { tool_calls })
    }
}

/// Build a tool-result entry answering the call `tool_call_id`.
///
/// `content` is the result document already serialized to text, so no
/// encoding step remains that could fail.
pub fn tool_response_msg(tool_call_id: String, content: String) -> (r: Result<
    ConversationEntry,
    Error,
>)
    ensures
        r matches Ok(e) && e@ == (EntryView::Tool {
            tool_call_id: tool_call_id@,
            content: content@,
        }),
{
    Ok(ConversationEntry::Tool { tool_call_id, content })
}

/// A named, schema-described tool the remote model may request be invoked.
pub struct ToolDescriptor {
    /// Unique within one catalog.
    pub name: String,
    pub description: String,
    /// The parameter schema, as serialized document text.
    pub parameters: String,
}

/// The mathematical value of a `ToolDescriptor`.
pub ghost struct DescriptorView {
    pub name: Seq<char>,
    pub description: Seq<char>,
    pub parameters: Seq<char>,
}

impl View for ToolDescriptor {
    type V = DescriptorView;

    open spec fn view(&self) -> DescriptorView {
        DescriptorView {
            name: self.name@,
            description: self.description@,
            parameters: self.parameters@,
        }
    }
}

impl Clone for ToolDescriptor {
    /// A clone carries the same name, description and schema text.
    fn clone(&self) -> (r: Self)
        ensures
            r@ == self@,
    {
        ToolDescriptor {
            name: self.name.clone(),
            description: self.description.clone(),
            parameters: self.parameters.clone(),
        }
    }
}

/// An object-shaped schema text: a well-formed document whose text leads
/// with the object's opening brace. A document with leading whitespace is
/// not accepted here, so that the shape can be read off the first character.
pub open spec fn object_shaped(text: Seq<char>) -> bool {
    &&& json_ok(text)
    &&& text.len() > 0
    &&& text[0] == '{'
}

/// The first character of `s`, if it has one.
fn first_char(s: &str) -> (r: Option<char>)
    ensures
        s@.len() > 0 ==> r == Some(s@[0]),
        s@.len() == 0 ==> r is None,
{
    let mut it = s.chars();
    it.next()
}

/// Build a tool descriptor from a name, a description and the parameter
/// schema as serialized document text.
///
/// Fails with a validation error when the name is empty or the schema text
/// is not object-shaped.
pub fn tool_fn(name: String, description: String, parameters: String) -> (r: Result<
    ToolDescriptor,
    Error,
>)
    ensures
        name@.len() > 0 && object_shaped(parameters@) ==> (r matches Ok(d) && d@
            == (DescriptorView {
            name: name@,
            description: description@,
            parameters: parameters@,
        })),
        !(name@.len() > 0 && object_shaped(parameters@)) ==> (r matches Err(e)
            && e is Validation),
{
    if name.as_str().is_empty() {
        return Err(Error::Validation { detail: name });
    }
    let leads_with_brace = match first_char(parameters.as_str()) {
        Some(c) => c == '{',
        None => false,
    };
    if !leads_with_brace || !crate::json::parses_as_document(parameters.as_str()) {
        return Err(Error::Validation { detail: parameters });
    }
    Ok(ToolDescriptor { name, description, parameters })
}

} // verus!
