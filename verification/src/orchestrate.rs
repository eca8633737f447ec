use vstd::prelude::*;

use crate::chat::{
    calls_view, entries_view, ConversationEntry, DescriptorView, EntryView, ToolCallView,
    ToolDescriptor,
};
use crate::error::Error;
use crate::registry::{dispatch_spec, DispatchView, ToolHandler, ToolRegistry};
use crate::response::{interpret, interpret_spec, ChatResponse, Outcome, OutcomeView};

verus! {

/// The tool-choice policy of a request: let the model pick tools itself,
/// forbid tool use, or force it.
#[derive(Clone, Copy, Debug)]
pub enum ToolChoice {
    Auto,
    Disabled,
    Required,
}

/// The request document sent to the remote endpoint each round.
pub struct ChatRequest {
    pub model: String,
    pub messages: Vec<ConversationEntry>,
    pub tools: Vec<ToolDescriptor>,
    pub tool_choice: ToolChoice,
}

/// The values of a tool catalog, in order.
pub open spec fn descs_view(descs: Seq<ToolDescriptor>) -> Seq<DescriptorView> {
    descs.map_values(|d: ToolDescriptor| d@)
}

/// What the transport adapter hands back for one round.
pub enum Event {
    /// The remote endpoint answered with a response document.
    Response { response: ChatResponse },
    /// The transport itself failed; the run is surfaced as failed, with no
    /// automatic retry.
    TransportFailed { detail: String },
    /// The external cancellation signal fired between rounds.
    Cancel,
}

/// What one orchestration step decided.
pub enum StepOutcome {
    /// Every requested tool call was resolved and appended: send the
    /// updated transcript again.
    Resubmit,
    /// The run is over with this final answer, which is also appended to
    /// the transcript as the closing assistant entry.
    Finished { answer: String },
}

/// The state of one orchestration run: the model name and tool catalog it
/// was started with, and the append-only transcript.
pub struct Run {
    pub model: String,
    pub tools: Vec<ToolDescriptor>,
    pub transcript: Vec<ConversationEntry>,
}

/// Copy a transcript, value for value and in order.
#[verifier::loop_isolation(false)]
fn clone_entries(entries: &Vec<ConversationEntry>) -> (r: Vec<ConversationEntry>)
    ensures
        entries_view(r@) == entries_view(entries@),
{
    let mut out: Vec<ConversationEntry> = Vec::new();
    let mut i: usize = 0;
    proof {
        assert(entries_view(out@) =~= entries_view(entries@).take(0));
    }
    while i < entries.len()
        invariant
            i <= entries@.len(),
            entries_view(out@) == entries_view(entries@).take(i as int),
        decreases entries@.len() - i,
    {
        out.push(entries[i].clone());
        proof {
            assert(entries_view(out@) =~= entries_view(entries@).take(i as int + 1));
        }
        i = i + 1;
    }
    proof {
        assert(entries_view(entries@).take(i as int) =~= entries_view(entries@));
    }
    out
}

/// Copy a tool catalog, value for value and in order.
#[verifier::loop_isolation(false)]
fn clone_descriptors(descs: &Vec<ToolDescriptor>) -> (r: Vec<ToolDescriptor>)
    ensures
        descs_view(r@) == descs_view(descs@),
{
    let mut out: Vec<ToolDescriptor> = Vec::new();
    let mut i: usize = 0;
    proof {
        assert(descs_view(out@) =~= descs_view(descs@).take(0));
    }
    while i < descs.len()
        invariant
            i <= descs@.len(),
            descs_view(out@) == descs_view(descs@).take(i as int),
        decreases descs@.len() - i,
    {
        out.push(descs[i].clone());
        proof {
            assert(descs_view(out@) =~= descs_view(descs@).take(i as int + 1));
        }
        i = i + 1;
    }
    proof {
        assert(descs_view(descs@).take(i as int) =~= descs_view(descs@));
    }
    out
}

impl Run {
    /// The request document for the next round: the model name, the whole
    /// transcript so far, the tool catalog, and automatic tool choice.
    pub fn next_request(&self) -> (r: ChatRequest)
        ensures
            r.model@ == self.model@,
            entries_view(r.messages@) == entries_view(self.transcript@),
            descs_view(r.tools@) == descs_view(self.tools@),
            r.tool_choice is Auto,
    {
        ChatRequest {
            model: self.model.clone(),
            messages: clone_entries(&self.transcript),
            tools: clone_descriptors(&self.tools),
            tool_choice: ToolChoice::Auto,
        }
    }
}

/// The model name and catalog of a run never change after the start.
pub open spec fn same_setup(a: Run, b: Run) -> bool {
    &&& a.model@ == b.model@
    &&& descs_view(a.tools@) == descs_view(b.tools@)
}

/// Open a run from the caller's initial user text, the model to address,
/// and the catalog of tools offered to it.
pub fn start_run(initial_user_text: String, model: String, tools: Vec<ToolDescriptor>) -> (r:
    Result<Run, Error>)
    ensures
        initial_user_text@.len() > 0 ==> (r matches Ok(run) && run.model@ == model@ && descs_view(
            run.tools@,
        ) == descs_view(tools@) && entries_view(run.transcript@) == seq![
            EntryView::User { content: initial_user_text@ },
        ]),
        initial_user_text@.len() == 0 ==> (r matches Err(e) && e is Validation),
{
    let entry = match crate::chat::user_msg(initial_user_text) {
        Ok(e) => e,
        Err(e) => {
            return Err(e);
        },
    };
    let mut transcript: Vec<ConversationEntry> = Vec::new();
    transcript.push(entry);
    proof {
        assert(entries_view(transcript@) =~= seq![entry@]);
    }
    Ok(Run { model, tools, transcript })
}

/// One dispatched call of a batch failed in this way; used to say what the
/// wrapped cause of a failed round must look like.
pub open spec fn dispatch_error_matches(e: Error, name: Seq<char>, d: DispatchView) -> bool {
    match d {
        DispatchView::Value { value } => false,
        DispatchView::UnknownName => e matches Error::UnknownTool { name: n } && n@ == name,
        DispatchView::BadArguments => e matches Error::ArgumentDecode { name: n } && n@ == name,
        DispatchView::HandlerFailed { detail } => e matches Error::Handler { name: n, detail: dd }
            && n@ == name && dd@ == detail,
    }
}

/// The serialized result document of a successful dispatch.
pub open spec fn dispatch_value(d: DispatchView) -> Seq<char> {
    match d {
        DispatchView::Value { value } => value,
        _ => Seq::<char>::empty(),
    }
}

/// Every call of the batch dispatches to a value.
pub open spec fn batch_ok<H: ToolHandler>(reg: ToolRegistry<H>, calls: Seq<ToolCallView>) -> bool {
    forall|i: int|
        0 <= i < calls.len() ==> dispatch_spec(reg, calls[i].name, calls[i].arguments) is Value
}

/// The tool-result entries of a resolved batch, in the order the calls
/// were requested: the i-th entry answers the i-th call.
pub open spec fn tool_results<H: ToolHandler>(
    reg: ToolRegistry<H>,
    calls: Seq<ToolCallView>,
) -> Seq<EntryView> {
    calls.map(
        |i: int, c: ToolCallView|
            EntryView::Tool {
                tool_call_id: c.id,
                content: dispatch_value(dispatch_spec(reg, c.name, c.arguments)),
            },
    )
}

/// Ordering law: a resolved batch appends exactly one tool-result entry
/// per requested call, and the i-th appended entry answers the i-th call.
pub proof fn lemma_batch_order<H: ToolHandler>(
    reg: ToolRegistry<H>,
    calls: Seq<ToolCallView>,
    i: int,
)
    requires
        0 <= i < calls.len(),
    ensures
        tool_results(reg, calls).len() == calls.len(),
        tool_results(reg, calls)[i] == (EntryView::Tool {
            tool_call_id: calls[i].id,
            content: dispatch_value(dispatch_spec(reg, calls[i].name, calls[i].arguments)),
        }),
{
}

/// Whether this entry is a tool-result entry.
pub open spec fn is_tool(e: EntryView) -> bool {
    e is Tool
}

/// The call id a tool-result entry answers.
pub open spec fn tool_id(e: EntryView) -> Seq<char> {
    match e {
        EntryView::Tool { tool_call_id, content } => tool_call_id,
        _ => Seq::<char>::empty(),
    }
}

/// Whether this entry is an assistant entry that emits a call with this id.
pub open spec fn emits_id(e: EntryView, id: Seq<char>) -> bool {
    match e {
        EntryView::AssistantToolCalls { tool_calls } => exists|m: int|
            0 <= m < tool_calls.len() && (#[trigger] tool_calls[m]).id == id,
        _ => false,
    }
}

/// Whether some entry before position `k` emits a call with this id.
pub open spec fn answered_before(t: Seq<EntryView>, k: int, id: Seq<char>) -> bool {
    exists|j: int| 0 <= j < k && emits_id(#[trigger] t[j], id)
}

/// The transcript invariant: every tool-result entry answers a tool call
/// that a preceding assistant entry of the same conversation emitted.
pub open spec fn wf_transcript(t: Seq<EntryView>) -> bool {
    forall|k: int|
        0 <= k < t.len() && is_tool(#[trigger] t[k]) ==> answered_before(t, k, tool_id(t[k]))
}

/// A fresh transcript of one user entry is well formed.
pub proof fn lemma_wf_start(content: Seq<char>)
    ensures
        wf_transcript(seq![EntryView::User { content }]),
{
}

/// Appending a plain assistant entry keeps a transcript well formed.
pub proof fn lemma_wf_push_assistant(t: Seq<EntryView>, content: Seq<char>)
    requires
        wf_transcript(t),
    ensures
        wf_transcript(t.push(EntryView::Assistant { content })),
{
    let t2 = t.push(EntryView::Assistant { content });
    assert forall|k: int| 0 <= k < t2.len() && is_tool(#[trigger] t2[k]) implies answered_before(
        t2,
        k,
        tool_id(t2[k]),
    ) by {
        assert(t2[k] == t[k]);
        let j = choose|j: int| 0 <= j < k && emits_id(#[trigger] t[j], tool_id(t[k]));
        assert(emits_id(t2[j], tool_id(t2[k])));
    }
}

/// Appending the assistant entry of a batch and then the batch's results,
/// in request order, keeps a transcript well formed: every appended result
/// answers a call of the appended assistant entry.
pub proof fn lemma_wf_push_batch<H: ToolHandler>(
    reg: ToolRegistry<H>,
    t: Seq<EntryView>,
    calls: Seq<ToolCallView>,
)
    requires
        wf_transcript(t),
    ensures
        wf_transcript(
            t.push(EntryView::AssistantToolCalls { tool_calls: calls }) + tool_results(reg, calls),
        ),
{
    let a = EntryView::AssistantToolCalls { tool_calls: calls };
    let t2 = t.push(a) + tool_results(reg, calls);
    assert forall|k: int| 0 <= k < t2.len() && is_tool(#[trigger] t2[k]) implies answered_before(
        t2,
        k,
        tool_id(t2[k]),
    ) by {
        if k < t.len() {
            assert(t2[k] == t[k]);
            let j = choose|j: int| 0 <= j < k && emits_id(#[trigger] t[j], tool_id(t[k]));
            assert(emits_id(t2[j], tool_id(t2[k])));
        } else if k == t.len() {
            assert(t2[k] == a);
        } else {
            let m = k - t.len() - 1;
            assert(t2[k] == tool_results(reg, calls)[m]);
            assert(tool_id(t2[k]) == calls[m].id);
            assert(0 <= m < calls.len() && calls[m].id == tool_id(t2[k]));
            assert(emits_id(a, tool_id(t2[k])));
            assert(t2[t.len() as int] == a);
            assert(emits_id(t2[t.len() as int], tool_id(t2[k])));
        }
    }
}

/// Drive one round of the orchestration loop from the event the transport
/// adapter handed back.
///
/// A response with terminal content closes the run: the content is
/// appended as the closing assistant entry and returned as the answer. A
/// response with tool calls has the whole batch dispatched; only when every
/// call succeeds are the assistant tool-call entry and the tool results
/// appended, in request order, and the round resubmitted. One failing call
/// fails the whole round and leaves the transcript without any partial
/// tool results. A transport failure or a cancellation fails the run with
/// the transcript untouched.
#[verifier::loop_isolation(false)]
pub fn step<H: ToolHandler>(run: &mut Run, registry: &ToolRegistry<H>, event: Event) -> (r: Result<
    StepOutcome,
    Error,
>)
    ensures
        same_setup(*old(run), *final(run)),
        event matches Event::TransportFailed { detail } ==> (r matches Err(e)
            && e matches Error::Transport { detail: d } && d@ == detail@ && entries_view(
            final(run).transcript@,
        ) == entries_view(old(run).transcript@)),
        event is Cancel ==> (r matches Err(e) && e is Cancelled && entries_view(
            final(run).transcript@,
        ) == entries_view(old(run).transcript@)),
        event matches Event::Response { response } ==> (interpret_spec(response@) is None ==> (
        r matches Err(e) && e is EmptyResponse && entries_view(final(run).transcript@)
            == entries_view(old(run).transcript@))),
        event matches Event::Response { response } ==> (interpret_spec(
            response@,
        ) matches Some(OutcomeView::FinalContent { content }) ==> (r matches Ok(
            StepOutcome::Finished { answer },
        ) && answer@ == content && entries_view(final(run).transcript@) == entries_view(
            old(run).transcript@,
        ).push(EntryView::Assistant { content }))),
        event matches Event::Response { response } ==> (interpret_spec(
            response@,
        ) matches Some(OutcomeView::ToolCallsRequested { calls }) ==> (batch_ok(*registry, calls)
            ==> (r matches Ok(o) && o is Resubmit && entries_view(final(run).transcript@)
            == entries_view(old(run).transcript@).push(
            EntryView::AssistantToolCalls { tool_calls: calls },
        ) + tool_results(*registry, calls)))),
        event matches Event::Response { response } ==> (interpret_spec(
            response@,
        ) matches Some(OutcomeView::ToolCallsRequested { calls }) ==> (!batch_ok(*registry, calls)
            ==> (r matches Err(e) && e matches Error::ToolExecution { tool_call_id, cause } && (
        exists|i: int|
            0 <= i < calls.len() && !(dispatch_spec(
                *registry,
                calls[i].name,
                calls[i].arguments,
            ) is Value) && (forall|j: int|
                0 <= j < i ==> dispatch_spec(
                    *registry,
                    calls[j].name,
                    calls[j].arguments,
                ) is Value) && tool_call_id@ == calls[i].id && dispatch_error_matches(
                *cause,
                calls[i].name,
                dispatch_spec(*registry, calls[i].name, calls[i].arguments),
            )) && entries_view(final(run).transcript@) == entries_view(
            old(run).transcript@,
        )))),
{
    let response = match event {
        Event::Response { response } => response,
        Event::TransportFailed { detail } => {
            return Err(Error::Transport { detail });
        },
        Event::Cancel => {
            return Err(Error::Cancelled);
        },
    };
    let outcome = match interpret(response) {
        Ok(o) => o,
        Err(e) => {
            return Err(e);
        },
    };
    match outcome {
        Outcome::FinalContent { content } => {
            let answer = content.clone();
            run.transcript.push(ConversationEntry::Assistant { content });
            proof {
                assert(entries_view(run.transcript@) =~= entries_view(old(run).transcript@).push(
                    EntryView::Assistant { content: content@ },
                ));
            }
            Ok(StepOutcome::Finished { answer })
        },
        Outcome::ToolCallsRequested { calls } => {
            let ghost cvs = calls_view(calls@);
            let mut results: Vec<ConversationEntry> = Vec::new();
            let mut i: usize = 0;
            proof {
                assert(entries_view(results@) =~= tool_results(*registry, cvs).take(0));
            }
            while i < calls.len()
                invariant
                    i <= calls@.len(),
                    cvs == calls_view(calls@),
                    forall|j: int|
                        0 <= j < i ==> dispatch_spec(
                            *registry,
                            cvs[j].name,
                            cvs[j].arguments,
                        ) is Value,
                    entries_view(results@) == tool_results(*registry, cvs).take(i as int),
                decreases calls@.len() - i,
            {
                proof {
                    assert(cvs[i as int] == calls@[i as int]@);
                }
                match registry.dispatch(&calls[i].name, &calls[i].arguments) {
                    Ok(v) => {
                        results.push(
                            ConversationEntry::Tool { tool_call_id: calls[i].id.clone(), content: v },
                        );
                        proof {
                            assert(entries_view(results@) =~= tool_results(*registry, cvs).take(
                                i as int + 1,
                            ));
                        }
                    },
                    Err(e) => {
                        proof {
                            let ghost wi = i as int;
                            assert(!(dispatch_spec(
                                *registry,
                                cvs[wi].name,
                                cvs[wi].arguments,
                            ) is Value));
                        }
                        return Err(
                            Error::ToolExecution {
                                tool_call_id: calls[i].id.clone(),
                                cause: Box::new(e),
                            },
                        );
                    },
                }
                i = i + 1;
            }
            proof {
                assert(tool_results(*registry, cvs).take(i as int) =~= tool_results(
                    *registry,
                    cvs,
                ));
            }
            run.transcript.push(ConversationEntry::AssistantToolCalls { tool_calls: calls });
            let ghost mid = run.transcript@;
            run.transcript.append(&mut results);
            proof {
                assert(entries_view(mid) =~= entries_view(old(run).transcript@).push(
                    EntryView::AssistantToolCalls { tool_calls: cvs },
                ));
                assert(entries_view(run.transcript@) =~= entries_view(mid) + tool_results(
                    *registry,
                    cvs,
                ));
            }
            Ok(StepOutcome::Resubmit)
        },
    }
}

} // verus!
