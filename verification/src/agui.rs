//! AG-UI adapter for the `motosan-agent-loop` agent framework.
//!
//! Translates agent events into high-level actions that a session state
//! machine can process. The events are held in this library's own types,
//! which mirror `motosan_agent_loop::AgentEvent` variant by variant.
use vstd::prelude::*;

verus! {

/// `motosan_agent_tool::ToolResult`, held as an opaque value.
#[verifier::external_type_specification]
#[verifier::external_body]
pub struct ExToolResult(motosan_agent_tool::ToolResult);

/// `motosan_agent_loop::ExtensionEvent`, held as an opaque value.
#[verifier::external_type_specification]
#[verifier::external_body]
pub struct ExExtensionEvent(motosan_agent_loop::ExtensionEvent);

/// What `ToolResult::as_text` returns for a tool result: the text of its first
/// text content block, if it has one.
pub uninterp spec fn tool_result_text(r: motosan_agent_tool::ToolResult) -> Option<Seq<char>>;

/// Calls `motosan_agent_tool::ToolResult::as_text` and copies the text it finds.
#[verifier::external_body]
fn tool_result_as_text(r: &motosan_agent_tool::ToolResult) -> (t: Option<String>)
    ensures
        match t {
            Some(s) => tool_result_text(*r) == Some(s@),
            None => tool_result_text(*r) is None,
        },
{
    match r.as_text() {
        Some(s) => Some(s.to_string()),
        None => None,
    }
}

/// High-level action from the motosan agent framework.
/// The consuming session translates each action into ag-ui events.
#[derive(Debug, Clone)]
pub enum AgUiAction {
    /// Streaming text chunk from LLM.
    TextChunk(String),
    /// Full accumulated text after streaming completes.
    TextDone(String),
    /// A tool execution started.
    ToolStarted { name: String },
    /// A tool execution completed with a result.
    ToolCompleted { name: String, result: String },
}

/// The mechanism-level events of the agent loop
/// (`motosan_agent_loop::CoreEvent`, variant by variant).
#[derive(Debug)]
pub enum CoreEvent {
    IterationStarted { iteration: usize },
    Interrupted,
    TextChunk(String),
    TextDone(String),
    ToolStarted { name: String },
    ToolCompleted { name: String, result: motosan_agent_tool::ToolResult },
    OpsSaturated { capacity: usize },
    OpDropped { reason: String },
    OpRejected { reason: String },
    ExtensionFailed { name: &'static str, error: String },
}

/// An event of the agent loop (`motosan_agent_loop::AgentEvent`):
/// a core event, or an event of one of the loop's extensions.
#[derive(Debug)]
pub enum AgentEvent {
    Core(CoreEvent),
    Extension(motosan_agent_loop::ExtensionEvent),
}

/// The text of a tool result as an action carries it: its text, or empty.
pub open spec fn text_or_empty(t: Option<Seq<char>>) -> Seq<char> {
    match t {
        Some(s) => s,
        None => Seq::empty(),
    }
}

/// The actions an event translates into: text chunks, finished texts and
/// started tools map to one action each; a completed tool maps to one action
/// with the tool's name and the text of its result (empty where it has none);
/// every other event maps to no action.
pub open spec fn translates_to(event: AgentEvent, actions: Seq<AgUiAction>) -> bool {
    match event {
        AgentEvent::Core(CoreEvent::TextChunk(delta)) => actions == seq![AgUiAction::TextChunk(delta)],
        AgentEvent::Core(CoreEvent::TextDone(text)) => actions == seq![AgUiAction::TextDone(text)],
        AgentEvent::Core(CoreEvent::ToolStarted { name }) => actions == seq![
            AgUiAction::ToolStarted { name },
        ],
        AgentEvent::Core(CoreEvent::ToolCompleted { name, result }) => {
            &&& actions.len() == 1
            &&& actions[0] matches AgUiAction::ToolCompleted { name: n, result: t }
            &&& n == name
            &&& t@ == text_or_empty(tool_result_text(result))
        },
        _ => actions.len() == 0,
    }
}

/// Translates an agent event into zero or more [`AgUiAction`]s.
pub fn translate(event: AgentEvent) -> (actions: Vec<AgUiAction>)
    ensures
        translates_to(event, actions@),
{
    let mut actions: Vec<AgUiAction> = Vec::new();
    match event {
        AgentEvent::Core(CoreEvent::TextChunk(delta)) => {
            actions.push(AgUiAction::TextChunk(delta));
        },
        AgentEvent::Core(CoreEvent::TextDone(text)) => {
            actions.push(AgUiAction::TextDone(text));
        },
        AgentEvent::Core(CoreEvent::ToolStarted { name }) => {
            actions.push(AgUiAction::ToolStarted { name });
        },
        AgentEvent::Core(CoreEvent::ToolCompleted { name, result }) => {
            let result_text = match tool_result_as_text(&result) {
                Some(t) => t,
                None => String::new(),
            };
            actions.push(AgUiAction::ToolCompleted { name, result: result_text });
        },
        // Other core events (iteration start, interruption, ops queue health,
        // extension failure) and all extension events have no ag-ui mapping.
        _ => {},
    }
    actions
}

/// An event translates into at most one action.
pub proof fn lemma_translate_at_most_one(event: AgentEvent, actions: Seq<AgUiAction>)
    requires
        translates_to(event, actions),
    ensures
        actions.len() <= 1,
{
}


/// Only text chunks, finished texts, started tools and completed tools
/// translate into an action; every other event, extension events included,
/// translates into none.
pub proof fn lemma_only_mapped_events_act(event: AgentEvent, actions: Seq<AgUiAction>)
    requires
        translates_to(event, actions),
    ensures
        actions.len() > 0 <==> (event matches AgentEvent::Core(c) && (c is TextChunk
            || c is TextDone || c is ToolStarted || c is ToolCompleted)),
        event is Extension ==> actions.len() == 0,
{
}

/// Each action carries what its event carried: a text chunk or finished text
/// carries the event's text, a started or completed tool the event's tool name,
/// and the action's kind matches the event's kind.
pub proof fn lemma_actions_carry_event_data(event: AgentEvent, actions: Seq<AgUiAction>, i: int)
    requires
        translates_to(event, actions),
        0 <= i < actions.len(),
    ensures
        actions[i] matches AgUiAction::TextChunk(t) ==> event == AgentEvent::Core(
            CoreEvent::TextChunk(t),
        ),
        actions[i] matches AgUiAction::TextDone(t) ==> event == AgentEvent::Core(
            CoreEvent::TextDone(t),
        ),
        actions[i] matches AgUiAction::ToolStarted { name } ==> event == AgentEvent::Core(
            CoreEvent::ToolStarted { name },
        ),
        actions[i] matches AgUiAction::ToolCompleted { name, result } ==> (event matches AgentEvent::Core(
            CoreEvent::ToolCompleted { name: n, result: tr },
        ) && n == name && result@ == text_or_empty(tool_result_text(tr))),
{
}

} // verus!
