use motosan_agent_tool::ToolResult;
use porygon::{translate, AgUiAction, AgentEvent, CoreEvent};

#[test]
fn text_chunk_translates() {
    let actions = translate(AgentEvent::Core(CoreEvent::TextChunk("hello".into())));
    assert_eq!(actions.len(), 1);
    assert!(matches!(&actions[0], AgUiAction::TextChunk(s) if s == "hello"));
}

#[test]
fn tool_completed_extracts_text() {
    let actions = translate(AgentEvent::Core(CoreEvent::ToolCompleted {
        name: "analyze".into(),
        result: ToolResult::text("result data"),
    }));
    assert_eq!(actions.len(), 1);
    assert!(
        matches!(&actions[0], AgUiAction::ToolCompleted { name, result } if name == "analyze" && result == "result data")
    );
}

#[test]
fn iteration_started_ignored() {
    let actions = translate(AgentEvent::Core(CoreEvent::IterationStarted { iteration: 1 }));
    assert!(actions.is_empty());
}

#[test]
fn text_done_translates() {
    let actions = translate(AgentEvent::Core(CoreEvent::TextDone("all".into())));
    assert_eq!(actions.len(), 1);
    assert!(matches!(&actions[0], AgUiAction::TextDone(s) if s == "all"));
}

#[test]
fn tool_started_translates() {
    let actions = translate(AgentEvent::Core(CoreEvent::ToolStarted { name: "search".into() }));
    assert_eq!(actions.len(), 1);
    assert!(matches!(&actions[0], AgUiAction::ToolStarted { name } if name == "search"));
}

#[test]
fn tool_completed_without_text_gives_empty_result() {
    let actions = translate(AgentEvent::Core(CoreEvent::ToolCompleted {
        name: "calc".into(),
        result: ToolResult::json(serde_json::Value::from(42)),
    }));
    assert_eq!(actions.len(), 1);
    assert!(
        matches!(&actions[0], AgUiAction::ToolCompleted { name, result } if name == "calc" && result.is_empty())
    );
}

#[test]
fn other_core_events_are_ignored() {
    let events = vec![
        CoreEvent::Interrupted,
        CoreEvent::OpsSaturated { capacity: 8 },
        CoreEvent::OpDropped { reason: "full".into() },
        CoreEvent::OpRejected { reason: "full".into() },
        CoreEvent::ExtensionFailed { name: "ext", error: "boom".into() },
    ];
    for e in events {
        assert!(translate(AgentEvent::Core(e)).is_empty());
    }
}
