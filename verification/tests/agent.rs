use trading_agent::agent::{tool_outcome_text, Agent, AgentAction, AgentError};
use trading_agent::llm::{first_choice, FunctionCall, Message, ToolCall};
use trading_agent::tool::ToolRegistry;

fn call(id: &str, name: &str, arguments: &str) -> ToolCall {
    ToolCall {
        id: id.to_string(),
        type_: "function".to_string(),
        function: FunctionCall { name: name.to_string(), arguments: arguments.to_string() },
    }
}

fn agent_with_tools(names: &[&str]) -> Agent<(), u8> {
    let mut tools = ToolRegistry::new();
    for (i, n) in names.iter().enumerate() {
        tools.register(n.to_string(), i as u8);
    }
    Agent::new("Regime Agent", "You are concise.", (), tools, None)
}

#[test]
fn new_agent_history_holds_the_system_prompt() {
    let agent = agent_with_tools(&[]);
    assert_eq!(agent.id(), "Regime Agent");
    let h = agent.history();
    assert_eq!(h.len(), 1);
    assert!(matches!(&h[0], Message::System { content } if content == "You are concise."));
}

#[test]
fn test_agent_no_tools() {
    let mut agent = agent_with_tools(&[]);
    let (run, action) = agent.begin_run("What time is it now?");
    assert!(matches!(action, AgentAction::CallModel));
    assert_eq!(run.max_tool_calls, 0);
    let reply = Message::Assistant { content: Some("It is noon.".to_string()), tool_calls: None };
    let (_, action) = agent.on_model_reply(run, reply);
    assert!(matches!(action, AgentAction::Finish(s) if s == "It is noon."));
    assert_eq!(agent.history().len(), 3);
}

#[test]
fn agent_without_tools_stops_after_a_tool_round() {
    let mut agent = agent_with_tools(&[]);
    let (run, _) = agent.begin_run("q");
    let reply = Message::Assistant { content: None, tool_calls: Some(vec![call("c", "t", "{}")]) };
    let (run, action) = agent.on_model_reply(run, reply);
    assert!(matches!(action, AgentAction::ExecuteTool(_)));
    let (_, action) = agent.on_tool_result(run, Ok("1".to_string()));
    match action {
        AgentAction::Fail(e) => {
            assert!(matches!(e, AgentError::ToolLimitExceeded(0)));
            assert_eq!(e.message(), "Agent exceeded maximum tool calls (0) \u{2014} possible infinite loop prevented");
        }
        other => panic!("unexpected {:?}", other),
    }
}

#[test]
fn model_request_carries_history_tools_and_schema() {
    let mut agent = agent_with_tools(&["a", "b"]);
    let _ = agent.begin_run("q");
    let req = agent.model_request();
    assert_eq!(req.history.len(), 2);
    assert_eq!(req.tools.len(), 2);
    assert_eq!(req.temperature_tenths, 7);
    assert!(req.schema.is_none());
    let with_schema: Agent<(), u8> =
        Agent::new("x", "p", (), ToolRegistry::new(), Some(serde_json::Value::Bool(true)));
    assert_eq!(*with_schema.model_request().schema, Some(serde_json::Value::Bool(true)));
}

#[test]
fn tool_calls_are_prepared_from_the_registry() {
    let agent = agent_with_tools(&["a", "b"]);
    let (tool, args) = agent.prepare_tool_call(&call("c", "b", "{ \"k\" : 1 }")).unwrap();
    assert_eq!(*tool, 1);
    assert_eq!(args.to_string(), "{\"k\":1}");
    assert_eq!(agent.prepare_tool_call(&call("c", "zz", "{}")).unwrap_err(), "Tool not found: zz");
    let e = agent.prepare_tool_call(&call("c", "a", "{oops")).unwrap_err();
    assert!(e.starts_with("Failed to parse tool arguments: "));
    assert!(e.len() > "Failed to parse tool arguments: ".len());
}

#[test]
fn tool_outcomes_become_text() {
    let v: serde_json::Value = serde_json::from_str("{\"timestamp\": 5}").unwrap();
    assert_eq!(tool_outcome_text(Ok(v)).unwrap(), "{\"timestamp\":5}");
    assert_eq!(tool_outcome_text(Err("boom".to_string())).unwrap_err(), "Tool execution failed: boom");
}

#[test]
fn tool_round_then_final_answer() {
    let mut agent = agent_with_tools(&["get_polymarket_sentiment", "final_answer"]);
    let (run, action) = agent.begin_run("Current technical regimes");
    assert!(matches!(action, AgentAction::CallModel));
    assert_eq!(run.max_tool_calls, 6);
    let reply = Message::Assistant {
        content: None,
        tool_calls: Some(vec![call("c1", "get_polymarket_sentiment", "{}")]),
    };
    let (run, action) = agent.on_model_reply(run, reply);
    match action {
        AgentAction::ExecuteTool(c) => assert_eq!(c.id, "c1"),
        other => panic!("unexpected {:?}", other),
    }
    let (run, action) = agent.on_tool_result(run, Ok("{\"sentiment\":\"calm\"}".to_string()));
    assert!(matches!(action, AgentAction::CallModel));
    match &agent.history()[agent.history().len() - 1] {
        Message::Tool { content, tool_call_id } => {
            assert_eq!(content, "{\"sentiment\":\"calm\"}");
            assert_eq!(tool_call_id, "c1");
        }
        other => panic!("unexpected {:?}", other),
    }
    let reply = Message::Assistant {
        content: None,
        tool_calls: Some(vec![call("c2", "final_answer", "{ \"action\" : \"BUY\",  \"risk_level\": \"LOW\" }")]),
    };
    let (run, action) = agent.on_model_reply(run, reply);
    match action {
        AgentAction::Finish(s) => assert_eq!(s, "{\"action\":\"BUY\",\"risk_level\":\"LOW\"}"),
        other => panic!("unexpected {:?}", other),
    }
    assert_eq!(run.tool_call_count, 2);
    assert_eq!(agent.history().len(), 5);
}

#[test]
fn unreadable_final_answer_fails() {
    let mut agent = agent_with_tools(&["final_answer"]);
    let (run, _) = agent.begin_run("q");
    let reply = Message::Assistant { content: None, tool_calls: Some(vec![call("c", "final_answer", "{not json")]) };
    let (_, action) = agent.on_model_reply(run, reply);
    match action {
        AgentAction::Fail(e) => assert!(e.message().starts_with("Failed to parse final_answer: ")),
        other => panic!("unexpected {:?}", other),
    }
}

#[test]
fn text_reply_finishes_and_empty_reply_fails() {
    let mut agent = agent_with_tools(&["x"]);
    let (run, _) = agent.begin_run("q");
    let (_, action) = agent.on_model_reply(run, Message::Assistant { content: Some("done".to_string()), tool_calls: Some(vec![]) });
    assert!(matches!(action, AgentAction::Finish(s) if s == "done"));
    let (run, _) = agent.begin_run("q2");
    let (_, action) = agent.on_model_reply(run, Message::Assistant { content: None, tool_calls: None });
    match action {
        AgentAction::Fail(e) => assert_eq!(e.message(), "Model returned empty message"),
        other => panic!("unexpected {:?}", other),
    }
}

#[test]
fn tool_limit_stops_a_looping_model() {
    let mut agent = agent_with_tools(&["t"]);
    let (mut run, mut action) = agent.begin_run("q");
    let mut rounds = 0;
    loop {
        match action {
            AgentAction::CallModel => {
                rounds += 1;
                let reply = Message::Assistant { content: None, tool_calls: Some(vec![call("c", "t", "{}")]) };
                let r = agent.on_model_reply(run, reply);
                run = r.0;
                action = r.1;
            }
            AgentAction::ExecuteTool(_) => {
                let r = agent.on_tool_result(run, Ok("1".to_string()));
                run = r.0;
                action = r.1;
            }
            AgentAction::Fail(e) => {
                assert_eq!(e.message(), "Agent exceeded maximum tool calls (3) \u{2014} possible infinite loop prevented");
                break;
            }
            AgentAction::Finish(_) => panic!("finished"),
        }
    }
    assert_eq!(rounds, 3);
}

#[test]
fn tool_failure_ends_the_run() {
    let mut agent = agent_with_tools(&["t"]);
    let (run, _) = agent.begin_run("q");
    let (run, _) = agent.on_model_reply(run, Message::Assistant { content: None, tool_calls: Some(vec![call("c", "t", "{}")]) });
    let before = agent.history().len();
    let (_, action) = agent.on_tool_result(run, Err("Tool not found: t".to_string()));
    match action {
        AgentAction::Fail(e) => assert_eq!(e.message(), "Tool not found: t"),
        other => panic!("unexpected {:?}", other),
    }
    assert_eq!(agent.history().len(), before);
}

#[test]
fn clear_history_forgets_everything() {
    let mut agent = agent_with_tools(&["t"]);
    let _ = agent.begin_run("q");
    agent.clear_history();
    assert!(agent.history().is_empty());
}

#[test]
fn first_choice_of_the_answer() {
    assert_eq!(first_choice(vec!["a", "b"]).unwrap(), "a");
    assert_eq!(first_choice(Vec::<u8>::new()).unwrap_err(), "No choices returned by model");
}
