use vstd::prelude::*;
use vstd::string::StringExecFns;
use serde_json::Value;

use crate::json::{json_reencoded, json_text, json_value, parse_json, reencode_json, write_json};
use crate::llm::{tool_calls_view, messages_view, Message, MessageView, ToolCall, ToolCallView};
use crate::text::{decimal_digits, decimal_u64, str_eq};
use crate::tool::{final_answer_name, final_answer_tool_name, ToolRegistry};

verus! {

/// Why a run of the agent failed.
#[derive(Debug)]
pub enum AgentError {
    /// The model asked for tools in this many rounds without answering.
    ToolLimitExceeded(usize),
    /// The model replied with neither tool calls nor text.
    EmptyMessage,
    /// The final answer's arguments are not JSON; the reader's message.
    FinalAnswerUnreadable(String),
    /// A tool could not be run; the reason.
    ToolFailed(String),
}

/// The text of an agent error.
pub open spec fn agent_error_text(e: AgentError) -> Seq<char> {
    match e {
        AgentError::ToolLimitExceeded(max) => "Agent exceeded maximum tool calls ("@ + decimal_digits(max as nat)
            + ") \u{2014} possible infinite loop prevented"@,
        AgentError::EmptyMessage => "Model returned empty message"@,
        AgentError::FinalAnswerUnreadable(m) => "Failed to parse final_answer: "@ + m@,
        AgentError::ToolFailed(m) => m@,
    }
}

impl AgentError {
    /// The text of this error.
    pub fn message(&self) -> (m: String)
        ensures
            m@ == agent_error_text(*self),
    {
        match self {
            AgentError::ToolLimitExceeded(max) => {
                let mut s = String::from_str("Agent exceeded maximum tool calls (");
                s.append(decimal_u64(*max as u64).as_str());
                s.append(") \u{2014} possible infinite loop prevented");
                s
            }
            AgentError::EmptyMessage => String::from_str("Model returned empty message"),
            AgentError::FinalAnswerUnreadable(m) => String::from_str("Failed to parse final_answer: ").concat(m.as_str()),
            AgentError::ToolFailed(m) => m.clone(),
        }
    }
}

/// What the agent asks of its caller next.
#[derive(Debug)]
pub enum AgentAction {
    /// Send the agent's `model_request` to the model and hand its reply to
    /// `on_model_reply`.
    CallModel,
    /// Run this tool call and hand its result to `on_tool_result`.
    ExecuteTool(ToolCall),
    /// The run is over with this answer.
    Finish(String),
    /// The run is over with this error.
    Fail(AgentError),
}

/// What a run is waiting for.
#[derive(Debug, Clone, Copy, PartialEq, Eq, Structural)]
pub enum AgentWait {
    Model,
    Tool,
    Done,
}

/// The state of one run: how many tool rounds the model has had, the limit,
/// the tool calls of the current round and the next one to handle.
#[derive(Debug)]
pub struct AgentRun {
    pub tool_call_count: usize,
    pub max_tool_calls: usize,
    pub pending: Vec<ToolCall>,
    pub next_call: usize,
    pub waiting: AgentWait,
}

/// `a` is what follows once the tool calls `pending` before `k` are handled:
/// the next tool call is run, unless it is the final answer, whose arguments
/// end the run; with none left the model is asked again, unless the limit of
/// tool rounds is reached.
pub open spec fn is_next_action(pending: Seq<ToolCallView>, k: int, count: nat, max: nat, a: AgentAction) -> bool {
    if k >= pending.len() {
        if count >= max {
            a matches AgentAction::Fail(AgentError::ToolLimitExceeded(m)) && m == max
        } else {
            a is CallModel
        }
    } else if pending[k].name == final_answer_name() {
        match json_reencoded(pending[k].arguments) {
            Ok(s) => a matches AgentAction::Finish(t) && t@ == s,
            Err(e) => a matches AgentAction::Fail(AgentError::FinalAnswerUnreadable(m)) && m@ == e,
        }
    } else {
        a matches AgentAction::ExecuteTool(c) && c@ == pending[k]
    }
}

/// What the run waits for after the action `a`.
pub open spec fn wait_after(a: AgentAction) -> AgentWait {
    match a {
        AgentAction::CallModel => AgentWait::Model,
        AgentAction::ExecuteTool(_) => AgentWait::Tool,
        _ => AgentWait::Done,
    }
}

impl AgentRun {
    /// The run is consistent: the model is only waited for before the first
    /// tool round or below the limit of tool rounds, and a tool only while a
    /// non-final tool call is out.
    pub open spec fn wf(&self) -> bool {
        &&& self.next_call <= self.pending@.len()
        &&& self.waiting == AgentWait::Model ==> self.tool_call_count == 0
            || self.tool_call_count < self.max_tool_calls
        &&& self.waiting == AgentWait::Tool ==> self.next_call < self.pending@.len()
            && self.pending@[self.next_call as int]@.name != final_answer_name()
    }

    /// The tool calls of the current round.
    pub open spec fn pending_view(&self) -> Seq<ToolCallView> {
        tool_calls_view(self.pending@)
    }
}

/// What one request to the model carries: the provider whose default model
/// answers, the conversation so far, the tools on offer, the sampling
/// temperature in tenths and the requested response schema.
pub struct ModelRequest<'a, P, T> {
    pub provider: &'a P,
    pub history: &'a Vec<Message>,
    pub tools: &'a ToolRegistry<T>,
    pub temperature_tenths: u32,
    pub schema: &'a Option<Value>,
}

/// The sampling temperature of every model request, in tenths.
pub open spec fn request_temperature_tenths() -> u32 {
    7
}

/// The text handed back to the model for what a tool returned: the JSON text
/// of its result, or why the tool failed.
pub fn tool_outcome_text(outcome: Result<Value, String>) -> (r: Result<String, String>)
    ensures
        (match outcome {
            Err(e) => r matches Err(m) && m@ == "Tool execution failed: "@ + e@,
            Ok(v) => r matches Ok(s) && s@ == json_text(v),
        }),
{
    match outcome {
        Err(e) => Err(String::from_str("Tool execution failed: ").concat(e.as_str())),
        Ok(v) => match write_json(&v) {
            Ok(text) => Ok(text),
            Err(e) => {
                Err(String::from_str("Failed to serialize tool result: ").concat(e.as_str()))
            }
        },
    }
}

/// An agent: a system prompt, a conversation history, the tools `T` it may
/// call and the model provider `P` it talks to.
pub struct Agent<P, T> {
    id: String,
    tool_registry: ToolRegistry<T>,
    provider: P,
    history: Vec<Message>,
    system_prompt: String,
    schema: Option<Value>,
}

impl<P, T> Agent<P, T> {
    /// The conversation so far.
    pub closed spec fn history_view(&self) -> Seq<MessageView> {
        messages_view(self.history@)
    }

    /// The agent's tools by name.
    pub closed spec fn tools_view(&self) -> Map<Seq<char>, T> {
        self.tool_registry@
    }

    /// The agent's name.
    pub closed spec fn id_view(&self) -> Seq<char> {
        self.id@
    }

    /// The agent's system prompt.
    pub closed spec fn system_prompt_view(&self) -> Seq<char> {
        self.system_prompt@
    }

    /// The model provider.
    pub closed spec fn provider_view(&self) -> P {
        self.provider
    }

    /// The response schema requested of the model, if any.
    pub closed spec fn schema_view(&self) -> Option<Value> {
        self.schema
    }

    /// A new agent whose history holds only the system prompt.
    pub fn new(id: &str, system_prompt: &str, provider: P, tool_registry: ToolRegistry<T>, schema: Option<Value>) -> (a: Self)
        ensures
            a.id_view() == id@,
            a.system_prompt_view() == system_prompt@,
            a.provider_view() == provider,
            a.tools_view() == tool_registry@,
            a.schema_view() == schema,
            a.history_view() == seq![MessageView::System { content: system_prompt@ }],
    {
        let mut history: Vec<Message> = Vec::new();
        history.push(Message::System { content: system_prompt.to_string() });
        let a = Agent {
            id: id.to_string(),
            system_prompt: system_prompt.to_string(),
            tool_registry,
            provider,
            history,
            schema,
        };
        assert(a.history_view() =~= seq![MessageView::System { content: system_prompt@ }]);
        a
    }

    /// The agent's name.
    pub fn id(&self) -> (s: &str)
        ensures
            s@ == self.id_view(),
    {
        self.id.as_str()
    }

    /// The model provider.
    pub fn provider(&self) -> (p: &P)
        ensures
            *p == self.provider_view(),
    {
        &self.provider
    }

    /// The agent's tools.
    pub fn tool_registry(&self) -> (r: &ToolRegistry<T>)
        ensures
            r@ == self.tools_view(),
    {
        &self.tool_registry
    }

    /// The conversation so far.
    pub fn history(&self) -> (h: &Vec<Message>)
        ensures
            messages_view(h@) == self.history_view(),
    {
        &self.history
    }

    /// The response schema requested of the model, if any.
    pub fn schema(&self) -> (s: &Option<Value>)
        ensures
            *s == self.schema_view(),
    {
        &self.schema
    }

    /// The request that asks the model for its next reply: the whole
    /// conversation, every registered tool, a temperature of seven tenths and
    /// the agent's response schema.
    pub fn model_request(&self) -> (r: ModelRequest<'_, P, T>)
        ensures
            *r.provider == self.provider_view(),
            messages_view(r.history@) == self.history_view(),
            r.tools@ == self.tools_view(),
            r.temperature_tenths == request_temperature_tenths(),
            *r.schema == self.schema_view(),
    {
        ModelRequest {
            provider: &self.provider,
            history: &self.history,
            tools: &self.tool_registry,
            temperature_tenths: 7,
            schema: &self.schema,
        }
    }

    /// The tool that `call` names and its arguments read as JSON; a tool that
    /// is not registered, or arguments that are not JSON, give the error that
    /// is handed back to the run.
    pub fn prepare_tool_call(&self, call: &ToolCall) -> (r: Result<(&T, Value), String>)
        ensures
            (match r {
                Ok((t, v)) => {
                    &&& self.tools_view().dom().contains(call@.name)
                    &&& *t == self.tools_view()[call@.name]
                    &&& json_reencoded(call@.arguments) is Ok
                    &&& v == json_value(call@.arguments)
                },
                Err(m) => if !self.tools_view().dom().contains(call@.name) {
                    m@ == "Tool not found: "@ + call@.name
                } else {
                    json_reencoded(call@.arguments) matches Err(e) && m@ == "Failed to parse tool arguments: "@ + e
                },
            }),
    {
        match self.tool_registry.get(call.function.name.as_str()) {
            None => Err(String::from_str("Tool not found: ").concat(call.function.name.as_str())),
            Some(t) => match parse_json(call.function.arguments.as_str()) {
                Ok(v) => Ok((t, v)),
                Err(e) => Err(String::from_str("Failed to parse tool arguments: ").concat(e.as_str())),
            },
        }
    }

    /// Forgets the whole conversation, the system prompt included.
    pub fn clear_history(&mut self)
        ensures
            final(self).history_view() == Seq::<MessageView>::empty(),
            final(self).tools_view() == old(self).tools_view(),
            final(self).provider_view() == old(self).provider_view(),
            final(self).system_prompt_view() == old(self).system_prompt_view(),
            final(self).schema_view() == old(self).schema_view(),
            final(self).id_view() == old(self).id_view(),
    {
        self.history.clear();
        assert(self.history_view() =~= Seq::<MessageView>::empty());
    }

    fn push_message(&mut self, m: Message)
        ensures
            final(self).history_view() == old(self).history_view().push(m@),
            final(self).tools_view() == old(self).tools_view(),
            final(self).provider_view() == old(self).provider_view(),
            final(self).system_prompt_view() == old(self).system_prompt_view(),
            final(self).schema_view() == old(self).schema_view(),
            final(self).id_view() == old(self).id_view(),
    {
        self.history.push(m);
        assert(self.history_view() =~= old(self).history_view().push(m@));
    }

    /// Starts a run on `user_message`: the message joins the history and the
    /// model is asked. The model is always asked once, also by an agent
    /// without tools; the limit of three tool rounds per tool applies to the
    /// rounds that follow.
    pub fn begin_run(&mut self, user_message: &str) -> (r: (AgentRun, AgentAction))
        requires
            old(self).tools_view().dom().len() * 3 <= usize::MAX,
        ensures
            final(self).history_view() == old(self).history_view().push(MessageView::User { content: user_message@ }),
            final(self).tools_view() == old(self).tools_view(),
            final(self).provider_view() == old(self).provider_view(),
            final(self).schema_view() == old(self).schema_view(),
            final(self).id_view() == old(self).id_view(),
            final(self).system_prompt_view() == old(self).system_prompt_view(),
            r.0.wf(),
            r.0.tool_call_count == 0,
            r.0.max_tool_calls == old(self).tools_view().dom().len() * 3,
            r.0.pending@.len() == 0,
            r.0.next_call == 0,
            r.1 is CallModel,
            r.0.waiting == AgentWait::Model,
    {
        self.push_message(Message::User { content: user_message.to_string() });
        let max_tool_calls = self.tool_registry.len() * 3;
        let run = AgentRun { tool_call_count: 0, max_tool_calls, pending: Vec::new(), next_call: 0, waiting: AgentWait::Model };
        (run, AgentAction::CallModel)
    }

    fn continue_round(run: AgentRun) -> (r: (AgentRun, AgentAction))
        requires
            run.next_call <= run.pending@.len(),
        ensures
            r.0.wf(),
            r.0.tool_call_count == run.tool_call_count,
            r.0.max_tool_calls == run.max_tool_calls,
            r.0.pending_view() == run.pending_view(),
            r.0.next_call == run.next_call,
            is_next_action(run.pending_view(), run.next_call as int, run.tool_call_count as nat, run.max_tool_calls as nat, r.1),
            r.0.waiting == wait_after(r.1),
    {
        let AgentRun { tool_call_count, max_tool_calls, pending, next_call, waiting: _ } = run;
        if next_call >= pending.len() {
            if tool_call_count >= max_tool_calls {
                let a = AgentAction::Fail(AgentError::ToolLimitExceeded(max_tool_calls));
                (AgentRun { tool_call_count, max_tool_calls, pending, next_call, waiting: AgentWait::Done }, a)
            } else {
                (AgentRun { tool_call_count, max_tool_calls, pending, next_call, waiting: AgentWait::Model }, AgentAction::CallModel)
            }
        } else {
            let call = pending[next_call].duplicate();
            assert(run.pending_view()[next_call as int] == pending@[next_call as int]@);
            if str_eq(call.function.name.as_str(), final_answer_tool_name()) {
                let a = match reencode_json(call.function.arguments.as_str()) {
                    Ok(s) => AgentAction::Finish(s),
                    Err(e) => AgentAction::Fail(AgentError::FinalAnswerUnreadable(e)),
                };
                (AgentRun { tool_call_count, max_tool_calls, pending, next_call, waiting: AgentWait::Done }, a)
            } else {
                (AgentRun { tool_call_count, max_tool_calls, pending, next_call, waiting: AgentWait::Tool }, AgentAction::ExecuteTool(call))
            }
        }
    }

    /// Takes the model's reply: it joins the history; a reply with tool calls
    /// opens a new tool round, a reply with text ends the run with that text,
    /// anything else ends it with an error.
    pub fn on_model_reply(&mut self, run: AgentRun, message: Message) -> (r: (AgentRun, AgentAction))
        requires
            run.wf(),
            run.waiting == AgentWait::Model,
        ensures
            final(self).history_view() == old(self).history_view().push(message@),
            final(self).tools_view() == old(self).tools_view(),
            final(self).provider_view() == old(self).provider_view(),
            final(self).schema_view() == old(self).schema_view(),
            final(self).id_view() == old(self).id_view(),
            final(self).system_prompt_view() == old(self).system_prompt_view(),
            r.0.wf(),
            r.0.max_tool_calls == run.max_tool_calls,
            r.0.waiting == wait_after(r.1),
            (match message@ {
                MessageView::Assistant { content, tool_calls: Some(calls) } if calls.len() > 0 => {
                    &&& r.0.tool_call_count == run.tool_call_count + 1
                    &&& r.0.pending_view() == calls
                    &&& r.0.next_call == 0
                    &&& is_next_action(calls, 0, r.0.tool_call_count as nat, run.max_tool_calls as nat, r.1)
                },
                MessageView::Assistant { content: Some(text), tool_calls: _ } => {
                    &&& r.0.tool_call_count == run.tool_call_count
                    &&& r.1 matches AgentAction::Finish(t) && t@ == text
                },
                _ => {
                    &&& r.0.tool_call_count == run.tool_call_count
                    &&& r.1 matches AgentAction::Fail(AgentError::EmptyMessage)
                },
            }),
    {
        let copy = message.duplicate();
        self.push_message(copy);
        let AgentRun { tool_call_count, max_tool_calls, pending: _, next_call: _, waiting: _ } = run;
        match message {
            Message::Assistant { content, tool_calls } => {
                let has_calls = match &tool_calls {
                    Some(calls) => calls.len() > 0,
                    None => false,
                };
                if has_calls {
                    let calls = tool_calls.unwrap();
                    let next = AgentRun {
                        tool_call_count: tool_call_count + 1,
                        max_tool_calls,
                        pending: calls,
                        next_call: 0,
                        waiting: AgentWait::Model,
                    };
                    Self::continue_round(next)
                } else {
                    let done = AgentRun { tool_call_count, max_tool_calls, pending: Vec::new(), next_call: 0, waiting: AgentWait::Done };
                    match content {
                        Some(text) => (done, AgentAction::Finish(text)),
                        None => (done, AgentAction::Fail(AgentError::EmptyMessage)),
                    }
                }
            }
            _ => {
                let done = AgentRun { tool_call_count, max_tool_calls, pending: Vec::new(), next_call: 0, waiting: AgentWait::Done };
                (done, AgentAction::Fail(AgentError::EmptyMessage))
            }
        }
    }

    /// Takes the result of the tool call that is out: its text joins the
    /// history as the answer to that call and the round goes on; a failure
    /// ends the run.
    pub fn on_tool_result(&mut self, run: AgentRun, result: Result<String, String>) -> (r: (AgentRun, AgentAction))
        requires
            run.wf(),
            run.waiting == AgentWait::Tool,
        ensures
            final(self).tools_view() == old(self).tools_view(),
            final(self).provider_view() == old(self).provider_view(),
            final(self).schema_view() == old(self).schema_view(),
            final(self).id_view() == old(self).id_view(),
            final(self).system_prompt_view() == old(self).system_prompt_view(),
            r.0.wf(),
            r.0.max_tool_calls == run.max_tool_calls,
            r.0.tool_call_count == run.tool_call_count,
            r.0.waiting == wait_after(r.1),
            (match result {
                Ok(content) => {
                    &&& final(self).history_view() == old(self).history_view().push(MessageView::Tool {
                        content: content@,
                        tool_call_id: run.pending_view()[run.next_call as int].id,
                    })
                    &&& r.0.pending_view() == run.pending_view()
                    &&& r.0.next_call == run.next_call + 1
                    &&& is_next_action(run.pending_view(), run.next_call + 1, run.tool_call_count as nat, run.max_tool_calls as nat, r.1)
                },
                Err(e) => {
                    &&& final(self).history_view() == old(self).history_view()
                    &&& r.1 matches AgentAction::Fail(AgentError::ToolFailed(m)) && m == e
                },
            }),
    {
        let AgentRun { tool_call_count, max_tool_calls, pending, next_call, waiting: _ } = run;
        match result {
            Ok(content) => {
                let n = pending.len();
                assert(next_call < n);
                let id = pending[next_call].id.clone();
                assert(run.pending_view()[next_call as int] == pending@[next_call as int]@);
                self.push_message(Message::Tool { content, tool_call_id: id });
                let next = AgentRun { tool_call_count, max_tool_calls, pending, next_call: next_call + 1, waiting: AgentWait::Model };
                Self::continue_round(next)
            }
            Err(e) => {
                let done = AgentRun { tool_call_count, max_tool_calls, pending, next_call, waiting: AgentWait::Done };
                (done, AgentAction::Fail(AgentError::ToolFailed(e)))
            }
        }
    }
}

} // verus!
