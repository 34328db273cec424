use vstd::prelude::*;
use vstd::string::StringExecFns;

verus! {

/// A tool invocation that the model asks for.
#[derive(Debug, Clone)]
pub struct ToolCall {
    pub id: String,
    pub type_: String,
    pub function: FunctionCall,
}

/// The function a tool call names, with its arguments as JSON text.
#[derive(Debug, Clone)]
pub struct FunctionCall {
    pub name: String,
    pub arguments: String,
}

/// The texts of a tool call.
pub struct ToolCallView {
    pub id: Seq<char>,
    pub type_: Seq<char>,
    pub name: Seq<char>,
    pub arguments: Seq<char>,
}

impl View for ToolCall {
    type V = ToolCallView;

    open spec fn view(&self) -> ToolCallView {
        ToolCallView {
            id: self.id@,
            type_: self.type_@,
            name: self.function.name@,
            arguments: self.function.arguments@,
        }
    }
}

/// One message of a conversation with the model.
#[derive(Debug, Clone)]
pub enum Message {
    System { content: String },
    User { content: String },
    Assistant { content: Option<String>, tool_calls: Option<Vec<ToolCall>> },
    Tool { content: String, tool_call_id: String },
}

/// The texts of a message.
pub enum MessageView {
    System { content: Seq<char> },
    User { content: Seq<char> },
    Assistant { content: Option<Seq<char>>, tool_calls: Option<Seq<ToolCallView>> },
    Tool { content: Seq<char>, tool_call_id: Seq<char> },
}

pub open spec fn tool_calls_view(calls: Seq<ToolCall>) -> Seq<ToolCallView> {
    calls.map_values(|c: ToolCall| c@)
}

impl View for Message {
    type V = MessageView;

    open spec fn view(&self) -> MessageView {
        match self {
            Message::System { content } => MessageView::System { content: content@ },
            Message::User { content } => MessageView::User { content: content@ },
            Message::Assistant { content, tool_calls } => MessageView::Assistant {
                content: match content {
                    Some(c) => Some(c@),
                    None => None,
                },
                tool_calls: match tool_calls {
                    Some(v) => Some(tool_calls_view(v@)),
                    None => None,
                },
            },
            Message::Tool { content, tool_call_id } => MessageView::Tool {
                content: content@,
                tool_call_id: tool_call_id@,
            },
        }
    }
}

/// The texts of a sequence of messages.
pub open spec fn messages_view(ms: Seq<Message>) -> Seq<MessageView> {
    ms.map_values(|m: Message| m@)
}

impl ToolCall {
    /// A copy of this tool call.
    pub fn duplicate(&self) -> (c: ToolCall)
        ensures
            c@ == self@,
    {
        ToolCall {
            id: self.id.clone(),
            type_: self.type_.clone(),
            function: FunctionCall {
                name: self.function.name.clone(),
                arguments: self.function.arguments.clone(),
            },
        }
    }
}

fn duplicate_calls(calls: &Vec<ToolCall>) -> (v: Vec<ToolCall>)
    ensures
        tool_calls_view(v@) == tool_calls_view(calls@),
{
    let mut v: Vec<ToolCall> = Vec::new();
    for i in 0..calls.len()
        invariant
            v@.len() == i,
            forall|k: int| 0 <= k < i ==> (#[trigger] v@[k])@ == calls@[k]@,
    {
        v.push(calls[i].duplicate());
    }
    assert(tool_calls_view(v@) =~= tool_calls_view(calls@));
    v
}

fn duplicate_text(s: &Option<String>) -> (r: Option<String>)
    ensures
        (match (r, *s) {
            (Some(a), Some(b)) => a@ == b@,
            (None, None) => true,
            _ => false,
        }),
{
    match s {
        Some(t) => Some(t.clone()),
        None => None,
    }
}

impl Message {
    /// A copy of this message.
    pub fn duplicate(&self) -> (m: Message)
        ensures
            m@ == self@,
    {
        match self {
            Message::System { content } => Message::System { content: content.clone() },
            Message::User { content } => Message::User { content: content.clone() },
            Message::Assistant { content, tool_calls } => {
                let c = duplicate_text(content);
                let t = match tool_calls {
                    Some(v) => Some(duplicate_calls(v)),
                    None => None,
                };
                Message::Assistant { content: c, tool_calls: t }
            }
            Message::Tool { content, tool_call_id } => Message::Tool {
                content: content.clone(),
                tool_call_id: tool_call_id.clone(),
            },
        }
    }
}

/// The model's reply to one request.
#[derive(Debug)]
pub struct CompletionResponse {
    pub message: Message,
    pub finish_reason: Option<String>,
}

/// The first of the choices in the model's answer; an answer without any is
/// an error.
pub fn first_choice<C>(choices: Vec<C>) -> (r: Result<C, String>)
    ensures
        choices@.len() == 0 ==> (r matches Err(m) && m@ == "No choices returned by model"@),
        choices@.len() > 0 ==> (r matches Ok(c) && c == choices@[0]),
{
    let mut rest = choices;
    if rest.len() == 0 {
        Err(String::from_str("No choices returned by model"))
    } else {
        Ok(rest.remove(0))
    }
}

} // verus!
