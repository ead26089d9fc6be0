//! The decisions of an interactive chat: which adapter serves the model, how
//! the Python AI layer is launched, when the conversation ends, and the
//! history that is sent with each request.

use vstd::prelude::*;
use vstd::string::StringExecFns;

verus! {

/// How a chat with a registry entry starts.
#[derive(Debug, Clone, Copy, PartialEq, Eq, Structural)]
pub enum ChatStart {
    /// The model is missing from the registry or disabled.
    ModelNotEnabled,
    /// The entry's adapter type has no adapter here.
    UnsupportedAdapter,
    /// The in-process deterministic stub.
    Stub,
    /// The Python AI layer over JSONL/stdio.
    PythonEcho,
}

/// The start of a chat with a model that is enabled in the registry or not,
/// and whose entry names `adapter_type`.
pub open spec fn chat_start_spec(enabled: bool, adapter_type: Seq<char>) -> ChatStart {
    if !enabled {
        ChatStart::ModelNotEnabled
    } else if adapter_type == "stub"@ {
        ChatStart::Stub
    } else if adapter_type == "python-echo"@ {
        ChatStart::PythonEcho
    } else {
        ChatStart::UnsupportedAdapter
    }
}

/// Which adapter serves a chat: only an enabled model is served, by the stub
/// or by the Python AI layer according to its adapter type.
pub fn chat_start(enabled: bool, adapter_type: &str) -> (start: ChatStart)
    ensures
        start == chat_start_spec(enabled, adapter_type@),
        !enabled ==> start == ChatStart::ModelNotEnabled,
        (start == ChatStart::Stub) <==> (enabled && adapter_type@ == "stub"@),
        (start == ChatStart::PythonEcho) <==> (enabled && adapter_type@ == "python-echo"@),
{
    proof {
        lemma_chat_start_serves_only_enabled(enabled, adapter_type@);
    }
    if !enabled {
        return ChatStart::ModelNotEnabled;
    }
    let t = adapter_type.to_owned();
    if t == String::from_str("stub") {
        ChatStart::Stub
    } else if t == String::from_str("python-echo") {
        ChatStart::PythonEcho
    } else {
        ChatStart::UnsupportedAdapter
    }
}

/// A model that is not enabled is never served, whatever its adapter type;
/// an enabled model is served by the stub exactly when its adapter type is
/// `stub`, by the Python AI layer exactly when it is `python-echo`, and is
/// refused as unsupported for any other adapter type.
pub proof fn lemma_chat_start_serves_only_enabled(enabled: bool, adapter_type: Seq<char>)
    ensures
        !enabled ==> chat_start_spec(enabled, adapter_type) == ChatStart::ModelNotEnabled,
        (chat_start_spec(enabled, adapter_type) == ChatStart::Stub) <==> (enabled && adapter_type == "stub"@),
        (chat_start_spec(enabled, adapter_type) == ChatStart::PythonEcho) <==> (enabled && adapter_type
            == "python-echo"@),
        (chat_start_spec(enabled, adapter_type) == ChatStart::UnsupportedAdapter) <==> (enabled && adapter_type
            != "stub"@ && adapter_type != "python-echo"@),
{
    reveal_strlit("stub");
    reveal_strlit("python-echo");
    assert("stub"@.len() != "python-echo"@.len());
}

/// Whether `c` is white space in Unicode's `White_Space` property, which
/// `char::is_whitespace` and `str::trim` follow.
pub open spec fn is_unicode_white_space(c: char) -> bool {
    let u = c as u32;
    ||| 0x09 <= u <= 0x0d
    ||| u == 0x20
    ||| u == 0x85
    ||| u == 0xa0
    ||| u == 0x1680
    ||| 0x2000 <= u <= 0x200a
    ||| u == 0x2028
    ||| u == 0x2029
    ||| u == 0x202f
    ||| u == 0x205f
    ||| u == 0x3000
}

/// `s` without its leading white space.
pub open spec fn trim_start_spec(s: Seq<char>) -> Seq<char>
    decreases s.len(),
{
    if s.len() > 0 && is_unicode_white_space(s[0]) {
        trim_start_spec(s.drop_first())
    } else {
        s
    }
}

/// `s` without its trailing white space.
pub open spec fn trim_end_spec(s: Seq<char>) -> Seq<char>
    decreases s.len(),
{
    if s.len() > 0 && is_unicode_white_space(s.last()) {
        trim_end_spec(s.drop_last())
    } else {
        s
    }
}

/// `s` without leading and trailing white space.
pub open spec fn trim_spec(s: Seq<char>) -> Seq<char> {
    trim_end_spec(trim_start_spec(s))
}

/// `str::trim`: the slice without leading and trailing white space.
#[verifier::external_body]
fn str_trim(s: &str) -> (res: &str)
    ensures
        res@ == trim_spec(s@),
{
    s.trim()
}

/// One line read from the terminal.
#[derive(Debug)]
pub enum ChatInput {
    /// End the conversation.
    Stop,
    /// Send this text as the user's message.
    Send(String),
}

/// What a line read from the terminal means: end of input, an empty line
/// and `/exit` end the conversation; anything else is sent, trimmed.
pub fn chat_input(bytes_read: usize, line: &str) -> (input: ChatInput)
    ensures
        match input {
            ChatInput::Stop => bytes_read == 0 || trim_spec(line@).len() == 0 || trim_spec(line@) == "/exit"@,
            ChatInput::Send(text) => {
                &&& bytes_read != 0
                &&& text@ == trim_spec(line@)
                &&& text@.len() != 0
                &&& text@ != "/exit"@
            },
        },
{
    if bytes_read == 0 {
        return ChatInput::Stop;
    }
    let trimmed = str_trim(line);
    let text = trimmed.to_owned();
    if trimmed.is_empty() || text == String::from_str("/exit") {
        ChatInput::Stop
    } else {
        ChatInput::Send(text)
    }
}

/// `<str as Debug>::fmt`: the quoted and escaped form of a text.
pub uninterp spec fn debug_quoted_spec(s: Seq<char>) -> Seq<char>;

/// `format!("{:?}", s)` for a text: it in double quotes, escaped as Rust does.
#[verifier::external_body]
fn debug_quoted(s: &str) -> (res: String)
    ensures
        res@ == debug_quoted_spec(s@),
{
    format!("{:?}", s)
}

/// The Python program that loads the AI layer from `ai_dir`.
pub open spec fn python_launch_program(ai_dir: Seq<char>) -> Seq<char> {
    "import sys, runpy; sys.path.insert(0, "@ + debug_quoted_spec(ai_dir)
        + "); runpy.run_module('shadow_ai', run_name='__main__')"@
}

/// The command that starts the Python AI layer from the directory `ai_dir`:
/// `python3 -c <program>`, the program putting `ai_dir` first on the module
/// path and running the `shadow_ai` module.
pub fn python_launch_command(ai_dir: &str) -> (cmd: Vec<String>)
    ensures
        cmd@.len() == 3,
        cmd@[0]@ == "python3"@,
        cmd@[1]@ == "-c"@,
        cmd@[2]@ == python_launch_program(ai_dir@),
{
    let mut program = String::from_str("import sys, runpy; sys.path.insert(0, ");
    let quoted = debug_quoted(ai_dir);
    program.append(quoted.as_str());
    program.append("); runpy.run_module('shadow_ai', run_name='__main__')");
    let mut cmd: Vec<String> = Vec::new();
    cmd.push(String::from_str("python3"));
    cmd.push(String::from_str("-c"));
    cmd.push(program);
    cmd
}

/// One message of the history sent to the model.
#[derive(Debug, Clone)]
pub struct MessageInput {
    pub role: String,
    pub content: String,
}

/// Whether a history alternates user and assistant messages, starting with
/// the user.
pub open spec fn alternates(h: Seq<(Seq<char>, Seq<char>)>) -> bool {
    forall|i: int| 0 <= i < h.len() ==> #[trigger] h[i].0 == if i % 2 == 0 {
        "user"@
    } else {
        "assistant"@
    }
}

/// The conversation so far, as it is sent with each request.
pub struct ChatHistory {
    entries: Vec<MessageInput>,
}

impl View for ChatHistory {
    type V = Seq<(Seq<char>, Seq<char>)>;

    /// Each message as its role and content.
    closed spec fn view(&self) -> Seq<(Seq<char>, Seq<char>)> {
        self.entries@.map_values(|m: MessageInput| (m.role@, m.content@))
    }
}

impl ChatHistory {
    /// An empty conversation.
    pub fn new() -> (h: Self)
        ensures
            h@ == Seq::<(Seq<char>, Seq<char>)>::empty(),
    {
        ChatHistory { entries: Vec::new() }
    }

    /// Records the user's message; the previous exchange is complete.
    pub fn push_user(&mut self, content: &str)
        requires
            alternates(old(self)@),
            old(self)@.len() % 2 == 0,
        ensures
            final(self)@ == old(self)@.push(("user"@, content@)),
            alternates(final(self)@),
    {
        self.entries.push(MessageInput { role: String::from_str("user"), content: content.to_owned() });
        assert(self@ =~= old(self)@.push(("user"@, content@)));
    }

    /// Records the assistant's reply to the last user message.
    pub fn push_assistant(&mut self, content: &str)
        requires
            alternates(old(self)@),
            old(self)@.len() % 2 == 1,
        ensures
            final(self)@ == old(self)@.push(("assistant"@, content@)),
            alternates(final(self)@),
    {
        self.entries.push(MessageInput { role: String::from_str("assistant"), content: content.to_owned() });
        assert(self@ =~= old(self)@.push(("assistant"@, content@)));
    }

    /// The messages in order.
    pub fn messages(&self) -> (m: &Vec<MessageInput>)
        ensures
            m@.map_values(|e: MessageInput| (e.role@, e.content@)) == self@,
    {
        &self.entries
    }

    /// How many messages the conversation holds.
    pub fn len(&self) -> (n: usize)
        ensures
            n == self@.len(),
    {
        self.entries.len()
    }
}

/// The text that a line read from the terminal sends, or `None` where it
/// ends the conversation (end of input, an empty line, `/exit`).
pub open spec fn line_message_spec(bytes_read: usize, line: Seq<char>) -> Option<Seq<char>> {
    let t = trim_spec(line);
    if bytes_read == 0 || t.len() == 0 || t == "/exit"@ {
        None
    } else {
        Some(t)
    }
}

/// What the chat loop does next.
#[derive(Debug)]
pub enum ChatAction {
    /// End the conversation.
    Stop,
    /// Store `content` as the user's message, then ask the model for a reply
    /// to the whole history.
    SendUser { content: String },
    /// Store `content` as the assistant's reply, with its finish reason.
    StoreReply { content: String, finish_reason: String },
}

/// One interactive conversation: its history, and whether a reply is awaited.
pub struct ChatSession {
    history: ChatHistory,
}

impl View for ChatSession {
    type V = Seq<(Seq<char>, Seq<char>)>;

    /// The conversation so far, each message as its role and content.
    closed spec fn view(&self) -> Seq<(Seq<char>, Seq<char>)> {
        self.history@
    }
}

impl ChatSession {
    /// A conversation that has not begun.
    pub fn new() -> (s: Self)
        ensures
            s@ == Seq::<(Seq<char>, Seq<char>)>::empty(),
    {
        ChatSession { history: ChatHistory::new() }
    }

    /// One turn begins with a line from the terminal: a message to send is
    /// added to the history as the user's and must be stored and answered;
    /// anything else ends the conversation and leaves the history as it was.
    pub fn on_line(&mut self, bytes_read: usize, line: &str) -> (action: ChatAction)
        requires
            alternates(old(self)@),
            old(self)@.len() % 2 == 0,
        ensures
            alternates(final(self)@),
            match line_message_spec(bytes_read, line@) {
                None => action is Stop && final(self)@ == old(self)@,
                Some(t) => action matches ChatAction::SendUser { content } && content@ == t
                    && final(self)@ == old(self)@.push(("user"@, t)),
            },
    {
        match chat_input(bytes_read, line) {
            ChatInput::Stop => ChatAction::Stop,
            ChatInput::Send(text) => {
                self.history.push_user(text.as_str());
                ChatAction::SendUser { content: text }
            },
        }
    }

    /// The turn ends with the model's reply: it is added to the history as
    /// the assistant's and must be stored with its finish reason.
    pub fn on_reply(&mut self, reply: &str, finish_reason: &str) -> (action: ChatAction)
        requires
            alternates(old(self)@),
            old(self)@.len() % 2 == 1,
        ensures
            alternates(final(self)@),
            final(self)@.len() % 2 == 0,
            final(self)@ == old(self)@.push(("assistant"@, reply@)),
            action matches ChatAction::StoreReply { content, finish_reason: f } && content@ == reply@
                && f@ == finish_reason@,
    {
        self.history.push_assistant(reply);
        ChatAction::StoreReply { content: reply.to_owned(), finish_reason: finish_reason.to_owned() }
    }

    /// The history that is sent with a request.
    pub fn history(&self) -> (h: &ChatHistory)
        ensures
            h@ == self@,
    {
        &self.history
    }
}

} // verus!
