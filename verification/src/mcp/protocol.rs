//! JSON-RPC and tool-server protocol: error codes, method routing, tool
//! routing, tool descriptions and tool responses.

use vstd::prelude::*;

use crate::text::{contains, seq_contains, str_eq};

verus! {

/// JSON-RPC: invalid JSON.
pub const ERR_PARSE_ERROR: i32 = -32700;

/// JSON-RPC: not a valid request object.
pub const ERR_INVALID_REQUEST: i32 = -32600;

/// JSON-RPC: unknown method.
pub const ERR_METHOD_NOT_FOUND: i32 = -32601;

/// JSON-RPC: invalid parameters.
pub const ERR_INVALID_PARAMS: i32 = -32602;

/// JSON-RPC: internal error.
pub const ERR_INTERNAL_ERROR: i32 = -32603;

/// JSON-RPC version string.
pub const JSONRPC_VERSION: &'static str = "2.0";

/// Prefix of every tool name.
pub const TOOL_PREFIX: &'static str = "thaleia_";

/// What the server does with a request method.
#[derive(Debug, Clone, Copy, PartialEq, Eq, Structural)]
pub enum RpcRoute {
    /// Answer with the server's protocol version, capabilities and identity.
    Initialize,
    /// Answer with the list of tools.
    ToolsList,
    /// Run a tool.
    ToolsCall,
    /// Acknowledge the client's initialized notification.
    Initialized,
    /// Unknown method: answer with a method-not-found error.
    MethodNotFound,
}

/// Route of a method name.
pub open spec fn route_of(method: Seq<char>) -> RpcRoute {
    if method == "initialize"@ {
        RpcRoute::Initialize
    } else if method == "tools/list"@ {
        RpcRoute::ToolsList
    } else if method == "tools/call"@ {
        RpcRoute::ToolsCall
    } else if method == "notifications/initialized"@ {
        RpcRoute::Initialized
    } else {
        RpcRoute::MethodNotFound
    }
}

/// Routes a JSON-RPC method name.
pub fn route_method(method: &str) -> (r: RpcRoute)
    ensures
        r == route_of(method@),
{
    if str_eq(method, "initialize") {
        RpcRoute::Initialize
    } else if str_eq(method, "tools/list") {
        RpcRoute::ToolsList
    } else if str_eq(method, "tools/call") {
        RpcRoute::ToolsCall
    } else if str_eq(method, "notifications/initialized") {
        RpcRoute::Initialized
    } else {
        RpcRoute::MethodNotFound
    }
}

/// Message of the error for an unknown method.
pub fn method_not_found_message(method: &str) -> (m: String)
    ensures
        m@ == "Method not found: "@ + method@,
{
    String::from_str("Method not found: ").concat(method)
}

/// The tools of the server.
#[derive(Debug, Clone, Copy, PartialEq, Eq, Structural)]
pub enum ToolKind {
    Speak,
    Listen,
    ListVoices,
    GetStatus,
}

/// Tool of a tool name, if the name is known.
pub open spec fn tool_of(name: Seq<char>) -> Option<ToolKind> {
    if name == "thaleia_speak"@ {
        Some(ToolKind::Speak)
    } else if name == "thaleia_listen"@ {
        Some(ToolKind::Listen)
    } else if name == "thaleia_list_voices"@ {
        Some(ToolKind::ListVoices)
    } else if name == "thaleia_get_status"@ {
        Some(ToolKind::GetStatus)
    } else {
        None
    }
}

/// Routes a tool name.
pub fn route_tool(name: &str) -> (r: Option<ToolKind>)
    ensures
        r == tool_of(name@),
{
    if str_eq(name, "thaleia_speak") {
        Some(ToolKind::Speak)
    } else if str_eq(name, "thaleia_listen") {
        Some(ToolKind::Listen)
    } else if str_eq(name, "thaleia_list_voices") {
        Some(ToolKind::ListVoices)
    } else if str_eq(name, "thaleia_get_status") {
        Some(ToolKind::GetStatus)
    } else {
        None
    }
}

/// One item of a tool response.
#[derive(Debug, Clone)]
pub struct ToolContent {
    /// Kind of content; always "text" here.
    pub content_type: String,
    /// The text.
    pub text: String,
}

/// A tool response.
#[derive(Debug, Clone)]
pub struct ToolResponse {
    pub content: Vec<ToolContent>,
    pub is_error: Option<bool>,
}

impl ToolResponse {
    /// A successful response holding one text item.
    pub fn text(text: String) -> (r: Self)
        ensures
            r.content@.len() == 1,
            r.content@[0].content_type@ == "text"@,
            r.content@[0].text@ == text@,
            r.is_error is None,
    {
        let mut content = Vec::new();
        content.push(ToolContent { content_type: String::from_str("text"), text });
        Self { content, is_error: None }
    }

    /// An error response holding one text item.
    pub fn error(text: String) -> (r: Self)
        ensures
            r.content@.len() == 1,
            r.content@[0].content_type@ == "text"@,
            r.content@[0].text@ == text@,
            r.is_error == Some(true),
    {
        let mut content = Vec::new();
        content.push(ToolContent { content_type: String::from_str("text"), text });
        Self { content, is_error: Some(true) }
    }
}

/// The response to a call of an unknown tool.
pub fn unknown_tool_response(name: &str) -> (r: ToolResponse)
    ensures
        r.content@.len() == 1,
        r.content@[0].text@ == "Unknown tool: "@ + name@,
        r.is_error == Some(true),
{
    ToolResponse::error(String::from_str("Unknown tool: ").concat(name))
}

/// Name, description and input schema (JSON) of a tool.
pub struct ToolSpec {
    pub name: &'static str,
    pub description: &'static str,
    pub input_schema: &'static str,
}

/// Names of the tools, in the order they are listed.
pub open spec fn tool_names() -> Seq<Seq<char>> {
    seq!["thaleia_speak"@, "thaleia_listen"@, "thaleia_list_voices"@, "thaleia_get_status"@]
}

/// Description of the `thaleia_speak` tool.
pub const SPEAK_DESCRIPTION: &'static str = "Convert text to speech using Kokoro TTS. Speaks the text aloud using the specified voice.";

/// Input schema (JSON) of the `thaleia_speak` tool.
pub const SPEAK_SCHEMA: &'static str = r#"{
            "type": "object",
            "properties": {
                "text": {
                    "type": "string",
                    "description": "Text to speak"
                },
                "voice": {
                    "type": "string",
                    "description": "Voice ID (e.g., 'af_bella', 'am_adam'). If not specified, uses default voice."
                }
            },
            "required": ["text"]
        }"#;

/// Description of the `thaleia_listen` tool.
pub const LISTEN_DESCRIPTION: &'static str = "Listen to microphone and transcribe speech to text using Whisper STT.";

/// Input schema (JSON) of the `thaleia_listen` tool.
pub const LISTEN_SCHEMA: &'static str = r#"{
            "type": "object",
            "properties": {
                "timeout": {
                    "type": "number",
                    "description": "Maximum listening duration in seconds (default: 10)"
                },
                "save_to": {
                    "type": "string",
                    "description": "Save captured audio to WAV file (optional)"
                }
            }
        }"#;

/// Description of the `thaleia_list_voices` tool.
pub const LIST_VOICES_DESCRIPTION: &'static str = "List all available TTS voices with their names and languages.";

/// Input schema (JSON) of the `thaleia_list_voices` tool.
pub const LIST_VOICES_SCHEMA: &'static str = r#"{
            "type": "object",
            "properties": {}
        }"#;

/// Description of the `thaleia_get_status` tool.
pub const GET_STATUS_DESCRIPTION: &'static str = "Get current Thaleia MCP server status including session info and token budget.";

/// Input schema (JSON) of the `thaleia_get_status` tool.
pub const GET_STATUS_SCHEMA: &'static str = r#"{
            "type": "object",
            "properties": {}
        }"#;

/// Descriptions of the tools, in the order they are listed.
pub open spec fn tool_descriptions() -> Seq<Seq<char>> {
    seq![SPEAK_DESCRIPTION@, LISTEN_DESCRIPTION@, LIST_VOICES_DESCRIPTION@, GET_STATUS_DESCRIPTION@]
}

/// Input schemas of the tools, in the order they are listed.
pub open spec fn tool_schemas() -> Seq<Seq<char>> {
    seq![SPEAK_SCHEMA@, LISTEN_SCHEMA@, LIST_VOICES_SCHEMA@, GET_STATUS_SCHEMA@]
}

/// The tools of the server with their descriptions and input schemas.
pub fn mcp_tools() -> (tools: Vec<ToolSpec>)
    ensures
        tools@.len() == 4,
        forall|i: int|
            0 <= i < 4 ==> {
                &&& (#[trigger] tools@[i]).name@ == tool_names()[i]
                &&& tools@[i].description@ == tool_descriptions()[i]
                &&& tools@[i].input_schema@ == tool_schemas()[i]
            },
{
    let mut tools: Vec<ToolSpec> = Vec::new();
    tools.push(ToolSpec { name: "thaleia_speak", description: SPEAK_DESCRIPTION, input_schema: SPEAK_SCHEMA });
    tools.push(ToolSpec { name: "thaleia_listen", description: LISTEN_DESCRIPTION, input_schema: LISTEN_SCHEMA });
    tools.push(
        ToolSpec {
            name: "thaleia_list_voices",
            description: LIST_VOICES_DESCRIPTION,
            input_schema: LIST_VOICES_SCHEMA,
        },
    );
    tools.push(
        ToolSpec {
            name: "thaleia_get_status",
            description: GET_STATUS_DESCRIPTION,
            input_schema: GET_STATUS_SCHEMA,
        },
    );
    tools
}

/// The friendly message shown for a tool error, chosen by the first
/// keyword group the error text mentions.
pub open spec fn friendly_error_of(e: Seq<char>) -> Seq<char> {
    if seq_contains(e, "audio"@) || seq_contains(e, "playback"@) || seq_contains(e, "device"@) {
        "I can't find my voice right now. Check your audio settings!"@
    } else if seq_contains(e, "microphone"@) || seq_contains(e, "capture"@) || seq_contains(
        e,
        "input"@,
    ) {
        "I can't hear you. Check if my microphone is connected!"@
    } else if seq_contains(e, "synthesis"@) || seq_contains(e, "TTS"@) {
        "I had trouble finding the right words. Let me try again!"@
    } else if seq_contains(e, "transcription"@) || seq_contains(e, "Whisper"@) || seq_contains(
        e,
        "STT"@,
    ) {
        "I didn't catch that. Could you speak again?"@
    } else if seq_contains(e, "download"@) || seq_contains(e, "network"@) || seq_contains(
        e,
        "model"@,
    ) {
        "I'm downloading my voice models. This might take a moment..."@
    } else {
        "Oops! Something went wrong: "@ + e
    }
}

/// A friendly message for a tool error.
pub fn user_friendly_error(error: &str) -> (m: String)
    ensures
        m@ == friendly_error_of(error@),
{
    if contains(error, "audio") || contains(error, "playback") || contains(error, "device") {
        String::from_str("I can't find my voice right now. Check your audio settings!")
    } else if contains(error, "microphone") || contains(error, "capture") || contains(
        error,
        "input",
    ) {
        String::from_str("I can't hear you. Check if my microphone is connected!")
    } else if contains(error, "synthesis") || contains(error, "TTS") {
        String::from_str("I had trouble finding the right words. Let me try again!")
    } else if contains(error, "transcription") || contains(error, "Whisper") || contains(
        error,
        "STT",
    ) {
        String::from_str("I didn't catch that. Could you speak again?")
    } else if contains(error, "download") || contains(error, "network") || contains(
        error,
        "model",
    ) {
        String::from_str("I'm downloading my voice models. This might take a moment...")
    } else {
        String::from_str("Oops! Something went wrong: ").concat(error)
    }
}

/// Session mode of the tool server.
#[derive(Debug, Clone, Copy, PartialEq, Eq, Structural)]
pub enum SessionMode {
    Standard,
    Ephemeral,
    Longterm,
}

impl Default for SessionMode {
    fn default() -> (m: Self)
        ensures
            m == SessionMode::Standard,
    {
        SessionMode::Standard
    }
}

/// Session mode named by a setting: "ephemeral", "longterm", anything else
/// is standard.
pub open spec fn session_mode_of(name: Seq<char>) -> SessionMode {
    if name == "ephemeral"@ {
        SessionMode::Ephemeral
    } else if name == "longterm"@ {
        SessionMode::Longterm
    } else {
        SessionMode::Standard
    }
}

/// Name of a session mode, as it is displayed.
pub open spec fn session_mode_name(m: SessionMode) -> Seq<char> {
    match m {
        SessionMode::Standard => "Standard"@,
        SessionMode::Ephemeral => "Ephemeral"@,
        SessionMode::Longterm => "Longterm"@,
    }
}

impl SessionMode {
    /// Name of the mode, as it is displayed.
    pub fn name(&self) -> (s: &'static str)
        ensures
            s@ == session_mode_name(*self),
    {
        match self {
            SessionMode::Standard => "Standard",
            SessionMode::Ephemeral => "Ephemeral",
            SessionMode::Longterm => "Longterm",
        }
    }

    /// Mode named by a setting value.
    pub fn from_setting(name: &str) -> (m: Self)
        ensures
            m == session_mode_of(name@),
    {
        if str_eq(name, "ephemeral") {
            SessionMode::Ephemeral
        } else if str_eq(name, "longterm") {
            SessionMode::Longterm
        } else {
            SessionMode::Standard
        }
    }
}

/// Position of a tool in the listing of the server's tools.
pub open spec fn tool_position(k: ToolKind) -> int {
    match k {
        ToolKind::Speak => 0,
        ToolKind::Listen => 1,
        ToolKind::ListVoices => 2,
        ToolKind::GetStatus => 3,
    }
}

/// Each tool name routes to the tool listed under that name, and only the
/// listed names route to a tool: the speak tool speaks, the listen tool
/// listens, the voice list lists voices, and the status tool reports.
pub proof fn lemma_tool_names_route_to_their_tools(k: ToolKind, name: Seq<char>)
    ensures
        tool_of(tool_names()[tool_position(k)]) == Some(k),
        tool_of(name) is Some ==> tool_names().contains(name),
{
    reveal_strlit("thaleia_speak");
    reveal_strlit("thaleia_listen");
    reveal_strlit("thaleia_list_voices");
    reveal_strlit("thaleia_get_status");
    assert("thaleia_listen"@[8] != "thaleia_speak"@[8]);
    assert("thaleia_list_voices"@[8] != "thaleia_speak"@[8]);
    assert("thaleia_list_voices"@[12] != "thaleia_listen"@[12]);
    assert("thaleia_get_status"@[8] != "thaleia_speak"@[8]);
    assert("thaleia_get_status"@[8] != "thaleia_listen"@[8]);
    assert("thaleia_get_status"@[8] != "thaleia_list_voices"@[8]);
    if tool_of(name) is Some {
        if name == "thaleia_speak"@ {
            assert(tool_names()[0] == name);
        } else if name == "thaleia_listen"@ {
            assert(tool_names()[1] == name);
        } else if name == "thaleia_list_voices"@ {
            assert(tool_names()[2] == name);
        } else {
            assert(tool_names()[3] == name);
        }
    }
}

} // verus!
