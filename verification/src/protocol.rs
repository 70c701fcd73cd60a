use vstd::prelude::*;
use crate::fixed::Fixed;
use crate::json::{JsonData, JVal};
use crate::numtext::parse_fixed_spec;
use crate::text::chars_to_string;

verus! {

/// Correlation token for a top-level request, propagated unchanged through
/// every nested delegation.
#[derive(Clone, Copy, PartialEq, Eq, Structural, Debug)]
pub struct RequestId(pub u64);

/// Ambient per-request state shared by reference across the whole chain;
/// the dispatch core reads and forwards it and never mutates it.
#[derive(Clone, Copy, PartialEq, Eq, Structural, Debug)]
pub struct Context {
    pub session: u64,
}

/// Optional metadata of a declared tool.
pub struct ToolOptions {
    pub title: Option<String>,
    pub description: Option<String>,
    pub output_schema: Option<String>,
    pub annotations: Option<String>,
    pub meta: Option<String>,
}

/// A named, schema-described operation, immutable once declared.
pub struct Tool {
    pub name: String,
    pub input_schema: String,
    pub options: Option<ToolOptions>,
}

pub struct ListToolsRequest {
    pub cursor: Option<String>,
}

pub struct ListToolsResult {
    pub tools: Vec<Tool>,
    pub next_cursor: Option<String>,
    pub meta: Option<String>,
}

/// The argument payload of a tool call: JSON text still to be parsed, or
/// already-structured data (as a middleware builds for its nested calls).
pub enum ArgPayload {
    Text(String),
    Data(JsonData),
}

pub struct CallToolRequest {
    pub name: String,
    pub arguments: Option<ArgPayload>,
}

/// One block of result content: inline text, or a streamed form identified
/// by its stream handle.
pub enum ContentBlock {
    Text(String),
    Stream(u64),
}

pub struct CallToolResult {
    pub content: Vec<ContentBlock>,
    pub is_error: Option<bool>,
    pub structured_content: Option<JsonData>,
    pub meta: Option<String>,
}

/// A request entering the chain. Request kinds other than the two the core
/// handles specially are opaque, carried by their kind name.
pub enum ClientRequest {
    ToolsList(ListToolsRequest),
    ToolsCall(CallToolRequest),
    Other(String),
}

pub enum ServerResponse {
    ToolsList(ListToolsResult),
    ToolsCall(CallToolResult),
}

/// Protocol-level failure: no handler recognizes the capability, or any
/// other error from below the method-resolution layer.
pub enum ErrorCode {
    MethodNotFound(String),
    Other(String),
}

// ----- mathematical shapes of the protocol types -----

pub open spec fn view_opt_str(o: Option<String>) -> Option<Seq<char>> {
    match o {
        Some(s) => Some(s@),
        None => None,
    }
}

pub struct ToolV {
    pub name: Seq<char>,
    pub input_schema: Seq<char>,
    pub title: Option<Seq<char>>,
    pub description: Option<Seq<char>>,
    pub output_schema: Option<Seq<char>>,
    pub annotations: Option<Seq<char>>,
    pub meta: Option<Seq<char>>,
}

impl Tool {
    pub open spec fn deep(self) -> ToolV {
        match self.options {
            Some(o) => ToolV {
                name: self.name@,
                input_schema: self.input_schema@,
                title: view_opt_str(o.title),
                description: view_opt_str(o.description),
                output_schema: view_opt_str(o.output_schema),
                annotations: view_opt_str(o.annotations),
                meta: view_opt_str(o.meta),
            },
            None => ToolV {
                name: self.name@,
                input_schema: self.input_schema@,
                title: None,
                description: None,
                output_schema: None,
                annotations: None,
                meta: None,
            },
        }
    }
}

pub open spec fn tools_deep(s: Seq<Tool>) -> Seq<ToolV> {
    s.map_values(|t: Tool| t.deep())
}

pub struct ListToolsResultV {
    pub tools: Seq<ToolV>,
    pub next_cursor: Option<Seq<char>>,
    pub meta: Option<Seq<char>>,
}

impl ListToolsResult {
    pub open spec fn deep(self) -> ListToolsResultV {
        ListToolsResultV {
            tools: tools_deep(self.tools@),
            next_cursor: view_opt_str(self.next_cursor),
            meta: view_opt_str(self.meta),
        }
    }
}

pub enum ArgPayloadV {
    Text(Seq<char>),
    Data(JVal),
}

impl ArgPayload {
    pub open spec fn deep(self) -> ArgPayloadV {
        match self {
            ArgPayload::Text(s) => ArgPayloadV::Text(s@),
            ArgPayload::Data(j) => ArgPayloadV::Data(j.deep()),
        }
    }
}

pub open spec fn view_opt_args(o: Option<ArgPayload>) -> Option<ArgPayloadV> {
    match o {
        Some(a) => Some(a.deep()),
        None => None,
    }
}

pub struct CallToolRequestV {
    pub name: Seq<char>,
    pub arguments: Option<ArgPayloadV>,
}

impl CallToolRequest {
    pub open spec fn deep(self) -> CallToolRequestV {
        CallToolRequestV { name: self.name@, arguments: view_opt_args(self.arguments) }
    }
}

pub enum ContentBlockV {
    Text(Seq<char>),
    Stream(u64),
}

impl ContentBlock {
    pub open spec fn deep(self) -> ContentBlockV {
        match self {
            ContentBlock::Text(s) => ContentBlockV::Text(s@),
            ContentBlock::Stream(h) => ContentBlockV::Stream(h),
        }
    }
}

pub open spec fn blocks_deep(s: Seq<ContentBlock>) -> Seq<ContentBlockV> {
    s.map_values(|b: ContentBlock| b.deep())
}

pub struct CallToolResultV {
    pub content: Seq<ContentBlockV>,
    pub is_error: Option<bool>,
    pub structured_content: Option<JVal>,
    pub meta: Option<Seq<char>>,
}

impl CallToolResult {
    pub open spec fn deep(self) -> CallToolResultV {
        CallToolResultV {
            content: blocks_deep(self.content@),
            is_error: self.is_error,
            structured_content: match self.structured_content {
                Some(j) => Some(j.deep()),
                None => None,
            },
            meta: view_opt_str(self.meta),
        }
    }
}

pub enum ClientRequestV {
    ToolsList(Option<Seq<char>>),
    ToolsCall(CallToolRequestV),
    Other(Seq<char>),
}

impl ClientRequest {
    pub open spec fn deep(self) -> ClientRequestV {
        match self {
            ClientRequest::ToolsList(r) => ClientRequestV::ToolsList(view_opt_str(r.cursor)),
            ClientRequest::ToolsCall(r) => ClientRequestV::ToolsCall(r.deep()),
            ClientRequest::Other(kind) => ClientRequestV::Other(kind@),
        }
    }
}

pub enum ServerResponseV {
    ToolsList(ListToolsResultV),
    ToolsCall(CallToolResultV),
}

impl ServerResponse {
    pub open spec fn deep(self) -> ServerResponseV {
        match self {
            ServerResponse::ToolsList(r) => ServerResponseV::ToolsList(r.deep()),
            ServerResponse::ToolsCall(r) => ServerResponseV::ToolsCall(r.deep()),
        }
    }
}

pub enum ErrorCodeV {
    MethodNotFound(Seq<char>),
    Other(Seq<char>),
}

impl ErrorCode {
    pub open spec fn deep(self) -> ErrorCodeV {
        match self {
            ErrorCode::MethodNotFound(m) => ErrorCodeV::MethodNotFound(m@),
            ErrorCode::Other(m) => ErrorCodeV::Other(m@),
        }
    }
}

/// The shape of a dispatch outcome.
pub open spec fn outcome_deep(r: Result<ServerResponse, ErrorCode>) -> Result<
    ServerResponseV,
    ErrorCodeV,
> {
    match r {
        Ok(resp) => Ok(resp.deep()),
        Err(e) => Err(e.deep()),
    }
}

/// The shape of a declared tool with a title and description.
pub open spec fn tool_v(
    name: Seq<char>,
    schema: Seq<char>,
    title: Seq<char>,
    description: Seq<char>,
) -> ToolV {
    ToolV {
        name,
        input_schema: schema,
        title: Some(title),
        description: Some(description),
        output_schema: None,
        annotations: None,
        meta: None,
    }
}

/// Declare a tool with a title and description.
pub fn make_tool(name: &str, schema: &str, title: &str, description: &str) -> (t: Tool)
    ensures
        t.deep() == tool_v(name@, schema@, title@, description@),
{
    Tool {
        name: String::from_str(name),
        input_schema: String::from_str(schema),
        options: Some(
            ToolOptions {
                title: Some(String::from_str(title)),
                description: Some(String::from_str(description)),
                output_schema: None,
                annotations: None,
                meta: None,
            },
        ),
    }
}

// ----- result construction and numeric extraction -----

/// The shape of a successful single-text-block result.
pub open spec fn success_result_spec(text: Seq<char>, structured: Option<JVal>) -> CallToolResultV {
    CallToolResultV {
        content: seq![ContentBlockV::Text(text)],
        is_error: None,
        structured_content: structured,
        meta: None,
    }
}

/// The shape of a tool-level error result.
pub open spec fn error_result_spec(text: Seq<char>) -> CallToolResultV {
    CallToolResultV {
        content: seq![ContentBlockV::Text(text)],
        is_error: Some(true),
        structured_content: None,
        meta: None,
    }
}

/// A successful result whose sole content block is the given text.
pub fn success_result(text: String) -> (r: CallToolResult)
    ensures
        r.deep() == success_result_spec(text@, None),
{
    let mut content: Vec<ContentBlock> = Vec::new();
    content.push(ContentBlock::Text(text));
    let r = CallToolResult { content, is_error: None, structured_content: None, meta: None };
    proof {
        assert(blocks_deep(r.content@) =~= seq![ContentBlockV::Text(text@)]);
    }
    r
}

/// A successful result carrying structured content beside its text form.
pub fn success_result_structured(text: String, structured: JsonData) -> (r: CallToolResult)
    ensures
        r.deep() == success_result_spec(text@, Some(structured.deep())),
{
    let ghost sv = structured.deep();
    let mut content: Vec<ContentBlock> = Vec::new();
    content.push(ContentBlock::Text(text));
    let r = CallToolResult {
        content,
        is_error: None,
        structured_content: Some(structured),
        meta: None,
    };
    proof {
        assert(blocks_deep(r.content@) =~= seq![ContentBlockV::Text(text@)]);
    }
    r
}

/// A tool-level error result: the error flag is set and the sole content
/// block carries the diagnostic text.
pub fn error_result(message: String) -> (r: CallToolResult)
    ensures
        r.deep() == error_result_spec(message@),
{
    let mut content: Vec<ContentBlock> = Vec::new();
    content.push(ContentBlock::Text(message));
    let r = CallToolResult { content, is_error: Some(true), structured_content: None, meta: None };
    proof {
        assert(blocks_deep(r.content@) =~= seq![ContentBlockV::Text(message@)]);
    }
    r
}

/// The scalar a nested result stands for: the error flag must be unset, the
/// result must have at least one content block, the first block must be
/// inline text, and that text must read as a number.
pub open spec fn extract_number_spec(r: CallToolResultV) -> Result<Fixed, Seq<char>> {
    if r.is_error == Some(true) {
        Err("Tool call returned error"@)
    } else if r.content.len() == 0 {
        Err("No text content in result"@)
    } else {
        match r.content[0] {
            ContentBlockV::Text(t) => match parse_fixed_spec(t) {
                Some(f) => Ok(f),
                None => Err("Failed to parse result as number: "@ + t),
            },
            ContentBlockV::Stream(_) => Err("Text content is a stream, not inline text"@),
        }
    }
}

/// Extract the scalar a nested result stands for.
pub fn extract_number_from_result(res: &CallToolResult) -> (r: Result<Fixed, String>)
    ensures
        match r {
            Ok(f) => extract_number_spec(res.deep()) == Ok::<Fixed, Seq<char>>(f) && f.wf(),
            Err(m) => extract_number_spec(res.deep()) == Err::<Fixed, Seq<char>>(m@),
        },
{
    let err_flag = match res.is_error {
        Some(b) => b,
        None => false,
    };
    if err_flag {
        return Err(String::from_str("Tool call returned error"));
    }
    if res.content.len() == 0 {
        return Err(String::from_str("No text content in result"));
    }
    proof {
        assert(blocks_deep(res.content@)[0] == res.content@[0].deep());
    }
    match &res.content[0] {
        ContentBlock::Text(t) => {
            match crate::numtext::parse_number(t.as_str()) {
                Some(f) => Ok(f),
                None => Err(
                    String::from_str("Failed to parse result as number: ").concat(t.as_str()),
                ),
            }
        },
        ContentBlock::Stream(_) => Err(
            String::from_str("Text content is a stream, not inline text"),
        ),
    }
}

} // verus!
