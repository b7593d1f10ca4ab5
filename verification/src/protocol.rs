//! The values exchanged between a host and a provider.

use vstd::prelude::*;

verus! {

/// One unit of a result's payload. Providers only ever produce text.
#[derive(Debug, Clone, PartialEq, Eq)]
pub enum ContentBlock {
    Text { text: String },
}

/// Mathematical model of a [`ContentBlock`].
pub enum ContentBlockView {
    Text { text: Seq<char> },
}

impl View for ContentBlock {
    type V = ContentBlockView;

    open spec fn view(&self) -> ContentBlockView {
        match self {
            ContentBlock::Text { text } => ContentBlockView::Text { text: text@ },
        }
    }
}

/// The outcome of invoking a tool that the provider recognised.
///
/// `is_error` is a plain boolean: an absent flag and an explicit `false` are the same state.
#[derive(Debug, Clone, PartialEq, Eq)]
pub struct CallToolResult {
    pub content: Vec<ContentBlock>,
    pub is_error: bool,
    pub structured_content: Option<String>,
}

/// Mathematical model of a [`CallToolResult`].
pub struct CallToolResultView {
    pub content: Seq<ContentBlockView>,
    pub is_error: bool,
    pub structured_content: Option<Seq<char>>,
}

impl View for CallToolResult {
    type V = CallToolResultView;

    open spec fn view(&self) -> CallToolResultView {
        CallToolResultView {
            content: Seq::new(self.content@.len(), |i: int| self.content@[i]@),
            is_error: self.is_error,
            structured_content: match self.structured_content {
                Some(s) => Some(s@),
                None => None,
            },
        }
    }
}

impl CallToolResult {
    /// The string held by the first content block.
    pub open spec fn first_text(&self) -> String {
        match self.content@[0] {
            ContentBlock::Text { text } => text,
        }
    }
}

/// The result that carries `text` in a single text block, flagged as given.
pub open spec fn text_result(text: Seq<char>, is_error: bool) -> CallToolResultView {
    CallToolResultView {
        content: seq![ContentBlockView::Text { text }],
        is_error,
        structured_content: None,
    }
}

/// The successful result whose single text block is `text`.
pub open spec fn success_view(text: Seq<char>) -> CallToolResultView {
    text_result(text, false)
}

/// The failed result whose single text block is the diagnostic `message`.
pub open spec fn error_view(message: Seq<char>) -> CallToolResultView {
    text_result(message, true)
}

/// Wraps a computed value's text in a successful result.
pub fn success_result(result: String) -> (r: CallToolResult)
    ensures
        r@ == success_view(result@),
        r.first_text() == result,
{
    let mut content: Vec<ContentBlock> = Vec::new();
    content.push(ContentBlock::Text { text: result });
    let r = CallToolResult { content, is_error: false, structured_content: None };
    assert(r@.content =~= seq![ContentBlockView::Text { text: result@ }]);
    r
}

/// Wraps a diagnostic message in a failed result.
pub fn error_result(message: String) -> (r: CallToolResult)
    ensures
        r@ == error_view(message@),
        r.first_text() == message,
{
    let mut content: Vec<ContentBlock> = Vec::new();
    content.push(ContentBlock::Text { text: message });
    let r = CallToolResult { content, is_error: true, structured_content: None };
    assert(r@.content =~= seq![ContentBlockView::Text { text: message@ }]);
    r
}

/// Human-facing metadata of a tool.
#[derive(Debug, Clone, PartialEq, Eq)]
pub struct ToolOptions {
    pub meta: Option<String>,
    pub annotations: Option<String>,
    pub description: Option<String>,
    pub output_schema: Option<String>,
    pub title: Option<String>,
}

/// A named, schema-described operation that a provider exposes.
#[derive(Debug, Clone, PartialEq, Eq)]
pub struct Tool {
    pub name: String,
    /// A JSON Schema object, as text, describing the accepted parameters.
    pub input_schema: String,
    pub options: Option<ToolOptions>,
}

/// Mathematical model of [`ToolOptions`].
pub struct ToolOptionsView {
    pub meta: Option<Seq<char>>,
    pub annotations: Option<Seq<char>>,
    pub description: Option<Seq<char>>,
    pub output_schema: Option<Seq<char>>,
    pub title: Option<Seq<char>>,
}

/// Mathematical model of a [`Tool`].
pub struct ToolView {
    pub name: Seq<char>,
    pub input_schema: Seq<char>,
    pub options: Option<ToolOptionsView>,
}

/// The characters of an optional string.
pub open spec fn optional_text(text: Option<String>) -> Option<Seq<char>> {
    match text {
        Some(s) => Some(s@),
        None => None,
    }
}

impl View for ToolOptions {
    type V = ToolOptionsView;

    open spec fn view(&self) -> ToolOptionsView {
        ToolOptionsView {
            meta: optional_text(self.meta),
            annotations: optional_text(self.annotations),
            description: optional_text(self.description),
            output_schema: optional_text(self.output_schema),
            title: optional_text(self.title),
        }
    }
}

impl View for Tool {
    type V = ToolView;

    open spec fn view(&self) -> ToolView {
        ToolView {
            name: self.name@,
            input_schema: self.input_schema@,
            options: match self.options {
                Some(options) => Some(options@),
                None => None,
            },
        }
    }
}

/// The tool that carries a title and a description and no other metadata.
pub open spec fn described_tool(
    name: Seq<char>,
    input_schema: Seq<char>,
    title: Seq<char>,
    description: Seq<char>,
) -> ToolView {
    ToolView {
        name,
        input_schema,
        options: Some(
            ToolOptionsView {
                meta: None,
                annotations: None,
                description: Some(description),
                output_schema: None,
                title: Some(title),
            },
        ),
    }
}

/// Builds a catalog entry with a title and a description.
pub fn tool(name: &str, input_schema: &str, title: &str, description: &str) -> (t: Tool)
    ensures
        t@ == described_tool(name@, input_schema@, title@, description@),
{
    Tool {
        name: name.to_owned(),
        input_schema: input_schema.to_owned(),
        options: Some(
            ToolOptions {
                meta: None,
                annotations: None,
                description: Some(description.to_owned()),
                output_schema: None,
                title: Some(title.to_owned()),
            },
        ),
    }
}

/// A request for a provider's catalog. The cursor is accepted and ignored:
/// catalogs are returned whole.
#[derive(Debug, Clone, PartialEq, Eq)]
pub struct ListToolsRequest {
    pub cursor: Option<String>,
}

/// A provider's catalog, in declaration order.
#[derive(Debug, Clone, PartialEq, Eq)]
pub struct ListToolsResult {
    pub tools: Vec<Tool>,
    pub next_cursor: Option<String>,
    pub meta: Option<String>,
}

impl ListToolsResult {
    /// The models of the listed tools, in order.
    pub open spec fn tool_views(&self) -> Seq<ToolView> {
        Seq::new(self.tools@.len(), |i: int| self.tools@[i]@)
    }
}

/// The names of a catalog's tools, in order.
pub open spec fn tool_names(catalog: Seq<ToolView>) -> Seq<Seq<char>> {
    Seq::new(catalog.len(), |i: int| catalog[i].name)
}

/// The whole listing of a catalog: every tool, and no cursor to continue from.
pub fn whole_listing(tools: Vec<Tool>) -> (r: ListToolsResult)
    ensures
        r.tools == tools,
        r.next_cursor is None,
        r.meta is None,
{
    ListToolsResult { tools, next_cursor: None, meta: None }
}

/// A request to invoke the tool called `name`.
#[derive(Debug, Clone, PartialEq, Eq)]
pub struct CallToolRequest {
    pub name: String,
    /// A JSON object, as text, holding the tool's parameters.
    pub arguments: Option<String>,
}

/// What became of a call at one provider.
#[derive(Debug, Clone, PartialEq, Eq)]
pub enum Outcome {
    /// The name is not one of the provider's tools: the host may route the call elsewhere.
    NotHandled,
    /// The tool ran and produced a value.
    HandledSuccess(CallToolResult),
    /// The tool was recognised but the call failed; the result carries the diagnostic.
    HandledFailure(CallToolResult),
}

/// Tells the three outcomes of a call apart.
pub fn classify(answer: Option<CallToolResult>) -> (outcome: Outcome)
    ensures
        outcome == (match answer {
            None => Outcome::NotHandled,
            Some(result) => if result.is_error {
                Outcome::HandledFailure(result)
            } else {
                Outcome::HandledSuccess(result)
            },
        }),
{
    match answer {
        None => Outcome::NotHandled,
        Some(result) => if result.is_error {
            Outcome::HandledFailure(result)
        } else {
            Outcome::HandledSuccess(result)
        },
    }
}

/// A result built by the encoder is never empty: it holds exactly one text block,
/// and it is a failure exactly when it was built from a diagnostic.
pub proof fn encoded_results_hold_one_block(text: Seq<char>)
    ensures
        success_view(text).content.len() == 1,
        error_view(text).content.len() == 1,
        !success_view(text).is_error,
        error_view(text).is_error,
        success_view(text) != error_view(text),
{
}

} // verus!
