//! The string provider: case conversion, reversal and word counting on a text.

use vstd::prelude::*;
use crate::arguments::{parse_text_arg, parsed_text, payload_text, ArgumentErrorView};
use crate::json::json_document;
use crate::protocol::{
    described_tool, error_result, error_view, success_result, success_view, tool, tool_names,
    whole_listing, CallToolRequest, CallToolResult, CallToolResultView, ListToolsRequest,
    ListToolsResult, Tool, ToolView,
};
use crate::provider::Provider;
use crate::schema::{
    declared, parameter, parameter_views, render_schema, satisfies, schema_text, Parameter,
    ParameterKind, ParameterView,
};
use crate::text::{chars_of, decimal_text, push_char, push_decimal, same_text};

verus! {

/// The four tools of the provider, in declaration order.
#[derive(Debug, Clone, Copy, PartialEq, Eq, Structural)]
pub enum StringTool {
    Uppercase,
    Lowercase,
    Reverse,
    WordCount,
}

/// The name under which a tool is listed and invoked.
pub open spec fn tool_name(selected: StringTool) -> Seq<char> {
    match selected {
        StringTool::Uppercase => "uppercase"@,
        StringTool::Lowercase => "lowercase"@,
        StringTool::Reverse => "reverse"@,
        StringTool::WordCount => "word_count"@,
    }
}

/// The parameters that a tool declares: the string `text`.
pub open spec fn declared_parameters(selected: StringTool) -> Seq<ParameterView> {
    match selected {
        StringTool::Uppercase => seq![
            declared("text"@, ParameterKind::Text, "Text to convert to uppercase"@),
        ],
        StringTool::Lowercase => seq![
            declared("text"@, ParameterKind::Text, "Text to convert to lowercase"@),
        ],
        StringTool::Reverse => seq![declared("text"@, ParameterKind::Text, "Text to reverse"@)],
        StringTool::WordCount => seq![
            declared("text"@, ParameterKind::Text, "Text to count words in"@),
        ],
    }
}

/// The catalog entry of a tool.
pub open spec fn tool_view(selected: StringTool) -> ToolView {
    let schema = schema_text(declared_parameters(selected));
    match selected {
        StringTool::Uppercase => described_tool(
            tool_name(selected),
            schema,
            "Uppercase"@,
            "Convert text to uppercase"@,
        ),
        StringTool::Lowercase => described_tool(
            tool_name(selected),
            schema,
            "Lowercase"@,
            "Convert text to lowercase"@,
        ),
        StringTool::Reverse => described_tool(tool_name(selected), schema, "Reverse"@, "Reverse a string"@),
        StringTool::WordCount => described_tool(
            tool_name(selected),
            schema,
            "Word Count"@,
            "Count words in text"@,
        ),
    }
}

/// The tools of this provider, in declaration order.
pub open spec fn catalog() -> Seq<ToolView> {
    seq![
        tool_view(StringTool::Uppercase),
        tool_view(StringTool::Lowercase),
        tool_view(StringTool::Reverse),
        tool_view(StringTool::WordCount),
    ]
}

/// Declares the one string `text` of a tool, with its description.
fn one_text(description: &str) -> (list: Vec<Parameter>)
    ensures
        parameter_views(list@) == seq![declared("text"@, ParameterKind::Text, description@)],
{
    let mut list = Vec::new();
    list.push(parameter("text", ParameterKind::Text, description));
    assert(parameter_views(list@) =~= seq![declared("text"@, ParameterKind::Text, description@)]);
    list
}

/// The parameters that a tool declares.
pub fn parameters(selected: StringTool) -> (list: Vec<Parameter>)
    ensures
        parameter_views(list@) == declared_parameters(selected),
{
    match selected {
        StringTool::Uppercase => one_text("Text to convert to uppercase"),
        StringTool::Lowercase => one_text("Text to convert to lowercase"),
        StringTool::Reverse => one_text("Text to reverse"),
        StringTool::WordCount => one_text("Text to count words in"),
    }
}

/// Builds the catalog entry of a tool.
pub fn describe(selected: StringTool) -> (entry: Tool)
    ensures
        entry@ == tool_view(selected),
{
    let schema = render_schema(&parameters(selected));
    match selected {
        StringTool::Uppercase => tool(
            "uppercase",
            schema.as_str(),
            "Uppercase",
            "Convert text to uppercase",
        ),
        StringTool::Lowercase => tool(
            "lowercase",
            schema.as_str(),
            "Lowercase",
            "Convert text to lowercase",
        ),
        StringTool::Reverse => tool("reverse", schema.as_str(), "Reverse", "Reverse a string"),
        StringTool::WordCount => tool(
            "word_count",
            schema.as_str(),
            "Word Count",
            "Count words in text",
        ),
    }
}

/// Lists the provider's tools: the whole catalog on every call, whatever the cursor.
pub fn list_tools(request: &ListToolsRequest) -> (r: ListToolsResult)
    ensures
        r.tool_views() == catalog(),
        r.next_cursor is None,
        r.meta is None,
{
    let mut tools = Vec::new();
    tools.push(describe(StringTool::Uppercase));
    tools.push(describe(StringTool::Lowercase));
    tools.push(describe(StringTool::Reverse));
    tools.push(describe(StringTool::WordCount));
    let r = whole_listing(tools);
    assert(r.tool_views() =~= catalog());
    r
}

/// What `str::to_uppercase` makes of a text.
pub uninterp spec fn uppercase_of(text: Seq<char>) -> Seq<char>;

/// What `str::to_lowercase` makes of a text.
pub uninterp spec fn lowercase_of(text: Seq<char>) -> Seq<char>;

/// Whether `char::is_whitespace` holds of a character.
pub uninterp spec fn whitespace(c: char) -> bool;

/// Calls `str::to_uppercase`.
///
/// Trusted: the outcome depends on the text alone, by the Unicode case mapping
/// that the standard library carries.
#[verifier::external_body]
pub(crate) fn to_uppercase(text: &str) -> (r: String)
    ensures
        r@ == uppercase_of(text@),
{
    text.to_uppercase()
}

/// Calls `str::to_lowercase`.
///
/// Trusted: the outcome depends on the text alone, by the Unicode case mapping
/// that the standard library carries.
#[verifier::external_body]
pub(crate) fn to_lowercase(text: &str) -> (r: String)
    ensures
        r@ == lowercase_of(text@),
{
    text.to_lowercase()
}

/// Calls `char::is_whitespace`.
///
/// Trusted: the outcome depends on the character alone, by the Unicode
/// `White_Space` property.
#[verifier::external_body]
pub(crate) fn is_whitespace(c: char) -> (r: bool)
    ensures
        r == whitespace(c),
{
    c.is_whitespace()
}

/// Whether a word begins at position `i`: a character that is not whitespace, at
/// the start of the text or right after whitespace.
pub open spec fn word_starts_at(text: Seq<char>, i: int) -> bool {
    &&& 0 <= i < text.len()
    &&& !whitespace(text[i])
    &&& (i == 0 || whitespace(text[i - 1]))
}

/// The number of words in a text: its maximal runs of characters that are not whitespace.
pub open spec fn word_count(text: Seq<char>) -> nat
    decreases text.len(),
{
    if text.len() == 0 {
        0
    } else {
        word_count(text.drop_last()) + if word_starts_at(text, text.len() - 1) {
            1nat
        } else {
            0nat
        }
    }
}

/// The report of a word count: the decimal numeral, then " words".
pub open spec fn word_count_text(text: Seq<char>) -> Seq<char> {
    decimal_text(word_count(text)) + " words"@
}

/// The characters of a text in reverse order.
pub fn reverse(text: &str) -> (r: String)
    ensures
        r@ == text@.reverse(),
{
    let chars = chars_of(text);
    let mut out = String::new();
    let mut i: usize = chars.len();
    while i > 0
        invariant
            i <= chars.len(),
            chars@ == text@,
            out@ == text@.reverse().subrange(0, chars.len() - i),
        decreases i,
    {
        i -= 1;
        push_char(&mut out, chars[i]);
        assert(out@ =~= text@.reverse().subrange(0, chars.len() - i));
    }
    assert(out@ =~= text@.reverse());
    out
}

/// Counts the words of a text.
pub fn count_words(text: &str) -> (count: usize)
    ensures
        count == word_count(text@),
{
    let chars = chars_of(text);
    let mut count: usize = 0;
    let mut in_word = false;
    let mut i: usize = 0;
    while i < chars.len()
        invariant
            i <= chars.len(),
            chars@ == text@,
            count <= i,
            count == word_count(text@.subrange(0, i as int)),
            in_word == (i > 0 && !whitespace(text@[i - 1])),
        decreases chars.len() - i,
    {
        let space = is_whitespace(chars[i]);
        proof {
            let next = text@.subrange(0, i + 1);
            assert(next.drop_last() =~= text@.subrange(0, i as int));
            assert(word_starts_at(next, i as int) == (!space && !in_word));
        }
        if !space && !in_word {
            count += 1;
        }
        in_word = !space;
        i += 1;
    }
    assert(text@.subrange(0, i as int) =~= text@);
    count
}

/// The tool that a name selects, if it is one of this provider's.
pub open spec fn tool_named(name: Seq<char>) -> Option<StringTool> {
    if name == "uppercase"@ {
        Some(StringTool::Uppercase)
    } else if name == "lowercase"@ {
        Some(StringTool::Lowercase)
    } else if name == "reverse"@ {
        Some(StringTool::Reverse)
    } else if name == "word_count"@ {
        Some(StringTool::WordCount)
    } else {
        None
    }
}

/// Selects the tool that a name stands for.
pub fn select_tool(name: &str) -> (selected: Option<StringTool>)
    ensures
        selected == tool_named(name@),
{
    if same_text(name, "uppercase") {
        Some(StringTool::Uppercase)
    } else if same_text(name, "lowercase") {
        Some(StringTool::Lowercase)
    } else if same_text(name, "reverse") {
        Some(StringTool::Reverse)
    } else if same_text(name, "word_count") {
        Some(StringTool::WordCount)
    } else {
        None
    }
}

/// The text that a tool makes of its input.
pub open spec fn transformed(selected: StringTool, text: Seq<char>) -> Seq<char> {
    match selected {
        StringTool::Uppercase => uppercase_of(text),
        StringTool::Lowercase => lowercase_of(text),
        StringTool::Reverse => text.reverse(),
        StringTool::WordCount => word_count_text(text),
    }
}

/// The result of a tool on what the payload parsed to: the transformed text as a
/// success, or the parser's diagnostic as a failure.
pub open spec fn outcome(
    selected: StringTool,
    parsed: Result<Seq<char>, ArgumentErrorView>,
) -> CallToolResultView {
    match parsed {
        Ok(text) => success_view(transformed(selected, text)),
        Err(error) => error_view(error.message()),
    }
}

/// Converts the payload's text to upper case.
pub fn execute_uppercase(arguments: &Option<String>) -> (r: CallToolResult)
    ensures
        r@ == outcome(StringTool::Uppercase, parsed_text(payload_text(*arguments))),
{
    match parse_text_arg(arguments) {
        Ok(text) => success_result(to_uppercase(text.as_str())),
        Err(error) => error_result(error.message()),
    }
}

/// Converts the payload's text to lower case.
pub fn execute_lowercase(arguments: &Option<String>) -> (r: CallToolResult)
    ensures
        r@ == outcome(StringTool::Lowercase, parsed_text(payload_text(*arguments))),
{
    match parse_text_arg(arguments) {
        Ok(text) => success_result(to_lowercase(text.as_str())),
        Err(error) => error_result(error.message()),
    }
}

/// Reverses the payload's text, character by character.
pub fn execute_reverse(arguments: &Option<String>) -> (r: CallToolResult)
    ensures
        r@ == outcome(StringTool::Reverse, parsed_text(payload_text(*arguments))),
{
    match parse_text_arg(arguments) {
        Ok(text) => success_result(reverse(text.as_str())),
        Err(error) => error_result(error.message()),
    }
}

/// Counts the words of the payload's text and reports the count as `"<n> words"`.
pub fn execute_word_count(arguments: &Option<String>) -> (r: CallToolResult)
    ensures
        r@ == outcome(StringTool::WordCount, parsed_text(payload_text(*arguments))),
{
    match parse_text_arg(arguments) {
        Ok(text) => {
            let count = count_words(text.as_str());
            let mut report = String::new();
            push_decimal(&mut report, count as u64);
            report.append(" words");
            assert(report@ =~= word_count_text(text@));
            success_result(report)
        },
        Err(error) => error_result(error.message()),
    }
}

/// Invokes the named tool on the request's payload.
///
/// A name that is not one of this provider's tools yields nothing, so that a host may
/// route the call elsewhere. A recognised name always yields a result: a rejected
/// payload becomes a failure carrying the diagnostic.
pub fn call_tool(request: &CallToolRequest) -> (r: Option<CallToolResult>)
    ensures
        match tool_named(request.name@) {
            None => r is None,
            Some(selected) => r matches Some(result) && result@ == outcome(
                selected,
                parsed_text(payload_text(request.arguments)),
            ),
        },
{
    match select_tool(request.name.as_str()) {
        None => None,
        Some(StringTool::Uppercase) => Some(execute_uppercase(&request.arguments)),
        Some(StringTool::Lowercase) => Some(execute_lowercase(&request.arguments)),
        Some(StringTool::Reverse) => Some(execute_reverse(&request.arguments)),
        Some(StringTool::WordCount) => Some(execute_word_count(&request.arguments)),
    }
}

/// Reversal is an involution: reversing twice gives the text back.
pub proof fn reverse_is_an_involution(text: Seq<char>)
    ensures
        transformed(StringTool::Reverse, transformed(StringTool::Reverse, text)) == text,
{
    assert(text.reverse().reverse() =~= text);
}

/// A text without characters has no words.
pub proof fn empty_text_has_no_words()
    ensures
        word_count(Seq::<char>::empty()) == 0,
        word_count_text(Seq::<char>::empty()) == "0 words"@,
{
    reveal_strlit("0 words");
    reveal_strlit(" words");
    assert(decimal_text(0) =~= seq!['0']);
    assert(word_count_text(Seq::<char>::empty()) =~= "0 words"@);
}

/// A tool that takes parameters fails on an absent payload, with the diagnostic
/// "Missing arguments".
pub proof fn absent_payload_is_reported(selected: StringTool)
    ensures
        outcome(selected, parsed_text(None)) == error_view("Missing arguments"@),
        outcome(selected, parsed_text(None)).is_error,
{
}

/// The parser accepts exactly what the schema declares: a payload yields the text
/// if and only if it is a JSON document that supplies every parameter declared for
/// the tool, as a string.
pub proof fn parser_accepts_what_is_declared(selected: StringTool, text: Seq<char>)
    ensures
        parsed_text(Some(text)) is Ok <==> (json_document(text) matches Ok(document) && satisfies(
            document,
            declared_parameters(selected),
        )),
{
    let parameters = declared_parameters(selected);
    assert(parameters.len() == 1);
    assert(parameters[0].name == "text"@ && parameters[0].kind == ParameterKind::Text);
}

/// Every listed name selects the tool that it is listed for.
pub proof fn listed_names_select_their_tool(selected: StringTool)
    ensures
        tool_named(tool_name(selected)) == Some(selected),
{
    reveal_strlit("uppercase");
    reveal_strlit("lowercase");
    reveal_strlit("reverse");
    reveal_strlit("word_count");
    assert("uppercase"@.len() == 9 && "lowercase"@.len() == 9 && "reverse"@.len() == 7
        && "word_count"@.len() == 10);
    assert("uppercase"@[0] == 'u' && "lowercase"@[0] == 'l');
}

/// The dispatcher recognises exactly the names that the catalog lists.
pub proof fn recognised_names_are_the_catalog(name: Seq<char>)
    ensures
        tool_named(name) is Some <==> tool_names(catalog()).contains(name),
{
    let names = tool_names(catalog());
    assert(names =~= seq!["uppercase"@, "lowercase"@, "reverse"@, "word_count"@]);
    if tool_named(name) is Some {
        if name == "uppercase"@ {
            assert(names[0] == name);
        } else if name == "lowercase"@ {
            assert(names[1] == name);
        } else if name == "reverse"@ {
            assert(names[2] == name);
        } else {
            assert(names[3] == name);
        }
    }
}

/// No two tools of the catalog share a name.
pub proof fn catalog_names_are_unique()
    ensures
        forall|i: int, j: int|
            0 <= i < j < catalog().len() ==> tool_names(catalog())[i] != tool_names(catalog())[j],
{
    reveal_strlit("uppercase");
    reveal_strlit("lowercase");
    reveal_strlit("reverse");
    reveal_strlit("word_count");
    let names = tool_names(catalog());
    assert(names =~= seq!["uppercase"@, "lowercase"@, "reverse"@, "word_count"@]);
    assert(names[0].len() == 9 && names[1].len() == 9 && names[2].len() == 7 && names[3].len()
        == 10);
    assert(names[0][0] == 'u' && names[1][0] == 'l');
    assert(catalog().len() == 4);
}

/// The string provider.
pub struct StringUtils;

impl Provider for StringUtils {
    open spec fn catalog(&self) -> Seq<ToolView> {
        catalog()
    }

    open spec fn ready(&self) -> bool {
        true
    }

    open spec fn serves(
        &self,
        name: Seq<char>,
        arguments: Option<Seq<char>>,
        result: CallToolResult,
    ) -> bool {
        match tool_named(name) {
            Some(selected) => result@ == outcome(selected, parsed_text(arguments)),
            None => false,
        }
    }

    fn list_tools(&self, request: &ListToolsRequest) -> (r: ListToolsResult) {
        list_tools(request)
    }

    fn call_tool(&self, request: &CallToolRequest) -> (r: Option<CallToolResult>) {
        proof {
            recognised_names_are_the_catalog(request.name@);
        }
        call_tool(request)
    }
}

} // verus!
