//! The system utility provider: the current timestamp, a version 4 shaped
//! identifier derived from the clock, and base64 encoding and decoding of text.

use vstd::prelude::*;
use vstd::utf8::{decode_utf8, encode_utf8, valid_utf8};
use crate::arguments::{parse_text_arg, parsed_text, payload_text, ArgumentErrorView};
use crate::clock::{read_nanos, read_seconds};
use crate::encoding::{
    base64_decode, base64_decoding, base64_encode, base64_encoding, encodable, text_from_utf8,
};
use crate::json::json_document;
use crate::protocol::{
    described_tool, error_result, error_view, success_result, success_view, tool, tool_names,
    whole_listing, CallToolRequest, CallToolResult, CallToolResultView, ListToolsRequest,
    ListToolsResult, Tool, ToolView,
};
use crate::provider::Provider;
use crate::schema::{
    declared, parameter, parameter_views, render_schema, satisfies, schema_text, Parameter,
    ParameterKind, ParameterView,
};
use crate::text::{decimal_text, digit_char, hex_text, push_char, push_decimal, push_hex, same_text};

verus! {

/// The four tools of the provider, in declaration order.
#[derive(Debug, Clone, Copy, PartialEq, Eq, Structural)]
pub enum SystemTool {
    Timestamp,
    RandomUuid,
    Base64Encode,
    Base64Decode,
}

/// The name under which a tool is listed and invoked.
pub open spec fn tool_name(selected: SystemTool) -> Seq<char> {
    match selected {
        SystemTool::Timestamp => "timestamp"@,
        SystemTool::RandomUuid => "random_uuid"@,
        SystemTool::Base64Encode => "base64_encode"@,
        SystemTool::Base64Decode => "base64_decode"@,
    }
}

/// The parameters that a tool declares: none for the clock tools, the string
/// `text` for the base64 tools.
pub open spec fn declared_parameters(selected: SystemTool) -> Seq<ParameterView> {
    match selected {
        SystemTool::Timestamp => Seq::<ParameterView>::empty(),
        SystemTool::RandomUuid => Seq::<ParameterView>::empty(),
        SystemTool::Base64Encode => seq![
            declared("text"@, ParameterKind::Text, "Text to encode to base64"@),
        ],
        SystemTool::Base64Decode => seq![
            declared("text"@, ParameterKind::Text, "Base64 text to decode"@),
        ],
    }
}

/// The catalog entry of a tool.
pub open spec fn tool_view(selected: SystemTool) -> ToolView {
    let schema = schema_text(declared_parameters(selected));
    match selected {
        SystemTool::Timestamp => described_tool(
            tool_name(selected),
            schema,
            "Timestamp"@,
            "Get current Unix timestamp"@,
        ),
        SystemTool::RandomUuid => described_tool(
            tool_name(selected),
            schema,
            "Random UUID"@,
            "Generate a random UUID v4"@,
        ),
        SystemTool::Base64Encode => described_tool(
            tool_name(selected),
            schema,
            "Base64 Encode"@,
            "Encode string to base64"@,
        ),
        SystemTool::Base64Decode => described_tool(
            tool_name(selected),
            schema,
            "Base64 Decode"@,
            "Decode base64 to string"@,
        ),
    }
}

/// The tools of this provider, in declaration order.
pub open spec fn catalog() -> Seq<ToolView> {
    seq![
        tool_view(SystemTool::Timestamp),
        tool_view(SystemTool::RandomUuid),
        tool_view(SystemTool::Base64Encode),
        tool_view(SystemTool::Base64Decode),
    ]
}

/// Declares the one string `text` of a tool, with its description.
fn one_text(description: &str) -> (list: Vec<Parameter>)
    ensures
        parameter_views(list@) == seq![declared("text"@, ParameterKind::Text, description@)],
{
    let mut list = Vec::new();
    list.push(parameter("text", ParameterKind::Text, description));
    assert(parameter_views(list@) =~= seq![declared("text"@, ParameterKind::Text, description@)]);
    list
}

/// The parameters that a tool declares.
pub fn parameters(selected: SystemTool) -> (list: Vec<Parameter>)
    ensures
        parameter_views(list@) == declared_parameters(selected),
{
    match selected {
        SystemTool::Timestamp | SystemTool::RandomUuid => {
            let list: Vec<Parameter> = Vec::new();
            assert(parameter_views(list@) =~= Seq::<ParameterView>::empty());
            list
        },
        SystemTool::Base64Encode => one_text("Text to encode to base64"),
        SystemTool::Base64Decode => one_text("Base64 text to decode"),
    }
}

/// Builds the catalog entry of a tool.
pub fn describe(selected: SystemTool) -> (entry: Tool)
    ensures
        entry@ == tool_view(selected),
{
    let schema = render_schema(&parameters(selected));
    match selected {
        SystemTool::Timestamp => tool(
            "timestamp",
            schema.as_str(),
            "Timestamp",
            "Get current Unix timestamp",
        ),
        SystemTool::RandomUuid => tool(
            "random_uuid",
            schema.as_str(),
            "Random UUID",
            "Generate a random UUID v4",
        ),
        SystemTool::Base64Encode => tool(
            "base64_encode",
            schema.as_str(),
            "Base64 Encode",
            "Encode string to base64",
        ),
        SystemTool::Base64Decode => tool(
            "base64_decode",
            schema.as_str(),
            "Base64 Decode",
            "Decode base64 to string",
        ),
    }
}

/// Lists the provider's tools: the whole catalog on every call, whatever the cursor.
pub fn list_tools(request: &ListToolsRequest) -> (r: ListToolsResult)
    ensures
        r.tool_views() == catalog(),
        r.next_cursor is None,
        r.meta is None,
{
    let mut tools = Vec::new();
    tools.push(describe(SystemTool::Timestamp));
    tools.push(describe(SystemTool::RandomUuid));
    tools.push(describe(SystemTool::Base64Encode));
    tools.push(describe(SystemTool::Base64Decode));
    let r = whole_listing(tools);
    assert(r.tool_views() =~= catalog());
    r
}

/// The diagnostic for a clock that cannot be read as a time since the epoch.
pub open spec fn clock_failure(detail: Seq<char>) -> Seq<char> {
    "Failed to get timestamp: "@ + detail
}

/// The result of the timestamp tool for a clock reading: the whole seconds since
/// the epoch as a decimal numeral, or the failure to read the clock.
pub open spec fn timestamp_view(reading: Result<u64, Seq<char>>) -> CallToolResultView {
    match reading {
        Ok(seconds) => success_view(decimal_text(seconds as nat)),
        Err(detail) => error_view(clock_failure(detail)),
    }
}

/// Builds the diagnostic for a clock that cannot be read.
fn clock_failure_result(detail: String) -> (r: CallToolResult)
    ensures
        r@ == error_view(clock_failure(detail@)),
{
    let mut message = "Failed to get timestamp: ".to_owned();
    message.append(detail.as_str());
    error_result(message)
}

/// Reports a clock reading, in whole seconds since the epoch.
pub fn timestamp_result(reading: Result<u64, String>) -> (r: CallToolResult)
    ensures
        r@ == timestamp_view(
            match reading {
                Ok(seconds) => Ok(seconds),
                Err(detail) => Err(detail@),
            },
        ),
{
    match reading {
        Ok(seconds) => {
            let mut text = String::new();
            push_decimal(&mut text, seconds);
            success_result(text)
        },
        Err(detail) => clock_failure_result(detail),
    }
}

/// Reports the current time in whole seconds since the epoch.
///
/// The reading is the clock's, so nothing fixes the value: the result is the
/// report of some reading.
pub fn execute_timestamp() -> (r: CallToolResult)
    ensures
        exists|reading: Result<u64, Seq<char>>| r@ == #[trigger] timestamp_view(reading),
{
    match read_seconds() {
        Ok(seconds) => {
            let r = timestamp_result(Ok(seconds));
            assert(r@ == timestamp_view(Ok(seconds)));
            r
        },
        Err(detail) => {
            let ghost text = detail@;
            let r = timestamp_result(Err(detail));
            assert(r@ == timestamp_view(Err(text)));
            r
        },
    }
}

/// Sixteen bits derived from a clock reading in nanoseconds: the low bits of the
/// reading, multiplied by 40503 with wrap-around.
pub open spec fn mix16(nanos: u128) -> u16 {
    (((nanos % 0x1_0000) * 40503) % 0x1_0000) as u16
}

/// Thirty-two bits derived from a clock reading in nanoseconds: the low bits of
/// the reading, multiplied by 2654435761 with wrap-around.
pub open spec fn mix32(nanos: u128) -> u32 {
    (((nanos % 0x1_0000_0000) * 2654435761) % 0x1_0000_0000) as u32
}

/// Sixty-four bits derived from a clock reading in nanoseconds: the low bits of
/// the reading, multiplied by 11400714819323198485 with wrap-around.
pub open spec fn mix64(nanos: u128) -> u64 {
    (((nanos % 0x1_0000_0000_0000_0000) * 11400714819323198485) % 0x1_0000_0000_0000_0000) as u64
}

/// Derives sixteen bits from a clock reading. A pure function of the reading.
pub fn random_u16(nanos: u128) -> (r: u16)
    ensures
        r == mix16(nanos),
{
    let low = (nanos % 0x1_0000) as u16;
    low.wrapping_mul(40503)
}

/// Derives thirty-two bits from a clock reading. A pure function of the reading.
pub fn random_u32(nanos: u128) -> (r: u32)
    ensures
        r == mix32(nanos),
{
    let low = (nanos % 0x1_0000_0000) as u32;
    low.wrapping_mul(2654435761)
}

/// Derives sixty-four bits from a clock reading. A pure function of the reading.
pub fn random_u64(nanos: u128) -> (r: u64)
    ensures
        r == mix64(nanos),
{
    let low = (nanos % 0x1_0000_0000_0000_0000) as u64;
    low.wrapping_mul(11400714819323198485)
}

/// The third group of an identifier: twelve bits of `bits` under the version nibble 4.
pub open spec fn versioned(bits: u16) -> u16 {
    (bits & 0x0fff) | 0x4000
}

/// The fourth group of an identifier: fourteen bits of `bits` under the variant bits 10.
pub open spec fn varianted(bits: u16) -> u16 {
    (bits & 0x3fff) | 0x8000
}

/// The identifier text `8-4-4-4-12` made of five groups of hexadecimal digits.
pub open spec fn uuid_text(a: u32, b: u16, c: u16, d: u16, e: u64) -> Seq<char> {
    hex_text(a as nat, 8) + seq!['-'] + hex_text(b as nat, 4) + seq!['-'] + hex_text(
        versioned(c) as nat,
        4,
    ) + seq!['-'] + hex_text(varianted(d) as nat, 4) + seq!['-'] + hex_text(
        (e & 0xffff_ffff_ffff) as nat,
        12,
    )
}

/// Formats five groups of bits as a version 4 shaped identifier.
pub fn format_uuid(a: u32, b: u16, c: u16, d: u16, e: u64) -> (text: String)
    ensures
        text@ == uuid_text(a, b, c, d, e),
{
    let mut text = String::new();
    push_hex(&mut text, a as u64, 8);
    push_char(&mut text, '-');
    push_hex(&mut text, b as u64, 4);
    push_char(&mut text, '-');
    push_hex(&mut text, ((c & 0x0fff) | 0x4000) as u64, 4);
    push_char(&mut text, '-');
    push_hex(&mut text, ((d & 0x3fff) | 0x8000) as u64, 4);
    push_char(&mut text, '-');
    push_hex(&mut text, e & 0xffff_ffff_ffff, 12);
    assert(text@ =~= uuid_text(a, b, c, d, e));
    text
}

/// The identifier derived from five clock readings, one for each group.
pub open spec fn uuid_of_readings(n1: u128, n2: u128, n3: u128, n4: u128, n5: u128) -> Seq<char> {
    uuid_text(mix32(n1), mix16(n2), mix16(n3), mix16(n4), mix64(n5))
}

/// Builds the identifier for five clock readings, in nanoseconds.
pub fn uuid_result(n1: u128, n2: u128, n3: u128, n4: u128, n5: u128) -> (r: CallToolResult)
    ensures
        r@ == success_view(uuid_of_readings(n1, n2, n3, n4, n5)),
{
    success_result(
        format_uuid(
            random_u32(n1),
            random_u16(n2),
            random_u16(n3),
            random_u16(n4),
            random_u64(n5),
        ),
    )
}

/// Whether a result is what the identifier tool may return: the identifier of some
/// five clock readings, or the failure to read the clock.
pub open spec fn uuid_outcome(result: CallToolResultView) -> bool {
    ||| exists|n1: u128, n2: u128, n3: u128, n4: u128, n5: u128|
        result == success_view(#[trigger] uuid_of_readings(n1, n2, n3, n4, n5))
    ||| exists|detail: Seq<char>| result == error_view(#[trigger] clock_failure(detail))
}

/// Generates a version 4 shaped identifier from the clock.
///
/// The clock is read once for each group. The source is not cryptographically
/// secure, and identifiers may repeat under rapid calls.
pub fn execute_random_uuid() -> (r: CallToolResult)
    ensures
        uuid_outcome(r@),
{
    let n1 = match read_nanos() {
        Ok(n) => n,
        Err(detail) => { return clock_failure_result(detail); },
    };
    let n2 = match read_nanos() {
        Ok(n) => n,
        Err(detail) => { return clock_failure_result(detail); },
    };
    let n3 = match read_nanos() {
        Ok(n) => n,
        Err(detail) => { return clock_failure_result(detail); },
    };
    let n4 = match read_nanos() {
        Ok(n) => n,
        Err(detail) => { return clock_failure_result(detail); },
    };
    let n5 = match read_nanos() {
        Ok(n) => n,
        Err(detail) => { return clock_failure_result(detail); },
    };
    uuid_result(n1, n2, n3, n4, n5)
}

/// The diagnostic for a text whose bytes are too many to encode.
pub open spec fn too_long() -> Seq<char> {
    "Text too long to encode"@
}

/// The result of encoding a text: the standard base64 of its UTF-8 bytes.
pub open spec fn encoded_view(text: Seq<char>) -> CallToolResultView {
    if encodable(encode_utf8(text).len()) {
        success_view(base64_encoding(encode_utf8(text)))
    } else {
        error_view(too_long())
    }
}

/// The result of decoding: the text that the decoded bytes encode, or a diagnostic
/// for a text that is not base64 or for bytes that are not text.
pub open spec fn decoded_view(decoded: Result<Seq<u8>, Seq<char>>) -> CallToolResultView {
    match decoded {
        Err(detail) => error_view("Invalid base64: "@ + detail),
        Ok(bytes) => if valid_utf8(bytes) {
            success_view(decode_utf8(bytes))
        } else {
            error_view("Decoded data is not valid UTF-8 text"@)
        },
    }
}

/// The result of the encoding tool on what the payload parsed to.
pub open spec fn encode_outcome(parsed: Result<Seq<char>, ArgumentErrorView>) -> CallToolResultView {
    match parsed {
        Ok(text) => encoded_view(text),
        Err(error) => error_view(error.message()),
    }
}

/// The result of the decoding tool on what the payload parsed to.
pub open spec fn decode_outcome(parsed: Result<Seq<char>, ArgumentErrorView>) -> CallToolResultView {
    match parsed {
        Ok(text) => decoded_view(base64_decoding(text)),
        Err(error) => error_view(error.message()),
    }
}

/// Encodes the payload's text, as UTF-8 bytes, to standard base64.
pub fn execute_base64_encode(arguments: &Option<String>) -> (r: CallToolResult)
    ensures
        r@ == encode_outcome(parsed_text(payload_text(*arguments))),
{
    match parse_text_arg(arguments) {
        Ok(text) => {
            let data = text.as_str().as_bytes();
            if data.len() / 3 < usize::MAX / 4 {
                success_result(base64_encode(data))
            } else {
                error_result("Text too long to encode".to_owned())
            }
        },
        Err(error) => error_result(error.message()),
    }
}

/// Reports what a base64 text decoded to.
pub fn decoded_result(decoded: Result<Vec<u8>, String>) -> (r: CallToolResult)
    ensures
        r@ == decoded_view(
            match decoded {
                Ok(bytes) => Ok(bytes@),
                Err(detail) => Err(detail@),
            },
        ),
{
    match decoded {
        Ok(bytes) => match text_from_utf8(bytes) {
            Some(text) => success_result(text),
            None => error_result("Decoded data is not valid UTF-8 text".to_owned()),
        },
        Err(detail) => {
            let mut message = "Invalid base64: ".to_owned();
            message.append(detail.as_str());
            error_result(message)
        },
    }
}

/// Decodes the payload's text from standard base64 to the text that the bytes encode.
///
/// Decoding inverts encoding: a payload that holds the encoding of a text yields
/// that text.
pub fn execute_base64_decode(arguments: &Option<String>) -> (r: CallToolResult)
    ensures
        r@ == decode_outcome(parsed_text(payload_text(*arguments))),
        forall|plain: Seq<char>|
            parsed_text(payload_text(*arguments)) == Ok::<Seq<char>, ArgumentErrorView>(
                #[trigger] base64_encoding(encode_utf8(plain)),
            ) ==> r@ == success_view(plain),
{
    broadcast use {vstd::utf8::encode_utf8_valid_utf8, vstd::utf8::encode_utf8_decode_utf8};

    match parse_text_arg(arguments) {
        Ok(text) => decoded_result(base64_decode(text.as_str())),
        Err(error) => error_result(error.message()),
    }
}

/// The tool that a name selects, if it is one of this provider's.
pub open spec fn tool_named(name: Seq<char>) -> Option<SystemTool> {
    if name == "timestamp"@ {
        Some(SystemTool::Timestamp)
    } else if name == "random_uuid"@ {
        Some(SystemTool::RandomUuid)
    } else if name == "base64_encode"@ {
        Some(SystemTool::Base64Encode)
    } else if name == "base64_decode"@ {
        Some(SystemTool::Base64Decode)
    } else {
        None
    }
}

/// Selects the tool that a name stands for.
pub fn select_tool(name: &str) -> (selected: Option<SystemTool>)
    ensures
        selected == tool_named(name@),
{
    if same_text(name, "timestamp") {
        Some(SystemTool::Timestamp)
    } else if same_text(name, "random_uuid") {
        Some(SystemTool::RandomUuid)
    } else if same_text(name, "base64_encode") {
        Some(SystemTool::Base64Encode)
    } else if same_text(name, "base64_decode") {
        Some(SystemTool::Base64Decode)
    } else {
        None
    }
}

/// Whether `result` is a correct outcome of a tool on an optional payload. The two
/// clock tools take no parameters and ignore the payload.
pub open spec fn handled(
    selected: SystemTool,
    arguments: Option<Seq<char>>,
    result: CallToolResultView,
) -> bool {
    match selected {
        SystemTool::Timestamp => exists|reading: Result<u64, Seq<char>>|
            result == #[trigger] timestamp_view(reading),
        SystemTool::RandomUuid => uuid_outcome(result),
        SystemTool::Base64Encode => result == encode_outcome(parsed_text(arguments)),
        SystemTool::Base64Decode => result == decode_outcome(parsed_text(arguments)),
    }
}

/// Invokes the named tool on the request's payload.
///
/// A name that is not one of this provider's tools yields nothing, so that a host may
/// route the call elsewhere. A recognised name always yields a result: a rejected
/// payload, an undecodable text or an unreadable clock becomes a failure carrying
/// the diagnostic.
pub fn call_tool(request: &CallToolRequest) -> (r: Option<CallToolResult>)
    ensures
        match tool_named(request.name@) {
            None => r is None,
            Some(selected) => r matches Some(result) && handled(
                selected,
                payload_text(request.arguments),
                result@,
            ),
        },
{
    match select_tool(request.name.as_str()) {
        None => None,
        Some(SystemTool::Timestamp) => Some(execute_timestamp()),
        Some(SystemTool::RandomUuid) => Some(execute_random_uuid()),
        Some(SystemTool::Base64Encode) => Some(execute_base64_encode(&request.arguments)),
        Some(SystemTool::Base64Decode) => Some(execute_base64_decode(&request.arguments)),
    }
}

/// Bytes that are not valid UTF-8 never decode to a success: the result is flagged
/// as an error and says that the data is not text.
pub proof fn bytes_that_are_not_text_are_reported(bytes: Seq<u8>)
    requires
        !valid_utf8(bytes),
    ensures
        decoded_view(Ok(bytes)).is_error,
        decoded_view(Ok(bytes)) == error_view("Decoded data is not valid UTF-8 text"@),
{
}

/// A tool that takes parameters fails on an absent payload, with the diagnostic
/// "Missing arguments".
pub proof fn absent_payload_is_reported()
    ensures
        encode_outcome(parsed_text(None)) == error_view("Missing arguments"@),
        decode_outcome(parsed_text(None)) == error_view("Missing arguments"@),
        error_view("Missing arguments"@).is_error,
{
}

/// The base64 tools' parser accepts exactly what their schema declares: a payload
/// yields the text if and only if it is a JSON document that supplies every
/// parameter declared for the tool, as a string.
pub proof fn parser_accepts_what_is_declared(selected: SystemTool, text: Seq<char>)
    requires
        selected is Base64Encode || selected is Base64Decode,
    ensures
        parsed_text(Some(text)) is Ok <==> (json_document(text) matches Ok(document) && satisfies(
            document,
            declared_parameters(selected),
        )),
{
    let parameters = declared_parameters(selected);
    assert(parameters.len() == 1);
    assert(parameters[0].name == "text"@ && parameters[0].kind == ParameterKind::Text);
}

/// Every listed name selects the tool that it is listed for.
pub proof fn listed_names_select_their_tool(selected: SystemTool)
    ensures
        tool_named(tool_name(selected)) == Some(selected),
{
    reveal_strlit("timestamp");
    reveal_strlit("random_uuid");
    reveal_strlit("base64_encode");
    reveal_strlit("base64_decode");
    assert("timestamp"@.len() == 9 && "random_uuid"@.len() == 11 && "base64_encode"@.len() == 13
        && "base64_decode"@.len() == 13);
    assert("base64_encode"@[7] == 'e' && "base64_decode"@[7] == 'd');
}

/// The dispatcher recognises exactly the names that the catalog lists.
pub proof fn recognised_names_are_the_catalog(name: Seq<char>)
    ensures
        tool_named(name) is Some <==> tool_names(catalog()).contains(name),
{
    let names = tool_names(catalog());
    assert(names =~= seq!["timestamp"@, "random_uuid"@, "base64_encode"@, "base64_decode"@]);
    if tool_named(name) is Some {
        if name == "timestamp"@ {
            assert(names[0] == name);
        } else if name == "random_uuid"@ {
            assert(names[1] == name);
        } else if name == "base64_encode"@ {
            assert(names[2] == name);
        } else {
            assert(names[3] == name);
        }
    }
}

/// No two tools of the catalog share a name.
pub proof fn catalog_names_are_unique()
    ensures
        forall|i: int, j: int|
            0 <= i < j < catalog().len() ==> tool_names(catalog())[i] != tool_names(catalog())[j],
{
    reveal_strlit("timestamp");
    reveal_strlit("random_uuid");
    reveal_strlit("base64_encode");
    reveal_strlit("base64_decode");
    let names = tool_names(catalog());
    assert(names =~= seq!["timestamp"@, "random_uuid"@, "base64_encode"@, "base64_decode"@]);
    assert(names[0].len() == 9 && names[1].len() == 11 && names[2].len() == 13 && names[3].len()
        == 13);
    assert(names[2][7] == 'e' && names[3][7] == 'd');
    assert(catalog().len() == 4);
}

/// Whether a character is a hexadecimal digit in lower case.
pub open spec fn is_hex_digit(c: char) -> bool {
    let code = c as u32;
    (48 <= code <= 57) || (97 <= code <= 102)
}

/// A run of hexadecimal digits has the width asked for, and holds nothing but digits.
pub proof fn hex_text_is_digits(value: nat, width: nat)
    ensures
        hex_text(value, width).len() == width,
        forall|i: int| 0 <= i < width ==> is_hex_digit(#[trigger] hex_text(value, width)[i]),
    decreases width,
{
    if width > 0 {
        hex_text_is_digits(value / 16, (width - 1) as nat);
    }
}

/// The first of four hexadecimal digits writes the value's fourth nibble.
pub proof fn first_of_four_digits(value: nat)
    ensures
        hex_text(value, 4)[0] == digit_char(((value / 4096) % 16) as int),
{
    reveal_with_fuel(hex_text, 5);
    hex_text_is_digits(value / 16, 3);
    hex_text_is_digits(value / 16 / 16, 2);
    hex_text_is_digits(value / 16 / 16 / 16, 1);
    assert(value / 16 / 16 / 16 == value / 4096);
}

/// Every identifier has the shape of a version 4 UUID: five groups of 8, 4, 4, 4 and
/// 12 hexadecimal digits joined by hyphens, the third group led by the version 4
/// and the fourth by one of the variant digits 8, 9, a and b.
pub proof fn identifiers_are_version_4_shaped(a: u32, b: u16, c: u16, d: u16, e: u64)
    ensures
        uuid_text(a, b, c, d, e).len() == 36,
        forall|i: int|
            0 <= i < 36 ==> if i == 8 || i == 13 || i == 18 || i == 23 {
                #[trigger] uuid_text(a, b, c, d, e)[i] == '-'
            } else {
                is_hex_digit(uuid_text(a, b, c, d, e)[i])
            },
        uuid_text(a, b, c, d, e)[14] == '4',
        ({
            let variant = uuid_text(a, b, c, d, e)[19];
            variant == '8' || variant == '9' || variant == 'a' || variant == 'b'
        }),
{
    let g1 = hex_text(a as nat, 8);
    let g2 = hex_text(b as nat, 4);
    let g3 = hex_text(versioned(c) as nat, 4);
    let g4 = hex_text(varianted(d) as nat, 4);
    let g5 = hex_text((e & 0xffff_ffff_ffff) as nat, 12);
    hex_text_is_digits(a as nat, 8);
    hex_text_is_digits(b as nat, 4);
    hex_text_is_digits(versioned(c) as nat, 4);
    hex_text_is_digits(varianted(d) as nat, 4);
    hex_text_is_digits((e & 0xffff_ffff_ffff) as nat, 12);
    first_of_four_digits(versioned(c) as nat);
    first_of_four_digits(varianted(d) as nat);
    assert(((c & 0x0fff) | 0x4000) / 4096 == 4) by (bit_vector);
    assert(8 <= ((d & 0x3fff) | 0x8000) / 4096 <= 11) by (bit_vector);
    let text = uuid_text(a, b, c, d, e);
    assert(text.len() == 36);
    assert forall|i: int| 0 <= i < 36 implies if i == 8 || i == 13 || i == 18 || i == 23 {
        #[trigger] text[i] == '-'
    } else {
        is_hex_digit(text[i])
    } by {
        if i < 8 {
            assert(text[i] == g1[i]);
        } else if i == 8 {
        } else if i < 13 {
            assert(text[i] == g2[i - 9]);
        } else if i == 13 {
        } else if i < 18 {
            assert(text[i] == g3[i - 14]);
        } else if i == 18 {
        } else if i < 23 {
            assert(text[i] == g4[i - 19]);
        } else if i == 23 {
        } else {
            assert(text[i] == g5[i - 24]);
        }
    }
    assert(text[14] == g3[0]);
    assert(text[19] == g4[0]);
}

/// The system utility provider.
pub struct SystemInfo;

impl Provider for SystemInfo {
    open spec fn catalog(&self) -> Seq<ToolView> {
        catalog()
    }

    open spec fn ready(&self) -> bool {
        true
    }

    open spec fn serves(
        &self,
        name: Seq<char>,
        arguments: Option<Seq<char>>,
        result: CallToolResult,
    ) -> bool {
        match tool_named(name) {
            Some(selected) => handled(selected, arguments, result@),
            None => false,
        }
    }

    fn list_tools(&self, request: &ListToolsRequest) -> (r: ListToolsResult) {
        list_tools(request)
    }

    fn call_tool(&self, request: &CallToolRequest) -> (r: Option<CallToolResult>) {
        proof {
            recognised_names_are_the_catalog(request.name@);
        }
        call_tool(request)
    }
}

} // verus!
