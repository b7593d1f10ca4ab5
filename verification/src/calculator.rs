//! The arithmetic provider: add, subtract, multiply and divide on two numbers.
//!
//! The provider validates the payload, refuses a zero divisor and encodes the
//! outcome. The arithmetic on doubles itself is supplied by the caller, as a
//! function from the operands to the text of the result.

use vstd::prelude::*;
use crate::arguments::{
    parse_args, parsed_numbers, payload_text, zero_bits, ArgumentErrorView, Number,
};
use crate::json::json_document;
use crate::protocol::{
    described_tool, error_result, error_view, success_result, success_view, tool, tool_names,
    whole_listing, CallToolRequest, CallToolResult, ListToolsRequest, ListToolsResult, Tool,
    ToolView,
};
use crate::provider::Provider;
use crate::schema::{
    declared, parameter, parameter_views, render_schema, satisfies, schema_text, Parameter,
    ParameterKind, ParameterView,
};
use crate::text::{contains_text, same_text};

verus! {

/// The four operations of the provider, in declaration order.
#[derive(Debug, Clone, Copy, PartialEq, Eq, Structural)]
pub enum Operation {
    Add,
    Subtract,
    Multiply,
    Divide,
}

/// The name under which an operation is listed and invoked.
pub open spec fn tool_name(op: Operation) -> Seq<char> {
    match op {
        Operation::Add => "add"@,
        Operation::Subtract => "subtract"@,
        Operation::Multiply => "multiply"@,
        Operation::Divide => "divide"@,
    }
}

/// The parameters that an operation declares: the two numbers `a` and `b`.
pub open spec fn declared_parameters(op: Operation) -> Seq<ParameterView> {
    match op {
        Operation::Add => seq![
            declared("a"@, ParameterKind::Number, "First number"@),
            declared("b"@, ParameterKind::Number, "Second number"@),
        ],
        Operation::Subtract => seq![
            declared("a"@, ParameterKind::Number, "Number to subtract from"@),
            declared("b"@, ParameterKind::Number, "Number to subtract"@),
        ],
        Operation::Multiply => seq![
            declared("a"@, ParameterKind::Number, "First number"@),
            declared("b"@, ParameterKind::Number, "Second number"@),
        ],
        Operation::Divide => seq![
            declared("a"@, ParameterKind::Number, "Dividend"@),
            declared("b"@, ParameterKind::Number, "Divisor"@),
        ],
    }
}

/// The catalog entry of an operation.
pub open spec fn tool_view(op: Operation) -> ToolView {
    let schema = schema_text(declared_parameters(op));
    match op {
        Operation::Add => described_tool(tool_name(op), schema, "Add"@, "Add two numbers together"@),
        Operation::Subtract => described_tool(tool_name(op), schema, "Subtract"@, "Subtract b from a"@),
        Operation::Multiply => described_tool(
            tool_name(op),
            schema,
            "Multiply"@,
            "Multiply two numbers"@,
        ),
        Operation::Divide => described_tool(tool_name(op), schema, "Divide"@, "Divide a by b"@),
    }
}

/// The tools of this provider, in declaration order.
pub open spec fn catalog() -> Seq<ToolView> {
    seq![
        tool_view(Operation::Add),
        tool_view(Operation::Subtract),
        tool_view(Operation::Multiply),
        tool_view(Operation::Divide),
    ]
}

/// Declares the two numbers of an operation, with their descriptions.
fn two_numbers(first: &str, second: &str) -> (list: Vec<Parameter>)
    ensures
        parameter_views(list@) == seq![
            declared("a"@, ParameterKind::Number, first@),
            declared("b"@, ParameterKind::Number, second@),
        ],
{
    let mut list = Vec::new();
    list.push(parameter("a", ParameterKind::Number, first));
    list.push(parameter("b", ParameterKind::Number, second));
    assert(parameter_views(list@) =~= seq![
        declared("a"@, ParameterKind::Number, first@),
        declared("b"@, ParameterKind::Number, second@),
    ]);
    list
}

/// The parameters that an operation declares.
pub fn parameters(op: Operation) -> (list: Vec<Parameter>)
    ensures
        parameter_views(list@) == declared_parameters(op),
{
    match op {
        Operation::Add => two_numbers("First number", "Second number"),
        Operation::Subtract => two_numbers("Number to subtract from", "Number to subtract"),
        Operation::Multiply => two_numbers("First number", "Second number"),
        Operation::Divide => two_numbers("Dividend", "Divisor"),
    }
}

/// Builds the catalog entry of an operation.
pub fn describe(op: Operation) -> (entry: Tool)
    ensures
        entry@ == tool_view(op),
{
    let schema = render_schema(&parameters(op));
    match op {
        Operation::Add => tool("add", schema.as_str(), "Add", "Add two numbers together"),
        Operation::Subtract => tool("subtract", schema.as_str(), "Subtract", "Subtract b from a"),
        Operation::Multiply => tool(
            "multiply",
            schema.as_str(),
            "Multiply",
            "Multiply two numbers",
        ),
        Operation::Divide => tool("divide", schema.as_str(), "Divide", "Divide a by b"),
    }
}

/// Lists the provider's tools: the whole catalog on every call, whatever the cursor.
pub fn list_tools(request: &ListToolsRequest) -> (r: ListToolsResult)
    ensures
        r.tool_views() == catalog(),
        r.next_cursor is None,
        r.meta is None,
{
    let mut tools = Vec::new();
    tools.push(describe(Operation::Add));
    tools.push(describe(Operation::Subtract));
    tools.push(describe(Operation::Multiply));
    tools.push(describe(Operation::Divide));
    let r = whole_listing(tools);
    assert(r.tool_views() =~= catalog());
    r
}

/// The operation that a tool name selects, if it is one of this provider's.
pub open spec fn operation_named(name: Seq<char>) -> Option<Operation> {
    if name == "add"@ {
        Some(Operation::Add)
    } else if name == "subtract"@ {
        Some(Operation::Subtract)
    } else if name == "multiply"@ {
        Some(Operation::Multiply)
    } else if name == "divide"@ {
        Some(Operation::Divide)
    } else {
        None
    }
}

/// Selects the operation that a tool name stands for.
pub fn select_operation(name: &str) -> (op: Option<Operation>)
    ensures
        op == operation_named(name@),
{
    if same_text(name, "add") {
        Some(Operation::Add)
    } else if same_text(name, "subtract") {
        Some(Operation::Subtract)
    } else if same_text(name, "multiply") {
        Some(Operation::Multiply)
    } else if same_text(name, "divide") {
        Some(Operation::Divide)
    } else {
        None
    }
}

/// The message that reports a zero divisor.
pub open spec fn division_by_zero() -> Seq<char> {
    "Error: Division by zero"@
}

/// Whether `result` is a correct outcome of applying `op` to what the payload parsed to:
/// the parser's diagnostic as a failure, or a text that `op` returned for the two
/// numbers as a success.
pub open spec fn applied<F: FnOnce(Number, Number) -> String>(
    op: F,
    parsed: Result<(Number, Number), ArgumentErrorView>,
    result: CallToolResult,
) -> bool {
    match parsed {
        Err(error) => result@ == error_view(error.message()),
        Ok(pair) => op.ensures(pair, result.first_text()) && result@ == success_view(
            result.first_text()@,
        ),
    }
}

/// Whether `result` is a correct outcome of dividing what the payload parsed to: a zero
/// divisor is reported as a failure before any division takes place.
pub open spec fn divided<F: FnOnce(Number, Number) -> String>(
    divide: F,
    parsed: Result<(Number, Number), ArgumentErrorView>,
    result: CallToolResult,
) -> bool {
    match parsed {
        Ok(pair) if zero_bits(pair.1.bits) => result@ == error_view(division_by_zero()),
        _ => applied(divide, parsed, result),
    }
}

/// Runs a total operation on the payload's two numbers.
pub fn execute_operation<F>(arguments: &Option<String>, op: F) -> (r: CallToolResult) where
    F: FnOnce(Number, Number) -> String,

    requires
        forall|a: Number, b: Number| op.requires((a, b)),
    ensures
        applied(op, parsed_numbers(payload_text(*arguments)), r),
{
    match parse_args(arguments) {
        Ok((a, b)) => success_result(op(a, b)),
        Err(error) => error_result(error.message()),
    }
}

/// Divides the payload's first number by its second, unless the second is zero.
pub fn execute_divide<F>(arguments: &Option<String>, divide: F) -> (r: CallToolResult) where
    F: FnOnce(Number, Number) -> String,

    requires
        forall|a: Number, b: Number| !zero_bits(b.bits) ==> divide.requires((a, b)),
    ensures
        divided(divide, parsed_numbers(payload_text(*arguments)), r),
{
    match parse_args(arguments) {
        Ok((a, b)) => {
            if b.is_zero() {
                error_result("Error: Division by zero".to_owned())
            } else {
                success_result(divide(a, b))
            }
        },
        Err(error) => error_result(error.message()),
    }
}

/// Whether `result` is a correct outcome of invoking `op` on what the payload parsed to,
/// with the arithmetic done by `evaluate`.
pub open spec fn handled<E: Fn(Operation, Number, Number) -> String>(
    evaluate: E,
    op: Operation,
    parsed: Result<(Number, Number), ArgumentErrorView>,
    result: CallToolResult,
) -> bool {
    match parsed {
        Err(error) => result@ == error_view(error.message()),
        Ok(pair) => if op == Operation::Divide && zero_bits(pair.1.bits) {
            result@ == error_view(division_by_zero())
        } else {
            evaluate.ensures((op, pair.0, pair.1), result.first_text()) && result@
                == success_view(result.first_text()@)
        },
    }
}

/// Whether `evaluate` may be called on every operation and pair of numbers, except
/// for a division by zero, which the provider never asks for.
pub open spec fn accepts_every_operation<E: Fn(Operation, Number, Number) -> String>(
    evaluate: E,
) -> bool {
    forall|op: Operation, a: Number, b: Number|
        !(op == Operation::Divide && zero_bits(b.bits)) ==> evaluate.requires((op, a, b))
}

/// Invokes the named tool on the request's payload.
///
/// A name that is not one of this provider's tools yields nothing, so that a host may
/// route the call elsewhere. A recognised name always yields a result: a rejected payload
/// or a zero divisor becomes a failure carrying the diagnostic.
pub fn call_tool<E>(request: &CallToolRequest, evaluate: &E) -> (r: Option<CallToolResult>) where
    E: Fn(Operation, Number, Number) -> String,

    requires
        accepts_every_operation(*evaluate),
    ensures
        match operation_named(request.name@) {
            None => r is None,
            Some(op) => r matches Some(result) && handled(
                *evaluate,
                op,
                parsed_numbers(payload_text(request.arguments)),
                result,
            ),
        },
{
    match select_operation(request.name.as_str()) {
        None => None,
        Some(Operation::Divide) => {
            let divide = |a: Number, b: Number| -> (text: String)
                requires
                    !zero_bits(b.bits),
                ensures
                    evaluate.ensures((Operation::Divide, a, b), text),
            {
                evaluate(Operation::Divide, a, b)
            };
            Some(execute_divide(&request.arguments, divide))
        },
        Some(op) => {
            let total = |a: Number, b: Number| -> (text: String)
                ensures
                    evaluate.ensures((op, a, b), text),
            {
                evaluate(op, a, b)
            };
            Some(execute_operation(&request.arguments, total))
        },
    }
}

/// A tool that takes parameters fails on an absent payload, with the diagnostic
/// "Missing arguments".
pub proof fn absent_payload_is_reported<E: Fn(Operation, Number, Number) -> String>(
    evaluate: E,
    op: Operation,
    result: CallToolResult,
)
    requires
        handled(evaluate, op, parsed_numbers(None), result),
    ensures
        result@ == error_view("Missing arguments"@),
        result@.is_error,
{
}

/// The parser accepts exactly what the schema declares: a payload yields the two
/// numbers if and only if it is a JSON document that supplies every parameter
/// declared for the operation, each as a number.
pub proof fn parser_accepts_what_is_declared(op: Operation, text: Seq<char>)
    ensures
        parsed_numbers(Some(text)) is Ok <==> (json_document(text) matches Ok(document)
            && satisfies(document, declared_parameters(op))),
{
    let parameters = declared_parameters(op);
    assert(parameters.len() == 2);
    assert(parameters[0].name == "a"@ && parameters[0].kind == ParameterKind::Number);
    assert(parameters[1].name == "b"@ && parameters[1].kind == ParameterKind::Number);
}

/// Every listed name selects the operation that it is listed for.
pub proof fn listed_names_select_their_operation(op: Operation)
    ensures
        operation_named(tool_name(op)) == Some(op),
{
    reveal_strlit("add");
    reveal_strlit("subtract");
    reveal_strlit("multiply");
    reveal_strlit("divide");
    assert("add"@.len() == 3 && "subtract"@.len() == 8 && "multiply"@.len() == 8 && "divide"@.len()
        == 6);
    assert("subtract"@[0] == 's' && "multiply"@[0] == 'm');
}

/// The dispatcher recognises exactly the names that the catalog lists.
pub proof fn recognised_names_are_the_catalog(name: Seq<char>)
    ensures
        operation_named(name) is Some <==> tool_names(catalog()).contains(name),
{
    let names = tool_names(catalog());
    assert(names =~= seq!["add"@, "subtract"@, "multiply"@, "divide"@]);
    if operation_named(name) is Some {
        if name == "add"@ {
            assert(names[0] == name);
        } else if name == "subtract"@ {
            assert(names[1] == name);
        } else if name == "multiply"@ {
            assert(names[2] == name);
        } else {
            assert(names[3] == name);
        }
    }
}

/// No two tools of the catalog share a name.
pub proof fn catalog_names_are_unique()
    ensures
        forall|i: int, j: int|
            0 <= i < j < catalog().len() ==> tool_names(catalog())[i] != tool_names(catalog())[j],
{
    reveal_strlit("add");
    reveal_strlit("subtract");
    reveal_strlit("multiply");
    reveal_strlit("divide");
    let names = tool_names(catalog());
    assert(names =~= seq!["add"@, "subtract"@, "multiply"@, "divide"@]);
    assert(names[0].len() == 3 && names[1].len() == 8 && names[2].len() == 8 && names[3].len() == 6);
    assert(names[1][0] == 's' && names[2][0] == 'm');
    assert(catalog().len() == 4);
}

/// Dividing by zero fails, whatever the dividend: the result is flagged as an error and
/// its only content is a text that contains "Division by zero".
pub proof fn zero_divisor_is_reported<F: FnOnce(Number, Number) -> String>(
    divide: F,
    dividend: Number,
    divisor: Number,
    result: CallToolResult,
)
    requires
        zero_bits(divisor.bits),
        divided(divide, Ok((dividend, divisor)), result),
    ensures
        result@.is_error,
        result@ == error_view(division_by_zero()),
        contains_text(division_by_zero(), "Division by zero"@),
{
    reveal_strlit("Error: Division by zero");
    reveal_strlit("Division by zero");
    assert(division_by_zero().subrange(7, 7 + "Division by zero"@.len() as int) =~= "Division by zero"@);
}

/// The arithmetic provider, with the function that does its arithmetic.
pub struct Calculator<E> {
    pub evaluate: E,
}

impl<E: Fn(Operation, Number, Number) -> String> Provider for Calculator<E> {
    open spec fn catalog(&self) -> Seq<ToolView> {
        catalog()
    }

    open spec fn ready(&self) -> bool {
        accepts_every_operation(self.evaluate)
    }

    open spec fn serves(
        &self,
        name: Seq<char>,
        arguments: Option<Seq<char>>,
        result: CallToolResult,
    ) -> bool {
        match operation_named(name) {
            Some(op) => handled(self.evaluate, op, parsed_numbers(arguments), result),
            None => false,
        }
    }

    fn list_tools(&self, request: &ListToolsRequest) -> (r: ListToolsResult) {
        list_tools(request)
    }

    fn call_tool(&self, request: &CallToolRequest) -> (r: Option<CallToolResult>) {
        proof {
            recognised_names_are_the_catalog(request.name@);
        }
        call_tool(request, &self.evaluate)
    }
}

} // verus!
