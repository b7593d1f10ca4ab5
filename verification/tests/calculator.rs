use tool_providers::arguments::{
    parse_args, require_number, require_text, ArgumentError, Field, Number,
};
use tool_providers::calculator::{
    call_tool, execute_divide, execute_operation, list_tools, select_operation, Operation,
};
use tool_providers::protocol::{
    error_result, success_result, CallToolRequest, CallToolResult, ContentBlock, ListToolsRequest,
};

fn double(n: Number) -> f64 {
    f64::from_bits(n.bits)
}

fn evaluate(op: Operation, a: Number, b: Number) -> String {
    let (a, b) = (double(a), double(b));
    let value = match op {
        Operation::Add => a + b,
        Operation::Subtract => a - b,
        Operation::Multiply => a * b,
        Operation::Divide => a / b,
    };
    value.to_string()
}

fn invoke(name: &str, arguments: Option<&str>) -> Option<CallToolResult> {
    let request = CallToolRequest {
        name: name.to_string(),
        arguments: arguments.map(|text| text.to_string()),
    };
    call_tool(&request, &evaluate)
}

fn text_of(result: &CallToolResult) -> String {
    assert_eq!(result.content.len(), 1);
    match &result.content[0] {
        ContentBlock::Text { text } => text.clone(),
    }
}

#[test]
fn add_two_and_three_gives_five() {
    let result = invoke("add", Some(r#"{"a":2,"b":3}"#)).unwrap();
    assert!(!result.is_error);
    assert_eq!(text_of(&result), "5");
    assert_eq!(result, success_result("5".to_string()));
}

#[test]
fn divide_ten_by_zero_is_an_error() {
    let result = invoke("divide", Some(r#"{"a":10,"b":0}"#)).unwrap();
    assert!(result.is_error);
    assert!(text_of(&result).contains("Division by zero"));
    assert_eq!(result, error_result("Error: Division by zero".to_string()));
}

#[test]
fn divide_by_zero_fails_for_every_dividend() {
    for a in ["0", "1", "-7.5", "1e300", "123456789012345678901234567890"] {
        for b in ["0", "0.0", "-0.0", "0e5", "-0"] {
            let payload = format!(r#"{{"a":{},"b":{}}}"#, a, b);
            let result = invoke("divide", Some(&payload)).unwrap();
            assert!(result.is_error, "{}", payload);
            assert_eq!(text_of(&result), "Error: Division by zero");
        }
    }
}

#[test]
fn subtract_multiply_and_divide_give_decimal_strings() {
    let sub = invoke("subtract", Some(r#"{"a":7,"b":10}"#)).unwrap();
    assert_eq!(sub, success_result("-3".to_string()));
    let mul = invoke("multiply", Some(r#"{"a":1.5,"b":2}"#)).unwrap();
    assert_eq!(mul, success_result("3".to_string()));
    let div = invoke("divide", Some(r#"{"a":1,"b":4}"#)).unwrap();
    assert_eq!(div, success_result("0.25".to_string()));
    let add = invoke("add", Some(r#"{"a":0.1,"b":0.2}"#)).unwrap();
    assert_eq!(add, success_result("0.30000000000000004".to_string()));
}

#[test]
fn operations_match_double_arithmetic() {
    let samples = [-3.25, 0.0, 1.0, 2.5, 1e10, 123456.789];
    for a in samples {
        for b in samples {
            let payload = format!(r#"{{"a":{:?},"b":{:?}}}"#, a, b);
            let add = invoke("add", Some(&payload)).unwrap();
            assert_eq!(add, success_result((a + b).to_string()));
            let sub = invoke("subtract", Some(&payload)).unwrap();
            assert_eq!(sub, success_result((a - b).to_string()));
            let mul = invoke("multiply", Some(&payload)).unwrap();
            assert_eq!(mul, success_result((a * b).to_string()));
            if b != 0.0 {
                let div = invoke("divide", Some(&payload)).unwrap();
                assert_eq!(div, success_result((a / b).to_string()));
            }
        }
    }
}

#[test]
fn missing_arguments_is_an_error_result() {
    for name in ["add", "subtract", "multiply", "divide"] {
        let result = invoke(name, None).unwrap();
        assert!(result.is_error);
        assert_eq!(text_of(&result), "Missing arguments");
    }
}

#[test]
fn invalid_json_is_reported_with_detail() {
    let result = invoke("add", Some("{not json")).unwrap();
    assert!(result.is_error);
    let text = text_of(&result);
    assert!(text.starts_with("Invalid JSON arguments: "), "{}", text);
    let detail = serde_json::from_str::<serde_json::Value>("{not json").unwrap_err().to_string();
    assert_eq!(text, format!("Invalid JSON arguments: {}", detail));
}

#[test]
fn missing_or_mistyped_parameters_are_named() {
    let cases = [
        (r#"{"b":3}"#, "Missing or invalid parameter 'a'"),
        (r#"{"a":2}"#, "Missing or invalid parameter 'b'"),
        (r#"{}"#, "Missing or invalid parameter 'a'"),
        (r#"{"a":"2","b":3}"#, "Missing or invalid parameter 'a'"),
        (r#"{"a":2,"b":"3"}"#, "Missing or invalid parameter 'b'"),
        (r#"{"a":null,"b":3}"#, "Missing or invalid parameter 'a'"),
        (r#"{"a":true,"b":3}"#, "Missing or invalid parameter 'a'"),
        (r#"{"a":[2],"b":3}"#, "Missing or invalid parameter 'a'"),
        (r#"{"a":{"x":2},"b":3}"#, "Missing or invalid parameter 'a'"),
        (r#"[2,3]"#, "Missing or invalid parameter 'a'"),
        (r#"5"#, "Missing or invalid parameter 'a'"),
        (r#""text""#, "Missing or invalid parameter 'a'"),
        (r#"null"#, "Missing or invalid parameter 'a'"),
    ];
    for (payload, message) in cases {
        for name in ["add", "divide"] {
            let result = invoke(name, Some(payload)).unwrap();
            assert!(result.is_error, "{}", payload);
            assert_eq!(text_of(&result), message, "{}", payload);
        }
    }
}

#[test]
fn unrecognised_calculator_tool_is_not_handled() {
    assert_eq!(invoke("modulo", Some(r#"{"a":2,"b":3}"#)), None);
    assert_eq!(invoke("", None), None);
    assert_eq!(invoke("Add", Some(r#"{"a":2,"b":3}"#)), None);
    assert_eq!(invoke("add ", None), None);
    assert_eq!(invoke("uppercase", Some(r#"{"text":"x"}"#)), None);
}

#[test]
fn select_operation_knows_the_four_names() {
    assert_eq!(select_operation("add"), Some(Operation::Add));
    assert_eq!(select_operation("subtract"), Some(Operation::Subtract));
    assert_eq!(select_operation("multiply"), Some(Operation::Multiply));
    assert_eq!(select_operation("divide"), Some(Operation::Divide));
    assert_eq!(select_operation("divid"), None);
}

#[test]
fn parse_args_hands_over_the_doubles() {
    let parsed = parse_args(&Some(r#"{"a":1.5,"b":-2}"#.to_string())).unwrap();
    assert_eq!(parsed.0, Number { bits: 1.5f64.to_bits() });
    assert_eq!(parsed.1, Number { bits: (-2.0f64).to_bits() });
    assert_ne!(parsed.0.bits, parsed.1.bits);
    let big = parse_args(&Some(r#"{"a":18446744073709551615,"b":-9223372036854775808}"#.to_string()))
        .unwrap();
    assert_eq!(double(big.0), 18446744073709551615u64 as f64);
    assert_eq!(double(big.1), -9223372036854775808i64 as f64);
}

#[test]
fn parse_args_classifies_failures() {
    assert_eq!(parse_args(&None), Err(ArgumentError::MissingArguments));
    assert_eq!(
        parse_args(&Some(r#"{"a":1}"#.to_string())),
        Err(ArgumentError::MissingOrInvalidParameter("b".to_string()))
    );
    assert_eq!(
        parse_args(&Some(r#"{"a":"1","b":"2"}"#.to_string())),
        Err(ArgumentError::MissingOrInvalidParameter("a".to_string()))
    );
    match parse_args(&Some("".to_string())) {
        Err(ArgumentError::InvalidJson(detail)) => assert!(!detail.is_empty()),
        other => panic!("unexpected {:?}", other),
    }
}

#[test]
fn duplicate_keys_keep_the_last_value() {
    let result = invoke("add", Some(r#"{"a":1,"a":10,"b":5}"#)).unwrap();
    assert_eq!(result, success_result("15".to_string()));
}

#[test]
fn argument_error_messages() {
    assert_eq!(ArgumentError::MissingArguments.message(), "Missing arguments");
    assert_eq!(
        ArgumentError::InvalidJson("bad".to_string()).message(),
        "Invalid JSON arguments: bad"
    );
    assert_eq!(
        ArgumentError::MissingOrInvalidParameter("text".to_string()).message(),
        "Missing or invalid parameter 'text'"
    );
}

#[test]
fn require_number_and_text_do_not_coerce() {
    let n = Number { bits: 2.0f64.to_bits() };
    assert_eq!(require_number(Field::Number(n), "a"), Ok(n));
    for field in [Field::Missing, Field::Text("2".to_string()), Field::Other] {
        assert_eq!(
            require_number(field, "a"),
            Err(ArgumentError::MissingOrInvalidParameter("a".to_string()))
        );
    }
    assert_eq!(require_text(Field::Text("hi".to_string()), "text"), Ok("hi".to_string()));
    for field in [Field::Missing, Field::Number(n), Field::Other] {
        assert_eq!(
            require_text(field, "text"),
            Err(ArgumentError::MissingOrInvalidParameter("text".to_string()))
        );
    }
}

#[test]
fn number_is_zero_for_both_signs_only() {
    assert!(Number { bits: 0.0f64.to_bits() }.is_zero());
    assert!(Number { bits: (-0.0f64).to_bits() }.is_zero());
    assert!(!Number { bits: 1.0f64.to_bits() }.is_zero());
    assert!(!Number { bits: f64::MIN_POSITIVE.to_bits() }.is_zero());
    assert!(!Number { bits: 5e-324f64.to_bits() }.is_zero());
    assert!(!Number { bits: f64::NAN.to_bits() }.is_zero());
    assert!(!Number { bits: f64::INFINITY.to_bits() }.is_zero());
    for x in [0.0f64, -0.0, 3.5, -1e-300, f64::NAN, f64::NEG_INFINITY] {
        assert_eq!(Number { bits: x.to_bits() }.is_zero(), x == 0.0);
    }
}

#[test]
fn execute_operation_applies_the_given_function() {
    let payload = Some(r#"{"a":6,"b":7}"#.to_string());
    let result = execute_operation(&payload, |a, b| (double(a) * double(b)).to_string());
    assert_eq!(result, success_result("42".to_string()));
    let failed = execute_operation(&None, |a, b| (double(a) * double(b)).to_string());
    assert_eq!(failed, error_result("Missing arguments".to_string()));
}

#[test]
fn execute_divide_checks_the_divisor_first() {
    let quotient = |a: Number, b: Number| (double(a) / double(b)).to_string();
    let payload = Some(r#"{"a":9,"b":3}"#.to_string());
    assert_eq!(execute_divide(&payload, quotient), success_result("3".to_string()));
    let zero = Some(r#"{"a":9,"b":0}"#.to_string());
    let result = execute_divide(&zero, |_, _| panic!("must not divide"));
    assert_eq!(result, error_result("Error: Division by zero".to_string()));
    let bad = Some(r#"{"a":9}"#.to_string());
    let result = execute_divide(&bad, |_, _| panic!("must not divide"));
    assert_eq!(result, error_result("Missing or invalid parameter 'b'".to_string()));
}

#[test]
fn calculator_catalog_lists_four_tools_in_order() {
    let listing = list_tools(&ListToolsRequest { cursor: None });
    let names: Vec<&str> = listing.tools.iter().map(|tool| tool.name.as_str()).collect();
    assert_eq!(names, vec!["add", "subtract", "multiply", "divide"]);
    assert_eq!(listing.next_cursor, None);
    assert_eq!(listing.meta, None);
    let again = list_tools(&ListToolsRequest { cursor: Some("page-2".to_string()) });
    assert_eq!(again, listing);
    let titles: Vec<Option<String>> =
        listing.tools.iter().map(|tool| tool.options.clone().unwrap().title).collect();
    assert_eq!(
        titles,
        vec![
            Some("Add".to_string()),
            Some("Subtract".to_string()),
            Some("Multiply".to_string()),
            Some("Divide".to_string())
        ]
    );
    let add = listing.tools[0].options.clone().unwrap();
    assert_eq!(add.description, Some("Add two numbers together".to_string()));
    assert_eq!(add.meta, None);
    assert_eq!(add.annotations, None);
    assert_eq!(add.output_schema, None);
}

#[test]
fn calculator_schemas_ask_for_the_numbers_the_parser_reads() {
    let listing = list_tools(&ListToolsRequest { cursor: None });
    for tool in &listing.tools {
        let schema: serde_json::Value = serde_json::from_str(&tool.input_schema).unwrap();
        assert_eq!(schema.get("type").and_then(|t| t.as_str()), Some("object"));
        let required: Vec<&str> = schema
            .get("required")
            .and_then(|r| r.as_array())
            .unwrap()
            .iter()
            .map(|name| name.as_str().unwrap())
            .collect();
        assert_eq!(required, vec!["a", "b"]);
        for name in required {
            let kind = schema.get("properties").unwrap().get(name).unwrap().get("type").unwrap();
            assert_eq!(kind.as_str(), Some("number"));
        }
        assert!(call_tool(
            &CallToolRequest { name: tool.name.clone(), arguments: None },
            &evaluate
        )
        .is_some());
    }
}
