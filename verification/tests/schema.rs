use tool_providers::calculator;
use tool_providers::protocol::ListToolsRequest;
use tool_providers::schema::{parameter, render_schema, Parameter, ParameterKind};
use tool_providers::string_utils;
use tool_providers::system_info;

fn schema_of(tools: &[tool_providers::protocol::Tool], name: &str) -> String {
    tools.iter().find(|tool| tool.name == name).unwrap().input_schema.clone()
}

#[test]
fn calculator_schemas_have_the_published_text() {
    let tools = calculator::list_tools(&ListToolsRequest { cursor: None }).tools;
    assert_eq!(
        schema_of(&tools, "add"),
        r#"{
                        "type": "object",
                        "properties": {
                            "a": {"type": "number", "description": "First number"},
                            "b": {"type": "number", "description": "Second number"}
                        },
                        "required": ["a", "b"]
                    }"#
    );
    assert_eq!(
        schema_of(&tools, "subtract"),
        r#"{
                        "type": "object",
                        "properties": {
                            "a": {"type": "number", "description": "Number to subtract from"},
                            "b": {"type": "number", "description": "Number to subtract"}
                        },
                        "required": ["a", "b"]
                    }"#
    );
    assert_eq!(
        schema_of(&tools, "multiply"),
        r#"{
                        "type": "object",
                        "properties": {
                            "a": {"type": "number", "description": "First number"},
                            "b": {"type": "number", "description": "Second number"}
                        },
                        "required": ["a", "b"]
                    }"#
    );
    assert_eq!(
        schema_of(&tools, "divide"),
        r#"{
                        "type": "object",
                        "properties": {
                            "a": {"type": "number", "description": "Dividend"},
                            "b": {"type": "number", "description": "Divisor"}
                        },
                        "required": ["a", "b"]
                    }"#
    );
}

#[test]
fn string_utils_schemas_have_the_published_text() {
    let tools = string_utils::list_tools(&ListToolsRequest { cursor: None }).tools;
    assert_eq!(
        schema_of(&tools, "uppercase"),
        r#"{
                        "type": "object",
                        "properties": {
                            "text": {"type": "string", "description": "Text to convert to uppercase"}
                        },
                        "required": ["text"]
                    }"#
    );
    assert_eq!(
        schema_of(&tools, "lowercase"),
        r#"{
                        "type": "object",
                        "properties": {
                            "text": {"type": "string", "description": "Text to convert to lowercase"}
                        },
                        "required": ["text"]
                    }"#
    );
    assert_eq!(
        schema_of(&tools, "reverse"),
        r#"{
                        "type": "object",
                        "properties": {
                            "text": {"type": "string", "description": "Text to reverse"}
                        },
                        "required": ["text"]
                    }"#
    );
    assert_eq!(
        schema_of(&tools, "word_count"),
        r#"{
                        "type": "object",
                        "properties": {
                            "text": {"type": "string", "description": "Text to count words in"}
                        },
                        "required": ["text"]
                    }"#
    );
}

#[test]
fn system_info_schemas_have_the_published_text() {
    let tools = system_info::list_tools(&ListToolsRequest { cursor: None }).tools;
    assert_eq!(
        schema_of(&tools, "timestamp"),
        r#"{
                        "type": "object",
                        "properties": {},
                        "required": []
                    }"#
    );
    assert_eq!(
        schema_of(&tools, "random_uuid"),
        r#"{
                        "type": "object",
                        "properties": {},
                        "required": []
                    }"#
    );
    assert_eq!(
        schema_of(&tools, "base64_encode"),
        r#"{
                        "type": "object",
                        "properties": {
                            "text": {"type": "string", "description": "Text to encode to base64"}
                        },
                        "required": ["text"]
                    }"#
    );
    assert_eq!(
        schema_of(&tools, "base64_decode"),
        r#"{
                        "type": "object",
                        "properties": {
                            "text": {"type": "string", "description": "Base64 text to decode"}
                        },
                        "required": ["text"]
                    }"#
    );
}

#[test]
fn render_schema_without_parameters() {
    let parameters: Vec<Parameter> = Vec::new();
    assert_eq!(
        render_schema(&parameters),
        "{\n                        \"type\": \"object\",\n                        \"properties\": {},\n                        \"required\": []\n                    }"
    );
}

#[test]
fn render_schema_lists_every_parameter_as_required() {
    let parameters = vec![
        parameter("first", ParameterKind::Number, "One"),
        parameter("second", ParameterKind::Text, "Two"),
        parameter("third", ParameterKind::Number, "Three"),
    ];
    let text = render_schema(&parameters);
    let schema: serde_json::Value = serde_json::from_str(&text).unwrap();
    assert_eq!(schema.get("type").and_then(|t| t.as_str()), Some("object"));
    let required: Vec<&str> = schema
        .get("required")
        .and_then(|r| r.as_array())
        .unwrap()
        .iter()
        .map(|name| name.as_str().unwrap())
        .collect();
    assert_eq!(required, vec!["first", "second", "third"]);
    let properties = schema.get("properties").and_then(|p| p.as_object()).unwrap();
    assert_eq!(properties.len(), 3);
    let kinds: Vec<&str> = required
        .iter()
        .map(|name| properties[*name].get("type").unwrap().as_str().unwrap())
        .collect();
    assert_eq!(kinds, vec!["number", "string", "number"]);
    assert_eq!(properties["second"].get("description").unwrap().as_str(), Some("Two"));
    assert!(text.contains("\"first\": {\"type\": \"number\", \"description\": \"One\"},\n"));
    assert!(text.contains("\"required\": [\"first\", \"second\", \"third\"]"));
}

#[test]
fn declared_parameters_match_the_schemas() {
    let ops = [
        calculator::Operation::Add,
        calculator::Operation::Subtract,
        calculator::Operation::Multiply,
        calculator::Operation::Divide,
    ];
    for op in ops {
        let parameters = calculator::parameters(op);
        let names: Vec<&str> = parameters.iter().map(|p| p.name.as_str()).collect();
        assert_eq!(names, vec!["a", "b"]);
        assert!(parameters.iter().all(|p| p.kind == ParameterKind::Number));
        assert_eq!(calculator::describe(op).input_schema, render_schema(&parameters));
    }
    let tools = [
        string_utils::StringTool::Uppercase,
        string_utils::StringTool::Lowercase,
        string_utils::StringTool::Reverse,
        string_utils::StringTool::WordCount,
    ];
    for tool in tools {
        let parameters = string_utils::parameters(tool);
        assert_eq!(parameters.len(), 1);
        assert_eq!(parameters[0].name, "text");
        assert_eq!(parameters[0].kind, ParameterKind::Text);
        assert_eq!(string_utils::describe(tool).input_schema, render_schema(&parameters));
    }
    assert!(system_info::parameters(system_info::SystemTool::Timestamp).is_empty());
    assert!(system_info::parameters(system_info::SystemTool::RandomUuid).is_empty());
    for tool in [system_info::SystemTool::Base64Encode, system_info::SystemTool::Base64Decode] {
        let parameters = system_info::parameters(tool);
        assert_eq!(parameters.len(), 1);
        assert_eq!(parameters[0].name, "text");
        assert_eq!(parameters[0].kind, ParameterKind::Text);
    }
}
