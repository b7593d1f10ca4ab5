use tool_providers::protocol::{
    classify, error_result, success_result, tool, whole_listing, CallToolResult, ContentBlock,
    Outcome,
};
use tool_providers::text::{
    chars_of, digit_of, push_decimal, push_hex, same_text,
};

#[test]
fn same_text_compares_characters() {
    assert!(same_text("", ""));
    assert!(same_text("add", "add"));
    assert!(!same_text("add", "adD"));
    assert!(!same_text("add", "ad"));
    assert!(!same_text("ad", "add"));
    assert!(!same_text("", "x"));
    assert!(same_text("日本語", "日本語"));
    assert!(!same_text("日本語", "日本誤"));
    assert!(!same_text("é", "e\u{301}"));
}

#[test]
fn chars_of_lists_characters_in_order() {
    assert_eq!(chars_of(""), Vec::<char>::new());
    assert_eq!(chars_of("héllo"), vec!['h', 'é', 'l', 'l', 'o']);
    assert_eq!(chars_of("a😀b"), vec!['a', '😀', 'b']);
    for sample in ["", "x", "日本語 text", "a\u{301}"] {
        assert_eq!(chars_of(sample), sample.chars().collect::<Vec<char>>());
    }
}

#[test]
fn digits_are_lower_case_hexadecimal() {
    let digits: String = (0u8..16).map(digit_of).collect();
    assert_eq!(digits, "0123456789abcdef");
}

#[test]
fn push_decimal_appends_the_numeral() {
    for n in [0u64, 1, 9, 10, 11, 99, 100, 101, 12345, 1_000_000, u64::MAX] {
        let mut text = "n=".to_string();
        push_decimal(&mut text, n);
        assert_eq!(text, format!("n={}", n));
    }
}

#[test]
fn push_hex_appends_fixed_width_digits() {
    let mut text = String::new();
    push_hex(&mut text, 0xabc, 8);
    assert_eq!(text, "00000abc");
    push_hex(&mut text, 0x1f, 2);
    assert_eq!(text, "00000abc1f");
    push_hex(&mut text, 0x12345, 4);
    assert_eq!(text, "00000abc1f2345");
    push_hex(&mut text, 0xff, 0);
    assert_eq!(text, "00000abc1f2345");
    let mut wide = String::new();
    push_hex(&mut wide, u64::MAX, 16);
    assert_eq!(wide, "ffffffffffffffff");
    let mut wider = String::new();
    push_hex(&mut wider, 1, 20);
    assert_eq!(wider, "00000000000000000001");
}

#[test]
fn results_hold_one_text_block() {
    let ok: CallToolResult = success_result("value".to_string());
    assert_eq!(ok.content, vec![ContentBlock::Text { text: "value".to_string() }]);
    assert!(!ok.is_error);
    assert_eq!(ok.structured_content, None);
    let failed = error_result("value".to_string());
    assert_eq!(failed.content, vec![ContentBlock::Text { text: "value".to_string() }]);
    assert!(failed.is_error);
    assert_eq!(failed.structured_content, None);
    assert_ne!(ok, failed);
}

#[test]
fn tool_carries_title_and_description_only() {
    let built = tool("name", "{}", "Title", "What it does");
    assert_eq!(built.name, "name");
    assert_eq!(built.input_schema, "{}");
    let options = built.options.clone().unwrap();
    assert_eq!(options.title, Some("Title".to_string()));
    assert_eq!(options.description, Some("What it does".to_string()));
    assert_eq!(options.meta, None);
    assert_eq!(options.annotations, None);
    assert_eq!(options.output_schema, None);
    let listing = whole_listing(vec![built.clone()]);
    assert_eq!(listing.tools, vec![built]);
    assert_eq!(listing.next_cursor, None);
    assert_eq!(listing.meta, None);
}

#[test]
fn classify_tells_three_outcomes_apart() {
    assert_eq!(classify(None), Outcome::NotHandled);
    let ok = success_result("5".to_string());
    assert_eq!(classify(Some(ok.clone())), Outcome::HandledSuccess(ok));
    let failed = error_result("Missing arguments".to_string());
    assert_eq!(classify(Some(failed.clone())), Outcome::HandledFailure(failed));
}
