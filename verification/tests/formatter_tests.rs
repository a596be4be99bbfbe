use charlotte::formatter::{format_code, wrap_text};

#[test]
fn format_non_code_text() {
    let input = "This is not JSON.";
    let output = format_code(input);
    assert_eq!(input, output);
}

#[test]
fn format_valid_json() {
    let input = r#"{"name":"Alice","age":30,"city":"New York"}"#;
    let expected = r#"{
    "name": "Alice",
    "age": 30,
    "city": "New York"
}"#;

    let output = format_code(input);
    assert_eq!(expected, output);
}

#[test]
fn format_invalid_json() {
    let input = r#"{"name":"Alice","age":30,"city":"New York}"#;
    let output = format_code(input);
    assert_eq!(input, output);
}

#[test]
fn format_empty_text() {
    assert_eq!(format_code(""), "");
}

#[test]
fn wrap_short_text() {
    let input = "Short text.";
    let output = wrap_text(input, 20);
    assert_eq!(input, output);
}

#[test]
fn wrap_long_text() {
    let input = "This is a long text that should be wrapped to fit within the specified width.";
    let expected = "This is a long text that\nshould be wrapped to fit\nwithin the specified width.";

    let output = wrap_text(input, 30);
    assert_eq!(expected, output);
}

#[test]
fn wrap_text_with_newlines() {
    let input = "This is a long text\nthat should be wrapped\nto fit within the specified\nwidth.";
    let expected = "This is a long text\nthat should be wrapped\nto fit within the specified\nwidth.";

    let output = wrap_text(input, 30);
    assert_eq!(expected, output);
}

#[test]
fn wrap_text_with_long_word() {
    let input = "ThisIsAReallyLongWordThatExceedsTheWidthLimit";
    let expected = "ThisIsARea\nllyLongWor\ndThatExcee\ndsTheWidth\nLimit";

    let output = wrap_text(input, 10);
    assert_eq!(expected, output);
}
