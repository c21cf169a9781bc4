use fatal_report::text::{decimal_string, interpolate};

#[test]
fn decimal_single_digits() {
    assert_eq!(decimal_string(0), "0");
    assert_eq!(decimal_string(9), "9");
}

#[test]
fn decimal_multiple_digits() {
    assert_eq!(decimal_string(10), "10");
    assert_eq!(decimal_string(42), "42");
    assert_eq!(decimal_string(100), "100");
    assert_eq!(decimal_string(4294967295), "4294967295");
}

#[test]
fn interpolate_single_placeholder() {
    let args = vec![String::from("7")];
    assert_eq!(interpolate("value = {}", &args), "value = 7");
}

#[test]
fn interpolate_several_placeholders() {
    let args = vec![String::from("a"), String::from("b")];
    assert_eq!(interpolate("{} and {}", &args), "a and b");
}

#[test]
fn interpolate_without_placeholder() {
    let args = vec![String::from("x")];
    assert_eq!(interpolate("a{b}c", &args), "a{b}c");
}

#[test]
fn interpolate_exhausted_arguments_render_empty() {
    let args: Vec<String> = vec![];
    assert_eq!(interpolate("v = {}!", &args), "v = !");
    let one = vec![String::from("1")];
    assert_eq!(interpolate("{} then {}", &one), "1 then ");
}

#[test]
fn interpolate_extra_arguments_are_ignored() {
    let args = vec![String::from("x"), String::from("y")];
    assert_eq!(interpolate("only {}", &args), "only x");
}

#[test]
fn interpolate_open_brace_passes_through() {
    let args = vec![String::from("x")];
    assert_eq!(interpolate("{{}", &args), "{x");
}

#[test]
fn interpolate_empty_template() {
    let args: Vec<String> = vec![];
    assert_eq!(interpolate("", &args), "");
}

#[test]
fn interpolate_non_ascii_text() {
    let args = vec![String::from("w\u{f6}rld")];
    assert_eq!(interpolate("h\u{e9}llo {}", &args), "h\u{e9}llo w\u{f6}rld");
}
