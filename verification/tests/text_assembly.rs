use log4rust::text::render_line;
use log4rust::text::simple_suffix;
use log4rust::text::substitute;
use log4rust::text::u32_string;

#[test]
fn decimal_rendering() {
    assert_eq!(u32_string(0), "0");
    assert_eq!(u32_string(7), "7");
    assert_eq!(u32_string(10), "10");
    assert_eq!(u32_string(105), "105");
    assert_eq!(u32_string(4294967295), "4294967295");
}

#[test]
fn simple_suffix_format() {
    assert_eq!(simple_suffix("f.rs", 1, 23), " (f.rs:1:23)");
    assert_eq!(simple_suffix("src/main.rs", 120, 9), " (src/main.rs:120:9)");
}

#[test]
fn rendered_line_format() {
    assert_eq!(render_line("TS", "m", " s"), "[TS] m s");
    assert_eq!(render_line("2020-01-01", "hello", ""), "[2020-01-01] hello");
}

#[test]
fn substitute_replaces_the_placeholder() {
    assert_eq!(substitute("a{}b", "X"), "aXb");
    assert_eq!(substitute("{}", "X"), "X");
    assert_eq!(substitute("{} tail", "X"), "X tail");
    assert_eq!(substitute("head {}", "X"), "head X");
}

#[test]
fn substitute_without_placeholder_is_identity() {
    assert_eq!(substitute("no placeholder", "X"), "no placeholder");
    assert_eq!(substitute("", "X"), "");
    assert_eq!(substitute("{ }", "X"), "{ }");
    assert_eq!(substitute("x{", "X"), "x{");
}

#[test]
fn substitute_replaces_every_placeholder() {
    assert_eq!(substitute("{}{}", "X"), "XX");
    assert_eq!(substitute("a{}b{}c", "X"), "aXbXc");
}

#[test]
fn substitute_does_not_rescan_the_line() {
    assert_eq!(substitute("a{}b", "{}"), "a{}b");
    assert_eq!(substitute("{{}}", "X"), "{X}");
}
