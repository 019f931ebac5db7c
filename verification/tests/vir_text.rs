use hazardflow::vir::shape::Shape;
use hazardflow::vir::text::{decimal_string, indent, join, join_options, push_decimal, push_spaces};

fn s(text: &str) -> String {
    text.to_string()
}

#[test]
fn join_puts_the_separator_between_neighbours() {
    assert_eq!(join(&vec![], ", "), "");
    assert_eq!(join(&vec![s("a")], ", "), "a");
    assert_eq!(join(&vec![s("a"), s("b"), s("c")], ", "), "a, b, c");
    assert_eq!(join(&vec![s(""), s("")], "\n"), "\n");
    assert_eq!(join(&vec![s("a"), s("b")], ""), "ab");
}

#[test]
fn join_agrees_with_the_standard_library() {
    let items = vec![s("x = 1;"), s(""), s("y <= 2;")];
    assert_eq!(join(&items, "\n"), items.join("\n"));
}

#[test]
fn decimal_string_writes_numbers() {
    assert_eq!(decimal_string(0), "0");
    assert_eq!(decimal_string(7), "7");
    assert_eq!(decimal_string(10), "10");
    assert_eq!(decimal_string(32), "32");
    assert_eq!(decimal_string(1234567890), "1234567890");
    assert_eq!(decimal_string(usize::MAX), usize::MAX.to_string());
}

#[test]
fn push_decimal_appends() {
    let mut out = s("[");
    push_decimal(&mut out, 409);
    assert_eq!(out, "[409");
}

#[test]
fn push_spaces_appends() {
    let mut out = s("a");
    push_spaces(&mut out, 3);
    assert_eq!(out, "a   ");
    push_spaces(&mut out, 0);
    assert_eq!(out, "a   ");
}

#[test]
fn indent_moves_every_line() {
    assert_eq!(indent(s("a"), 4), "    a");
    assert_eq!(indent(s("a\nb"), 4), "    a\n    b");
    assert_eq!(indent(s("a\n  b\nc"), 2), "  a\n    b\n  c");
    assert_eq!(indent(s("a\n\nb"), 2), "  a\n  \n  b");
    assert_eq!(indent(s("a\nb"), 0), "a\nb");
}

#[test]
fn indent_of_empty_text_is_empty() {
    assert_eq!(indent(s(""), 4), "");
}

#[test]
fn indent_drops_a_line_break_that_ends_the_text() {
    assert_eq!(indent(s("a\n"), 4), "    a");
    assert_eq!(indent(s("\n"), 4), "    ");
    assert_eq!(indent(s("a\n\n"), 2), "  a\n  ");
    assert_eq!(indent(s("\na"), 2), "  \n  a");
}

#[test]
fn indent_handles_characters_of_several_bytes() {
    assert_eq!(indent(s("é\nü"), 1), " é\n ü");
}

#[test]
fn join_options_joins_what_is_present() {
    assert_eq!(join_options("_", vec![Some(s("a")), Some(s("b"))]), Some(s("a_b")));
    assert_eq!(join_options("_", vec![None, Some(s("b"))]), Some(s("b")));
    assert_eq!(join_options("_", vec![Some(s("a")), None]), Some(s("a")));
    assert_eq!(join_options("_", vec![None, None]), None);
    assert_eq!(join_options("_", vec![]), None);
    assert_eq!(
        join_options("::", vec![Some(s("a")), None, Some(s("")), Some(s("c"))]),
        Some(s("a::::c"))
    );
}

#[test]
fn shape_reports_its_dimensions() {
    let shape = Shape::new(vec![4, 8], false);
    assert_eq!(shape.dim(), 2);
    assert_eq!(shape.get(0), 4);
    assert_eq!(shape.get(1), 8);
    assert_eq!(shape.width(), 32);
    assert!(!shape.is_signed());
    let bit = Shape::new(vec![1], true);
    assert_eq!(bit.dim(), 1);
    assert_eq!(bit.width(), 1);
    assert!(bit.is_signed());
    assert_eq!(Shape::new(vec![], false).width(), 1);
    assert_eq!(Shape::new(vec![3, 0, 5], false).width(), 0);
}

#[test]
fn shape_clone_is_equal() {
    let shape = Shape::new(vec![2, 16], true);
    assert_eq!(shape.clone(), shape);
}
