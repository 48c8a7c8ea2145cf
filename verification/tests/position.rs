use pen::position::Position;

#[test]
fn display() {
    assert_eq!(
        Position::new("file", 1, 1, "x").to_text(),
        "file\n1:1:\tx\n    \t^"
    );

    assert_eq!(
        Position::new("file", 1, 2, " x").to_text(),
        "file\n1:2:\t x\n    \t ^"
    );
}

#[test]
fn display_keeps_tabs_in_the_caret_line() {
    assert_eq!(
        Position::new("file", 12, 3, "\tab").to_text(),
        "file\n12:3:\t\tab\n     \t\t ^"
    );
}

#[test]
fn read_fields_back() {
    let position = Position::new("main.pen", 3, 7, "x = f()");

    assert_eq!(position.path(), "main.pen");
    assert_eq!(position.line_number(), 3);
    assert_eq!(position.column_number(), 7);
    assert_eq!(position.line(), "x = f()");
}

#[test]
fn positions_always_compare_equal() {
    assert_eq!(
        Position::new("a", 1, 2, "x"),
        Position::new("b", 3, 4, "y")
    );
}
