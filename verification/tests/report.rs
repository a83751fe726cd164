use watchmedo::report::{
    contains_part, find_first, is_space_byte, split_fields, split_lines, trim,
};

fn text(value: &str) -> Vec<u8> {
    value.as_bytes().to_vec()
}

fn texts(values: &[&str]) -> Vec<Vec<u8>> {
    values.iter().map(|value| text(value)).collect()
}

#[test]
fn ascii_white_space() {
    for byte in [b' ', b'\t', b'\n', b'\r', 0x0b, 0x0c] {
        assert!(is_space_byte(byte));
    }
    for byte in [0u8, 8, 14, 31, 33, b'a', b'0', 0x85, 0xa0, 0xff] {
        assert!(!is_space_byte(byte));
    }
}

#[test]
fn lines_end_at_newlines() {
    assert_eq!(split_lines(&text("")), texts(&[]));
    assert_eq!(split_lines(&text("one")), texts(&["one"]));
    assert_eq!(split_lines(&text("one\n")), texts(&["one"]));
    assert_eq!(split_lines(&text("one\ntwo")), texts(&["one", "two"]));
    assert_eq!(split_lines(&text("one\n\ntwo\n")), texts(&["one", "", "two"]));
    assert_eq!(split_lines(&text("\n")), texts(&[""]));
    assert_eq!(split_lines(&text("\n\n")), texts(&["", ""]));
    assert_eq!(split_lines(&text("a\r\nb")), texts(&["a\r", "b"]));
}

#[test]
fn lines_agree_with_the_standard_library() {
    for value in ["", "a", "a\n", "\na", "a\nb\n", "\n\n\n", "x y\n\n z", "last\n\n"] {
        let expected: Vec<Vec<u8>> = value.lines().map(|line| line.as_bytes().to_vec()).collect();
        assert_eq!(split_lines(&text(value)), expected);
    }
}

#[test]
fn fields_are_runs_without_space() {
    assert_eq!(split_fields(&text("")), texts(&[]));
    assert_eq!(split_fields(&text("   \t\r\n")), texts(&[]));
    assert_eq!(split_fields(&text("one")), texts(&["one"]));
    assert_eq!(split_fields(&text("  one  two\tthree\r\n")), texts(&["one", "two", "three"]));
    assert_eq!(split_fields(&text("2              85      ")), texts(&["2", "85"]));
}

#[test]
fn fields_agree_with_the_standard_library() {
    for value in ["", " ", "a", " a ", "a  b", "\ta\nb\rc ", "1 22 333", "x\u{b}y\u{c}z"] {
        let expected: Vec<Vec<u8>> =
            value.split_whitespace().map(|field| field.as_bytes().to_vec()).collect();
        assert_eq!(split_fields(&text(value)), expected);
    }
}

#[test]
fn trimming_removes_space_at_both_ends() {
    assert_eq!(trim(&text("")), text(""));
    assert_eq!(trim(&text(" \t\n")), text(""));
    assert_eq!(trim(&text("word")), text("word"));
    assert_eq!(trim(&text("  two words\r\n")), text("two words"));
    assert_eq!(trim(&text("x ")), text("x"));
    assert_eq!(trim(&text(" x")), text("x"));
}

#[test]
fn searching_for_a_part() {
    let value = text("85%; discharging; 5:23");
    assert!(contains_part(&value, b"charging"));
    assert!(contains_part(&value, b"discharging"));
    assert!(contains_part(&value, b"85"));
    assert!(contains_part(&value, b"5:23"));
    assert!(contains_part(&value, b""));
    assert!(!contains_part(&value, b"charged"));
    assert!(!contains_part(&value, b"85%; discharging; 5:23 "));
    assert!(contains_part(&text(""), b""));
    assert!(!contains_part(&text(""), b"a"));
    assert!(contains_part(&text("aab"), b"ab"));
}

#[test]
fn searching_for_a_byte() {
    let value = text("a\tb\tc%d%");
    assert_eq!(find_first(&value, b'%'), Some(5));
    assert_eq!(find_first(&value, b'a'), Some(0));
    assert_eq!(find_first(&value, b'z'), None);
    assert_eq!(find_first(&text(""), b'%'), None);
}
