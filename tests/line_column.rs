use normal_notepad::line_column::calculate_line_column;

#[test]
fn test_first_line_first_column() {
    let text = "hello world";
    let (line, col) = calculate_line_column(text, 0);
    assert_eq!((line, col), (1, 1));
}

#[test]
fn test_first_line_middle() {
    let text = "hello world";
    let (line, col) = calculate_line_column(text, 5);
    assert_eq!((line, col), (1, 6));
}

#[test]
fn test_second_line_first_column() {
    let text = "hello\r\nworld";
    let (line, col) = calculate_line_column(text, 7);
    assert_eq!((line, col), (2, 1));
}

#[test]
fn test_second_line_middle() {
    let text = "hello\r\nworld";
    let (line, col) = calculate_line_column(text, 9);
    assert_eq!((line, col), (2, 3));
}

#[test]
fn test_multiple_lines() {
    let text = "line1\r\nline2\r\nline3";
    let (line, col) = calculate_line_column(text, 13);
    assert_eq!((line, col), (3, 1));
}

#[test]
fn test_multiple_lines_middle() {
    let text = "line1\r\nline2\r\nline3";
    let (line, col) = calculate_line_column(text, 16);
    assert_eq!((line, col), (3, 3));
}

#[test]
fn test_empty_line() {
    let text = "line1\r\n\r\nline3";
    let (line, col) = calculate_line_column(text, 7);
    assert_eq!((line, col), (2, 1));
}

#[test]
fn test_japanese_text() {
    let text = "あいう\r\nえお";
    let (line, col) = calculate_line_column(text, 4);
    assert_eq!((line, col), (2, 1));
}

#[test]
fn test_japanese_text_middle() {
    let text = "あいう\r\nえお";
    let (line, col) = calculate_line_column(text, 6);
    assert_eq!((line, col), (2, 2));
}

#[test]
fn test_end_of_text() {
    let text = "hello\r\nworld";
    let (line, col) = calculate_line_column(text, 12);
    assert_eq!((line, col), (2, 6));
}

#[test]
fn offset_zero_is_origin_for_several_texts() {
    for text in ["x", "\r\n", "😀abc", "\0\0", "line1\nline2"] {
        assert_eq!(calculate_line_column(text, 0), (1, 1));
    }
    assert_eq!(calculate_line_column("", 0), (1, 1));
}

#[test]
fn plain_line_column_is_offset_plus_one() {
    let text = "abcdefg";
    for k in 0..=7 {
        assert_eq!(calculate_line_column(text, k), (1, k + 1));
    }
}

#[test]
fn repeated_calls_agree() {
    let text = "ab\r\ncd\nef";
    for k in 0..12 {
        assert_eq!(calculate_line_column(text, k), calculate_line_column(text, k));
    }
}

#[test]
fn offset_past_end_is_end_of_text() {
    assert_eq!(calculate_line_column("hello\r\nworld", 1000), (2, 6));
    assert_eq!(calculate_line_column("ab\n", 50), (2, 1));
}

#[test]
fn negative_offset_is_origin() {
    assert_eq!(calculate_line_column("hello", -3), (1, 1));
}

#[test]
fn offset_on_cr_of_crlf_is_next_line() {
    assert_eq!(calculate_line_column("hello\r\nworld", 6), (2, 1));
}

#[test]
fn lone_cr_and_lone_lf_break_lines() {
    assert_eq!(calculate_line_column("a\rb", 2), (2, 1));
    assert_eq!(calculate_line_column("a\rb", 3), (2, 2));
    assert_eq!(calculate_line_column("a\nb", 3), (2, 2));
    assert_eq!(calculate_line_column("a\n\rb", 3), (3, 1));
}

#[test]
fn surrogate_pair_is_two_units_one_column() {
    let text = "a😀b";
    assert_eq!(calculate_line_column(text, 1), (1, 2));
    assert_eq!(calculate_line_column(text, 2), (1, 3));
    assert_eq!(calculate_line_column(text, 3), (1, 3));
    assert_eq!(calculate_line_column(text, 4), (1, 4));
}

#[test]
fn nul_takes_no_column() {
    assert_eq!(calculate_line_column("a\0b", 2), (1, 2));
    assert_eq!(calculate_line_column("a\0b", 3), (1, 3));
}

#[test]
fn text_without_breaks_stays_on_line_one() {
    let text = "a😀\0b";
    for k in -2..10 {
        assert_eq!(calculate_line_column(text, k).0, 1);
    }
}
