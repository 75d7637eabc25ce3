use condex::text::{char_len_utf8, decimal_string, last_line_len};
use condex::widgets::message::count_lines;

#[test]
fn last_line_lengths_follow_str_lines() {
    let cases = ["", "abc", "abc\n", "a\nbc", "a\n\n", "ab\r\n", "ab\r", "\n", "x\r\ny\r\n", "é\nàb"];
    for s in cases {
        let expected = s.lines().last().map(str::len);
        assert_eq!(last_line_len(&s.to_string()), expected, "for {:?}", s);
        assert_eq!(count_lines(&s.to_string()), s.lines().count(), "for {:?}", s);
    }
}

#[test]
fn utf8_widths() {
    for c in ['a', 'é', '€', '😀', '\u{7f}', '\u{80}', '\u{7ff}', '\u{800}', '\u{ffff}', '\u{10000}'] {
        assert_eq!(char_len_utf8(c), c.len_utf8(), "for {:?}", c);
    }
}

#[test]
fn decimal_matches_display() {
    for n in [0, 7, 10, 99, 100, 1214, -1, -42, i32::MAX, i32::MIN] {
        assert_eq!(decimal_string(n), n.to_string());
    }
}
