use systemd_language_server::text::{
    char_is_whitespace, chars_of, find_char, span_is, span_utf8_len, split_lines, trim_span,
    width_of, Span, TextIndex,
};

fn lines_of(text: &str) -> Vec<String> {
    let index = TextIndex::new(text);
    let mut out = Vec::new();
    for i in 0..index.line_count() {
        out.push(index.slice(index.line_span(i)).to_string());
    }
    out
}

fn std_lines(text: &str) -> Vec<String> {
    text.lines().map(|l| l.to_string()).collect()
}

#[test]
fn chars_of_keeps_every_character() {
    assert_eq!(chars_of("a=é\n"), vec!['a', '=', 'é', '\n']);
    assert_eq!(chars_of(""), Vec::<char>::new());
}

#[test]
fn empty_text_has_no_lines() {
    assert_eq!(lines_of(""), Vec::<String>::new());
}

#[test]
fn final_line_feed_adds_no_line() {
    assert_eq!(lines_of("[Unit]\nA=b\n"), vec!["[Unit]", "A=b"]);
    assert_eq!(lines_of("[Unit]\nA=b"), vec!["[Unit]", "A=b"]);
}

#[test]
fn blank_lines_are_lines() {
    assert_eq!(lines_of("\n"), vec![""]);
    assert_eq!(lines_of("a\n\nb\n\n"), vec!["a", "", "b", ""]);
}

#[test]
fn carriage_return_before_line_feed_is_dropped() {
    assert_eq!(lines_of("a\r\nb\r\n"), vec!["a", "b"]);
    assert_eq!(lines_of("a\r\r\n"), vec!["a\r"]);
    assert_eq!(lines_of("a\rb\n"), vec!["a\rb"]);
}

#[test]
fn bare_carriage_return_at_the_end_stays() {
    assert_eq!(lines_of("a\r"), vec!["a\r"]);
}

#[test]
fn lines_agree_with_std() {
    let samples = [
        "",
        "\n",
        "\r\n",
        "\r",
        "a",
        "a\n",
        "a\r\n",
        "a\r",
        "a\n\r",
        "\n\n",
        "[Unit]\r\nDescription=x\r\n\r\n[Service]\nType=simple",
        "é=ü\n\u{2028}x\n",
    ];
    for s in samples.iter() {
        assert_eq!(lines_of(s), std_lines(s), "text {:?}", s);
    }
}

#[test]
fn split_lines_gives_bounds() {
    let chars = chars_of("ab\r\ncd");
    let spans = split_lines(&chars);
    assert_eq!(spans, vec![Span { start: 0, end: 2 }, Span { start: 4, end: 6 }]);
}

#[test]
fn whitespace_is_what_std_trims() {
    let mut c: u32 = 0;
    while c <= 0x3100 {
        if let Some(ch) = char::from_u32(c) {
            assert_eq!(char_is_whitespace(ch), ch.is_whitespace(), "U+{:04X}", c);
        }
        c += 1;
    }
    assert!(!char_is_whitespace('\u{FEFF}'));
    assert!(!char_is_whitespace('\u{10FFFF}'));
}

#[test]
fn trim_span_drops_both_ends() {
    let chars = chars_of("  \tKey name \u{3000}=");
    let t = trim_span(&chars, Span { start: 0, end: chars.len() - 1 });
    assert_eq!(t, Span { start: 3, end: 11 });
}

#[test]
fn trim_span_of_blank_piece_is_empty() {
    let chars = chars_of("x   y");
    let t = trim_span(&chars, Span { start: 1, end: 4 });
    assert_eq!(t.start, t.end);
    let e = trim_span(&chars, Span { start: 2, end: 2 });
    assert_eq!(e, Span { start: 2, end: 2 });
}

#[test]
fn trim_span_agrees_with_std() {
    let samples = ["", " ", "a", " a", "a ", " a b ", "\t[Unit]\r", "\u{a0}x\u{2003}", " = "];
    for s in samples.iter() {
        let index = TextIndex::new(s);
        let t = trim_span(&index.chars, Span { start: 0, end: index.chars.len() });
        assert_eq!(index.slice(t), s.trim(), "text {:?}", s);
    }
}

#[test]
fn find_char_gives_first_or_end() {
    let chars = chars_of("a=b=c");
    let all = Span { start: 0, end: 5 };
    assert_eq!(find_char(&chars, all, '='), 1);
    assert_eq!(find_char(&chars, Span { start: 2, end: 5 }, '='), 3);
    assert_eq!(find_char(&chars, all, ']'), 5);
    assert_eq!(find_char(&chars, Span { start: 2, end: 3 }, '='), 3);
}

#[test]
fn width_of_is_utf8_width() {
    assert_eq!(width_of('a'), 1);
    assert_eq!(width_of('\u{7f}'), 1);
    assert_eq!(width_of('\u{80}'), 2);
    assert_eq!(width_of('é'), 2);
    assert_eq!(width_of('\u{7ff}'), 2);
    assert_eq!(width_of('\u{800}'), 3);
    assert_eq!(width_of('€'), 3);
    assert_eq!(width_of('\u{ffff}'), 3);
    assert_eq!(width_of('\u{10000}'), 4);
    assert_eq!(width_of('😀'), 4);
    for ch in ['a', 'é', '€', '😀', '\u{d7ff}', '\u{e000}'] {
        assert_eq!(width_of(ch), ch.len_utf8());
    }
}

#[test]
fn span_utf8_len_counts_bytes() {
    let text = "aé€😀b";
    let chars = chars_of(text);
    assert_eq!(span_utf8_len(&chars, Span { start: 0, end: 5 }), text.len());
    assert_eq!(span_utf8_len(&chars, Span { start: 1, end: 3 }), 5);
    assert_eq!(span_utf8_len(&chars, Span { start: 2, end: 2 }), 0);
}

#[test]
fn span_is_compares_the_piece() {
    let chars = chars_of("Type=simple");
    assert!(span_is(&chars, Span { start: 0, end: 4 }, "Type"));
    assert!(!span_is(&chars, Span { start: 0, end: 4 }, "Typo"));
    assert!(!span_is(&chars, Span { start: 0, end: 3 }, "Type"));
    assert!(!span_is(&chars, Span { start: 0, end: 5 }, "Type"));
    assert!(span_is(&chars, Span { start: 5, end: 11 }, "simple"));
    assert!(span_is(&chars, Span { start: 4, end: 4 }, ""));
}

#[test]
fn text_index_records_the_text() {
    let index = TextIndex::new("[Unit]\nDescription=é\n");
    assert_eq!(index.line_count(), 2);
    assert_eq!(index.byte_len, 22);
    assert_eq!(index.width(index.line_span(1)), 14);
    assert_eq!(index.slice(index.line_span(0)), "[Unit]");
}
