use gameserver_cli::text::{lines, trim, trim_end, trim_start};

#[test]
fn lines_split_like_str_lines() {
    for text in ["", "a", "a\n", "a\nb", "a\r\nb\r\n", "\n\n", "x\r", "a\rb\nc", "\r\n"] {
        let expected: Vec<String> = text.lines().map(|l| l.to_string()).collect();
        assert_eq!(lines(text), expected, "text {:?}", text);
    }
    assert_eq!(lines("one\r\ntwo\nthree"), vec!["one", "two", "three"]);
}

#[test]
fn trims_like_str_trim() {
    for text in ["", "  a  ", "\t\n a b \r\n", "\u{3000}x\u{a0}", "\u{200b}y", "none"] {
        assert_eq!(trim(text), text.trim(), "text {:?}", text);
        assert_eq!(trim_start(text), text.trim_start(), "text {:?}", text);
        assert_eq!(trim_end(text), text.trim_end(), "text {:?}", text);
    }
    assert_eq!(trim(" \t data \n"), "data");
}
