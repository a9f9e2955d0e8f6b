use ollama_chat::text::{
    chars_of, chunk_lines, joined, same_text, split_lines, text_of, trim_matches,
};

fn std_lines(text: &str) -> Vec<String> {
    text.lines().map(|line| line.to_string()).collect()
}

#[test]
fn characters_round_trip() {
    let chars = chars_of("héllo, 世界");
    assert_eq!(chars, vec!['h', 'é', 'l', 'l', 'o', ',', ' ', '世', '界']);
    assert_eq!(text_of(&chars, 0, chars.len()), "héllo, 世界");
    assert_eq!(text_of(&chars, 1, 3), "él");
    assert_eq!(text_of(&chars, 4, 4), "");
    assert_eq!(chars_of(""), Vec::<char>::new());
}

#[test]
fn same_text_compares_characters() {
    assert!(same_text("", ""));
    assert!(same_text("done", "done"));
    assert!(!same_text("done", "Done"));
    assert!(!same_text("done", "don"));
    assert!(!same_text("don", "done"));
    assert!(!same_text("", "x"));
}

#[test]
fn joined_concatenates() {
    assert_eq!(joined("", ""), "");
    assert_eq!(joined("llama3", ": "), "llama3: ");
    assert_eq!(joined("", "x"), "x");
}

#[test]
fn trim_matches_removes_both_runs() {
    assert_eq!(trim_matches("\"Title\"", '"'), "Title");
    assert_eq!(trim_matches("\"\"Title\"", '"'), "Title");
    assert_eq!(trim_matches("Ti\"tle", '"'), "Ti\"tle");
    assert_eq!(trim_matches("**bold**", '*'), "bold");
    assert_eq!(trim_matches("***", '*'), "");
    assert_eq!(trim_matches("", '*'), "");
    assert_eq!(trim_matches("*", '*'), "");
    assert_eq!(trim_matches("a*", '*'), "a");
    assert_eq!(trim_matches("*a", '*'), "a");
    assert_eq!(trim_matches(" *a* ", '*'), " *a* ");
}

#[test]
fn trim_matches_agrees_with_std() {
    for text in ["", "x", "xx", "xax", "axa", "xxaxxbxx", "a", "ab", "xé世x", "éxé"] {
        for c in ['x', 'a', 'é'] {
            assert_eq!(trim_matches(text, c), text.trim_matches(c), "{:?} {:?}", text, c);
        }
    }
}

#[test]
fn split_lines_ends_lines_at_line_feeds() {
    assert_eq!(split_lines(""), Vec::<String>::new());
    assert_eq!(split_lines("a"), vec!["a"]);
    assert_eq!(split_lines("a\n"), vec!["a"]);
    assert_eq!(split_lines("a\nb"), vec!["a", "b"]);
    assert_eq!(split_lines("a\r\nb\r\n"), vec!["a", "b"]);
    assert_eq!(split_lines("\n"), vec![""]);
    assert_eq!(split_lines("\n\n"), vec!["", ""]);
    assert_eq!(split_lines("\r\n"), vec![""]);
    assert_eq!(split_lines("a\r"), vec!["a\r"]);
    assert_eq!(split_lines("a\rb\n"), vec!["a\rb"]);
    assert_eq!(split_lines("a\r\r\n"), vec!["a\r"]);
    assert_eq!(split_lines("a\n\nb"), vec!["a", "", "b"]);
}

#[test]
fn split_lines_agrees_with_std() {
    for text in [
        "", "a", "a\n", "\na", "a\nb", "a\r\nb\r\n", "\n", "\n\n", "\r\n", "a\r", "\r", "a\rb\n",
        "a\r\r\n", "a\n\nb", "\r\n\r\n", "{\"done\":true}\n", "é\n世\r\n界",
    ] {
        assert_eq!(split_lines(text), std_lines(text), "{:?}", text);
    }
}

#[test]
fn chunk_lines_reads_bytes_leniently() {
    assert_eq!(chunk_lines(b""), Vec::<String>::new());
    assert_eq!(chunk_lines(b"one\ntwo\n"), vec!["one", "two"]);
    assert_eq!(chunk_lines("é\n世".as_bytes()), vec!["é", "世"]);
    assert_eq!(chunk_lines(&[b'a', 0xff, b'b', b'\n', 0xc3]), vec!["a\u{fffd}b", "\u{fffd}"]);
}
