use markstx::lines::{join_range, split_lines, text_after_line};

fn lines(text: &str) -> Vec<String> {
    split_lines(text)
}

#[test]
fn text_falls_into_its_lines() {
    assert_eq!(lines("a\nb\nc"), vec!["a", "b", "c"]);
    assert_eq!(lines("a\n\nb\n"), vec!["a", "", "b"]);
    assert_eq!(lines("\n"), vec![""]);
    assert_eq!(lines("\n\n"), vec!["", ""]);
    assert_eq!(lines(""), Vec::<String>::new());
    assert_eq!(lines("one"), vec!["one"]);
}

#[test]
fn carriage_return_before_a_line_feed_ends_the_line() {
    assert_eq!(lines("a\r\nb\r\n"), vec!["a", "b"]);
    assert_eq!(lines("a\r\n\r\nb"), vec!["a", "", "b"]);
    assert_eq!(lines("\r\n"), vec![""]);
    assert_eq!(lines("a\r\r\nb"), vec!["a\r", "b"]);
}

#[test]
fn carriage_return_elsewhere_stays_in_the_line() {
    assert_eq!(lines("a\rb"), vec!["a\rb"]);
    assert_eq!(lines("\ra\n"), vec!["\ra"]);
    assert_eq!(lines("a\r"), vec!["a\r"]);
    assert_eq!(lines("\r"), vec!["\r"]);
    assert_eq!(lines("a\n\r"), vec!["a", "\r"]);
}

#[test]
fn lines_are_those_of_the_standard_library() {
    for text in [
        "",
        "a",
        "a\n",
        "a\nb",
        "a\r\nb\r\n",
        "\n\n\n",
        "a\rb\r\n\rc",
        "---\ntitle: é\n---\n日本語\n",
        " \t\n x \n",
        "a\r\r\n\r\nb\r",
        "\r\n\r\n",
        "last\r",
    ] {
        let expected: Vec<String> = text.lines().map(|line| line.to_string()).collect();
        assert_eq!(lines(text), expected, "lines of {text:?}");
    }
}

#[test]
fn lines_are_joined_by_line_feeds() {
    let all: Vec<String> = vec!["a".to_string(), "".to_string(), "b".to_string(), "c".to_string()];
    assert_eq!(join_range(&all, 0, 4), "a\n\nb\nc");
    assert_eq!(join_range(&all, 1, 3), "\nb");
    assert_eq!(join_range(&all, 2, 3), "b");
    assert_eq!(join_range(&all, 1, 2), "");
    assert_eq!(join_range(&all, 2, 2), "");
    assert_eq!(join_range(&all, 4, 4), "");
    assert_eq!(join_range(&Vec::new(), 0, 0), "");
}

#[test]
fn joined_lines_are_those_of_the_standard_library() {
    let all: Vec<String> = "x\ny\n\nz".lines().map(|line| line.to_string()).collect();
    for from in 0..=all.len() {
        for to in from..=all.len() {
            assert_eq!(join_range(&all, from, to), all[from..to].join("\n"));
        }
    }
}

#[test]
fn text_behind_a_line_is_kept_as_it_is() {
    let text = "a\nb\r\n\nc\n";
    assert_eq!(text_after_line(text, 0), "b\r\n\nc\n");
    assert_eq!(text_after_line(text, 1), "\nc\n");
    assert_eq!(text_after_line(text, 2), "c\n");
    assert_eq!(text_after_line(text, 3), "");
    assert_eq!(text_after_line(text, 4), "");
    assert_eq!(text_after_line("a\nb", 1), "");
    assert_eq!(text_after_line("a\nb", 0), "b");
    assert_eq!(text_after_line("", 0), "");
    assert_eq!(text_after_line("é\n日本語", 0), "日本語");
}
