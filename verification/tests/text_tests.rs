use prhub::text::{chars_of, copy_window, join_texts, split_chars, split_lines, split_text, string_of};

fn owned(items: &[&str]) -> Vec<String> {
    items.iter().map(|s| s.to_string()).collect()
}

fn std_lines(text: &str) -> Vec<String> {
    text.lines().map(String::from).collect()
}

#[test]
fn chars_of_gives_every_character() {
    assert_eq!(chars_of(""), Vec::<char>::new());
    assert_eq!(chars_of("aé世"), vec!['a', 'é', '世']);
}

#[test]
fn string_of_cuts_by_character() {
    let chars = vec!['a', 'é', '世', 'b'];
    assert_eq!(string_of(&chars, 0, 4), "aé世b");
    assert_eq!(string_of(&chars, 1, 3), "é世");
    assert_eq!(string_of(&chars, 2, 2), "");
}

#[test]
fn split_text_keeps_empty_pieces() {
    assert_eq!(split_text("", '/'), owned(&[""]));
    assert_eq!(split_text("abc", '/'), owned(&["abc"]));
    assert_eq!(split_text("/repos/owner/repo", '/'), owned(&["", "repos", "owner", "repo"]));
    assert_eq!(split_text("a//b/", '/'), owned(&["a", "", "b", ""]));
    assert_eq!(split_text("/", '/'), owned(&["", ""]));
}

#[test]
fn split_chars_matches_std_split() {
    for text in ["", "a", "a,b", ",a,,b,", ",,,", "é,世"] {
        let expected: Vec<String> = text.split(',').map(String::from).collect();
        assert_eq!(split_chars(&text.chars().collect(), ','), expected);
    }
}

#[test]
fn join_texts_puts_separator_between() {
    assert_eq!(join_texts(&owned(&[]), "/"), "");
    assert_eq!(join_texts(&owned(&["a"]), "/"), "a");
    assert_eq!(join_texts(&owned(&["owner", "repo"]), "/"), "owner/repo");
    assert_eq!(join_texts(&owned(&["a", "", "b"]), ", "), "a, , b");
}

#[test]
fn join_undoes_split() {
    for text in ["", "a", "a/b", "/a//b/", "///"] {
        assert_eq!(join_texts(&split_text(text, '/'), "/"), text);
    }
}

#[test]
fn copy_window_skips_and_takes() {
    let items = owned(&["a", "b", "c", "d"]);
    assert_eq!(copy_window(&items, 2, 2), owned(&["c", "d"]));
    assert_eq!(copy_window(&items, 0, 1), owned(&["a"]));
    assert_eq!(copy_window(&items, 3, 5), owned(&["d"]));
    assert_eq!(copy_window(&items, 4, 1), owned(&[]));
    assert_eq!(copy_window(&items, 1, 0), owned(&[]));
    assert_eq!(copy_window(&items, usize::MAX, usize::MAX), owned(&[]));
}

#[test]
fn split_lines_plain() {
    assert_eq!(split_lines("a\nb\nc"), owned(&["a", "b", "c"]));
    assert_eq!(split_lines("a\nb\n"), owned(&["a", "b"]));
    assert_eq!(split_lines(""), owned(&[]));
    assert_eq!(split_lines("one"), owned(&["one"]));
}

#[test]
fn split_lines_empty_lines_stay() {
    assert_eq!(split_lines("\n"), owned(&[""]));
    assert_eq!(split_lines("\n\n"), owned(&["", ""]));
    assert_eq!(split_lines("a\n\nb"), owned(&["a", "", "b"]));
}

#[test]
fn split_lines_carriage_returns() {
    assert_eq!(split_lines("a\r\nb\r\n"), owned(&["a", "b"]));
    assert_eq!(split_lines("a\rb"), owned(&["a\rb"]));
    assert_eq!(split_lines("a\r"), owned(&["a\r"]));
    assert_eq!(split_lines("a\r\r\nb"), owned(&["a\r", "b"]));
    assert_eq!(split_lines("\r\n"), owned(&[""]));
    assert_eq!(split_lines("foo\r\nbar\n\nbaz\r"), owned(&["foo", "bar", "", "baz\r"]));
}

#[test]
fn split_lines_agrees_with_std() {
    for text in [
        "",
        "\n",
        "\r",
        "\r\n",
        "\n\r",
        "a",
        "a\n",
        "a\r\n",
        "a\n\r\nb\r",
        "diff --git a/x b/x\n@@ -1 +1 @@\n-old\n+new\n",
        "é\n世界\r\n",
        "\n\n\n",
        "x\r\r\n\ry",
    ] {
        assert_eq!(split_lines(text), std_lines(text), "text {text:?}");
    }
}
