use engine::text::split_rows;

fn rows(lines: &[&str]) -> Vec<Vec<char>> {
    lines.iter().map(|line| line.chars().collect()).collect()
}

#[test]
fn split_rows_of_texts_without_line_feed() {
    assert_eq!((rows(&[""]), 0), split_rows(""));
    assert_eq!((rows(&["a"]), 1), split_rows("a"));
    assert_eq!((rows(&["one row | only"]), 14), split_rows("one row | only"));
}

#[test]
fn split_rows_at_every_line_feed() {
    assert_eq!((rows(&["ab", "cde", "f"]), 3), split_rows("ab\ncde\nf"));
    assert_eq!((rows(&["ab", ""]), 2), split_rows("ab\n"));
    assert_eq!((rows(&["", "ab"]), 2), split_rows("\nab"));
    assert_eq!((rows(&["", ""]), 0), split_rows("\n"));
    assert_eq!((rows(&["", "", "x", "", ""]), 1), split_rows("\n\nx\n\n"));
}

#[test]
fn split_rows_counts_characters_and_not_bytes() {
    let text = "\u{e9}t\u{e9}\n\u{2502}\u{2551}";
    assert_eq!((rows(&["\u{e9}t\u{e9}", "\u{2502}\u{2551}"]), 3), split_rows(text));
    assert_eq!((rows(&["a\r", "b\t"]), 2), split_rows("a\r\nb\t"));
}

#[test]
fn split_rows_measures_the_longest_row() {
    assert_eq!(5, split_rows("a\nbb\nccccc\ndd").1);
    assert_eq!(5, split_rows("ccccc\na").1);
    assert_eq!(5, split_rows("a\nccccc").1);
    let (split, width) = split_rows("ab\nabcd\n\nabc");
    assert_eq!(Some(width), split.iter().map(|row| row.len()).max());
}

#[test]
fn split_rows_joined_give_the_text() {
    for text in ["", "a", "\n", "ab\ncd", "ab\ncd\n", "\n\nx\n\n", "a|b\n|\n"] {
        let (split, _) = split_rows(text);
        let lines: Vec<String> = split.iter().map(|row| row.iter().collect()).collect();
        assert_eq!(text, lines.join("\n"));
        assert!(split.iter().all(|row| !row.contains(&'\n')));
        assert_eq!(text.matches('\n').count() + 1, split.len());
    }
}
