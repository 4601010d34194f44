use pipe::text::{
    blank, contains, ends_with, first_lines, join, lines, push_decimal, split, starts_with, to_chars,
    trim, whitespace,
};

fn std_lines(text: &str) -> Vec<String> {
    text.lines().map(|line| line.to_string()).collect()
}

fn std_split(text: &str, delimiter: char) -> Vec<String> {
    text.split(delimiter).map(|field| field.to_string()).collect()
}

const SAMPLES: [&str; 16] = [
    "",
    "\n",
    "\r\n",
    "a",
    "a\n",
    "a\r\n",
    "a\r",
    "a\n\nb",
    "a\r\n\r\nb\r\n",
    "one\ntwo\nthree",
    "one\ntwo\nthree\n",
    "x\r\r\ny",
    "\r",
    "\n\n\n",
    "tab\there | pipe\n| lead\ntrail |\n",
    "caf\u{e9}\n\u{1f33f} branch\r\nlast",
];

#[test]
fn lines_agree_with_the_standard_library() {
    for text in SAMPLES {
        assert_eq!(lines(text), std_lines(text), "text {:?}", text);
    }
}

#[test]
fn lines_of_empty_text_are_none() {
    assert_eq!(lines(""), Vec::<String>::new());
}

#[test]
fn lines_keep_a_carriage_return_that_no_line_feed_follows() {
    assert_eq!(lines("a\rb\nc\r"), vec!["a\rb".to_string(), "c\r".to_string()]);
}

#[test]
fn first_lines_stop_at_the_limit() {
    assert_eq!(first_lines("a\nb\nc\n", 2), vec!["a".to_string(), "b".to_string()]);
    assert_eq!(first_lines("a\nb\nc\n", 3), vec!["a".to_string(), "b".to_string(), "c".to_string()]);
    assert_eq!(first_lines("a\nb\nc\n", 9), vec!["a".to_string(), "b".to_string(), "c".to_string()]);
    assert_eq!(first_lines("a\nb\nc\n", 0), Vec::<String>::new());
}

#[test]
fn split_agrees_with_the_standard_library() {
    for text in SAMPLES {
        assert_eq!(split(text, '|'), std_split(text, '|'), "text {:?}", text);
        assert_eq!(split(text, '\n'), std_split(text, '\n'), "text {:?}", text);
    }
    assert_eq!(split("a|b||c|", '|'), vec!["a", "b", "", "c", ""]);
    assert_eq!(split("", '|'), vec![""]);
}

#[test]
fn whitespace_agrees_with_the_standard_library_on_every_character() {
    let mut code: u32 = 0;
    while code <= 0x10ffff {
        if let Some(c) = char::from_u32(code) {
            assert_eq!(whitespace(c), c.is_whitespace(), "code point {:x}", code);
        }
        code += 1;
    }
}

#[test]
fn trim_agrees_with_the_standard_library() {
    let samples = ["", " ", "main\n", "  main  ", "\t\r\n x y \u{a0}\u{3000}", "a", " a", "a ", "\u{2003}wide\u{2003}"];
    for text in samples {
        assert_eq!(trim(text), text.trim(), "text {:?}", text);
        assert_eq!(blank(text), text.trim().is_empty(), "text {:?}", text);
    }
}

#[test]
fn contains_and_ends_with_agree_with_the_standard_library() {
    let texts = ["", "a", "target/debug/app.o", "src/target", ".git/HEAD", "src/main.rs", "x.o", ".o", "o", "abcabd"];
    let patterns = ["", "a", "target/", ".git/", ".o", "abd", "abcabdx", "/"];
    for text in texts {
        for pattern in patterns {
            assert_eq!(contains(text, pattern), text.contains(pattern), "{:?} in {:?}", pattern, text);
            assert_eq!(ends_with(text, pattern), text.ends_with(pattern), "{:?} ends {:?}", pattern, text);
            assert_eq!(starts_with(text, pattern), text.starts_with(pattern), "{:?} starts {:?}", pattern, text);
        }
    }
}

#[test]
fn join_puts_the_separator_between_lines() {
    let none: Vec<String> = Vec::new();
    assert_eq!(join(&none, "\n"), "");
    assert_eq!(join(&vec!["a".to_string()], "\n"), "a");
    assert_eq!(join(&vec!["a".to_string(), "".to_string(), "b".to_string()], "\n"), "a\n\nb");
    assert_eq!(join(&vec!["a".to_string(), "b".to_string()], ", "), "a, b");
}

#[test]
fn decimal_digits_of_numbers() {
    for n in [0usize, 1, 9, 10, 11, 20, 50, 99, 100, 1000, 65535, usize::MAX] {
        let mut text = String::from("-");
        push_decimal(&mut text, n);
        assert_eq!(text, format!("-{}", n));
    }
}

#[test]
fn to_chars_lists_every_character() {
    assert_eq!(to_chars("a\u{e9}\u{1f33f}"), vec!['a', '\u{e9}', '\u{1f33f}']);
    assert_eq!(to_chars(""), Vec::<char>::new());
}

fn words(alphabet: &[char], longest: usize) -> Vec<String> {
    let mut all = vec![String::new()];
    let mut last = vec![String::new()];
    for _ in 0..longest {
        let mut next = Vec::new();
        for word in &last {
            for c in alphabet {
                let mut longer = word.clone();
                longer.push(*c);
                next.push(longer);
            }
        }
        all.extend(next.iter().cloned());
        last = next;
    }
    all
}

#[test]
fn lines_and_fields_of_every_short_text() {
    for text in words(&['a', '\n', '\r', '|'], 6) {
        assert_eq!(lines(&text), std_lines(&text), "text {:?}", text);
        assert_eq!(split(&text, '|'), std_split(&text, '|'), "text {:?}", text);
        for limit in 0..4 {
            let expected: Vec<String> = std_lines(&text).into_iter().take(limit).collect();
            assert_eq!(first_lines(&text, limit), expected, "text {:?}", text);
        }
    }
}

#[test]
fn trimming_every_short_text() {
    for text in words(&['a', ' ', '\n', '\u{a0}'], 6) {
        assert_eq!(trim(&text), text.trim(), "text {:?}", text);
        assert_eq!(blank(&text), text.trim().is_empty(), "text {:?}", text);
    }
}

#[test]
fn searching_every_short_text() {
    let patterns = words(&['a', 'b'], 3);
    for text in words(&['a', 'b'], 6) {
        for pattern in &patterns {
            assert_eq!(contains(&text, pattern), text.contains(pattern.as_str()));
            assert_eq!(ends_with(&text, pattern), text.ends_with(pattern.as_str()));
            assert_eq!(starts_with(&text, pattern), text.starts_with(pattern.as_str()));
        }
    }
}

#[test]
fn joining_lines_agrees_with_the_standard_library() {
    for text in words(&['a', 'b', '\n'], 6) {
        let joined = join(&lines(&text), "\n");
        let expected = std_lines(&text).join("\n");
        assert_eq!(joined, expected, "text {:?}", text);
    }
}
