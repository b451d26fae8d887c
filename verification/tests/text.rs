use git_wrapper::text::{
    after_first, before_first, first_line_of, lines_of, listed_of, object_id_of,
    reference_name_of, reference_names_of, same, trimmed, trimmed_end, whitespace,
};

#[test]
fn whitespace_is_what_std_calls_whitespace() {
    let mut code: u32 = 0;
    while code <= 0x10FFFF {
        if let Some(c) = char::from_u32(code) {
            assert_eq!(whitespace(c), c.is_whitespace(), "U+{:04X}", code);
        }
        code += 1;
    }
}

#[test]
fn trimmed_drops_white_space_at_both_ends() {
    assert_eq!(trimmed("  \t true \r\n"), "true");
    assert_eq!(trimmed("true"), "true");
    assert_eq!(trimmed(" \n "), "");
    assert_eq!(trimmed(""), "");
    assert_eq!(trimmed("a b"), "a b");
    assert_eq!(trimmed("\u{2003}x\u{3000}"), "x");
}

#[test]
fn trimmed_end_keeps_the_start() {
    assert_eq!(trimmed_end("  abc  \n"), "  abc");
    assert_eq!(trimmed_end("\n"), "");
}

#[test]
fn extraction_of_identifier_and_name() {
    assert_eq!(object_id_of("abc123\trefs/heads/main"), "abc123");
    assert_eq!(reference_name_of("abc123\trefs/heads/main"), Some("main".to_string()));
    assert_eq!(
        reference_name_of("abc123\trefs/tags/v1/extra"),
        Some("v1/extra".to_string())
    );
    assert_eq!(reference_name_of("abc123\trefs"), None);
    assert_eq!(reference_name_of("abc123\trefs/heads"), None);
    assert_eq!(reference_name_of("a/b/"), Some(String::new()));
    assert_eq!(object_id_of("no tab here"), "no tab here");
}

#[test]
fn fields_before_and_after() {
    assert_eq!(before_first("a\tb\tc", '\t'), "a");
    assert_eq!(after_first("a\tb\tc", '\t'), Some("b\tc".to_string()));
    assert_eq!(after_first("abc", '\t'), None);
    assert_eq!(before_first("", '/'), "");
    assert_eq!(after_first("/", '/'), Some(String::new()));
}

#[test]
fn lines_are_the_lines_of_std() {
    let samples = [
        "",
        "\n",
        "a",
        "a\n",
        "a\nb",
        "a\r\nb\r\n",
        "a\rb\n",
        "foo\nbar\n\r\nbaz\r",
        "\n\n",
        "x\r",
        "\r\n",
        "é\nü\r\n",
    ];
    for sample in samples {
        let expected: Vec<String> = sample.lines().map(|l| l.to_string()).collect();
        assert_eq!(lines_of(sample), expected, "{:?}", sample);
    }
}

#[test]
fn listed_lines_are_trimmed_and_not_empty() {
    assert_eq!(listed_of(" a \n\n\tb\r\n \n c d \n"), vec!["a", "b", "c d"]);
    assert!(listed_of("").is_empty());
    assert!(listed_of(" \n\r\n\t").is_empty());
    let text = "x/y/z\nno\n  1/2/3/4  \n";
    assert_eq!(reference_names_of(text), vec!["z", "3/4"]);
}

#[test]
fn the_first_line_is_the_first_of_the_lines() {
    assert_eq!(first_line_of("a\nb"), Some("a".to_string()));
    assert_eq!(first_line_of("\nb"), Some(String::new()));
    assert_eq!(first_line_of(""), None);
    assert_eq!(first_line_of("only\r\n"), Some("only".to_string()));
}

#[test]
fn same_compares_characters() {
    assert!(same("true", "true"));
    assert!(!same("true", "True"));
    assert!(!same("true", "true "));
    assert!(same("", ""));
}
