use sheeko::voice::{parse_switch_command, split_words};

#[test]
fn switch_line_is_parsed() {
    let command = parse_switch_command("switch 42 127.0.0.1:6000").unwrap();
    assert_eq!(command.ssrc, 42);
    assert_eq!(command.addr, "127.0.0.1:6000");
}

#[test]
fn switch_line_tolerates_extra_spaces() {
    let command = parse_switch_command("  switch\t7   [::1]:9 \n").unwrap();
    assert_eq!(command.ssrc, 7);
    assert_eq!(command.addr, "[::1]:9");
}

#[test]
fn malformed_switch_lines_are_refused() {
    assert!(parse_switch_command("").is_none());
    assert!(parse_switch_command("switch 42").is_none());
    assert!(parse_switch_command("switch 42 a b").is_none());
    assert!(parse_switch_command("swap 42 127.0.0.1:6000").is_none());
    assert!(parse_switch_command("switch x 127.0.0.1:6000").is_none());
    assert!(parse_switch_command("switch 4294967296 127.0.0.1:6000").is_none());
}

#[test]
fn words_are_runs_of_non_spaces() {
    assert_eq!(split_words(" a bb  c "), vec!["a", "bb", "c"]);
    assert!(split_words("   ").is_empty());
}
