use rush::tokenizer::{parse_command, ParseError, MAX_COMMAND_CHARS};

#[test]
fn test_parse_command() {
    let input = "ls -l\n";
    let commands = parse_command(input).unwrap();
    assert_eq!(commands, vec!["ls", "-l"]);
}

#[test]
fn test_parse_command_with_quotes() {
    let input = "ls -l 'foo bar'\n";
    let commands = parse_command(input).unwrap();
    assert_eq!(commands, vec!["ls", "-l", "foo bar"]);
}

#[test]
fn test_parse_command_with_quotes_and_spaces() {
    let input = "ls -l 'foo bar'        baz\n";
    let commands = parse_command(input).unwrap();
    assert_eq!(commands, vec!["ls", "-l", "foo bar", "baz"]);
}

#[test]
fn test_parse_command_with_leading_spaces_and_tabs() {
    let input = "\t ls -l 'foo bar'";
    let commands = parse_command(input).unwrap();
    assert_eq!(commands, vec!["ls", "-l", "foo bar"]);
}

#[test]
fn unquoted_line_splits_on_runs_of_spaces_and_newlines() {
    let commands = parse_command("  echo   a\n\nb  c ").unwrap();
    assert_eq!(commands, vec!["echo", "a", "b", "c"]);
}

#[test]
fn tab_inside_a_word_is_kept_but_trimmed_at_its_ends() {
    let commands = parse_command("a\tb \tc\t").unwrap();
    assert_eq!(commands, vec!["a\tb", "c"]);
}

#[test]
fn whitespace_inside_quotes_is_kept() {
    let commands = parse_command("echo \"a  b\nc\" x").unwrap();
    assert_eq!(commands, vec!["echo", "a  b\nc", "x"]);
}

#[test]
fn other_quote_inside_quotes_is_literal() {
    assert_eq!(parse_command("echo \"it's\"").unwrap(), vec!["echo", "it's"]);
    assert_eq!(parse_command("echo 'say \"hi\"'").unwrap(), vec!["echo", "say \"hi\""]);
}

#[test]
fn quotes_join_with_adjacent_text() {
    assert_eq!(parse_command("a'b c'd e").unwrap(), vec!["ab cd", "e"]);
}

#[test]
fn unterminated_quote_runs_to_end_of_line() {
    assert_eq!(parse_command("echo 'a b").unwrap(), vec!["echo", "a b"]);
}

#[test]
fn empty_quotes_give_no_token() {
    assert_eq!(parse_command("'' x \"\"").unwrap(), vec!["x"]);
}

#[test]
fn empty_and_blank_lines_give_no_tokens() {
    assert!(parse_command("").unwrap().is_empty());
    assert!(parse_command(" \n \t").unwrap().is_empty());
}

#[test]
fn reparsing_a_token_gives_it_back() {
    let tokens = parse_command("ls -l foo\n").unwrap();
    for t in tokens {
        assert_eq!(parse_command(&t).unwrap(), vec![t.clone()]);
    }
}

#[test]
fn line_at_the_ceiling_is_accepted() {
    let line = "a".repeat(MAX_COMMAND_CHARS);
    let tokens = parse_command(&line).unwrap();
    assert_eq!(tokens, vec![line.clone()]);
}

#[test]
fn line_over_the_ceiling_is_rejected() {
    let line = "a".repeat(MAX_COMMAND_CHARS + 1);
    assert_eq!(parse_command(&line), Err(ParseError::CommandTooLong));
}

#[test]
fn ceiling_counts_characters_not_bytes() {
    let line = "é".repeat(MAX_COMMAND_CHARS);
    assert!(parse_command(&line).is_ok());
    let longer = "é".repeat(MAX_COMMAND_CHARS + 1);
    assert_eq!(parse_command(&longer), Err(ParseError::CommandTooLong));
}
