use xi_term::{
    AbsoluteMove, AbsoluteMovePoint, Command, FindConfig, FromPrompt, ParseCommandError,
    RelativeMove, RelativeMoveDistance,
};

fn parse(s: &str) -> Result<Command, ParseCommandError> {
    Command::from_prompt(s)
}

fn relative(by: RelativeMoveDistance, forward: bool, extend: bool) -> Command {
    Command::RelativeMove(RelativeMove { by, forward, extend })
}

fn find(term: &str, case_sensitive: bool, regex: bool, whole_words: bool) -> Command {
    Command::Find(FindConfig { search_term: term.to_string(), case_sensitive, regex, whole_words })
}

#[test]
fn move_down() {
    assert_eq!(parse("move d"), Ok(relative(RelativeMoveDistance::lines, true, false)));
}

#[test]
fn move_down_extend() {
    assert_eq!(parse("move d e"), Ok(relative(RelativeMoveDistance::lines, true, true)));
}

#[test]
fn move_unknown_token() {
    assert_eq!(parse("move zz"), Err(ParseCommandError::UnknownCommand("zz".to_string())));
}

#[test]
fn move_table_long_and_short_forms() {
    let table = [
        ("d", "down", RelativeMoveDistance::lines, true),
        ("u", "up", RelativeMoveDistance::lines, false),
        ("r", "right", RelativeMoveDistance::characters, true),
        ("l", "left", RelativeMoveDistance::characters, false),
        ("pd", "page-down", RelativeMoveDistance::pages, true),
        ("pu", "page-up", RelativeMoveDistance::pages, false),
    ];
    for (short, long, by, forward) in table {
        for token in [short, long] {
            assert_eq!(RelativeMove::from_prompt(token), Ok(relative(by.clone(), forward, false)));
            let two = format!("{} anything", token);
            assert_eq!(RelativeMove::from_prompt(&two), Ok(relative(by.clone(), forward, true)));
        }
    }
}

#[test]
fn move_second_token_content_is_ignored() {
    let a = RelativeMove::from_prompt("pu x");
    let b = RelativeMove::from_prompt("pu extend");
    assert_eq!(a, b);
    assert_eq!(a, Ok(relative(RelativeMoveDistance::pages, false, true)));
}

#[test]
fn move_too_many_arguments() {
    assert_eq!(
        RelativeMove::from_prompt("d e f"),
        Err(ParseCommandError::TooManyArguments { cmd: "move".to_string(), expected: 2, found: 3 })
    );
    assert_eq!(
        parse("move d e f g"),
        Err(ParseCommandError::TooManyArguments { cmd: "move".to_string(), expected: 2, found: 4 })
    );
}

#[test]
fn move_empty_argument() {
    assert_eq!(
        RelativeMove::from_prompt(""),
        Err(ParseCommandError::ExpectedArgument { cmd: "move".to_string() })
    );
    assert_eq!(parse("move"), Err(ParseCommandError::ExpectedArgument { cmd: "move".to_string() }));
}

#[test]
fn move_to_line_number() {
    let expected = Command::AbsoluteMove(AbsoluteMove { to: AbsoluteMovePoint::line(42), extend: false });
    assert_eq!(parse("move_to 42"), Ok(expected.clone()));
    assert_eq!(parse("move_to 42 e"), Ok(expected.clone()));
    assert_eq!(parse("move_to +42"), Ok(expected));
}

#[test]
fn move_to_not_a_number() {
    assert_eq!(parse("move_to abc"), Err(ParseCommandError::UnknownCommand("abc".to_string())));
    assert_eq!(parse("move_to -1"), Err(ParseCommandError::UnknownCommand("-1".to_string())));
    assert_eq!(
        parse("move_to 18446744073709551616"),
        Err(ParseCommandError::UnknownCommand("18446744073709551616".to_string()))
    );
}

#[test]
fn move_to_largest_line_number() {
    assert_eq!(
        parse("move_to 18446744073709551615"),
        Ok(Command::AbsoluteMove(AbsoluteMove { to: AbsoluteMovePoint::line(u64::MAX), extend: false }))
    );
}

#[test]
fn move_to_named_points() {
    let table = [
        ("bof", "beginning-of-file", AbsoluteMovePoint::bof),
        ("eof", "end-of-file", AbsoluteMovePoint::eof),
        ("bol", "beginning-of-line", AbsoluteMovePoint::bol),
        ("eol", "end-of-line", AbsoluteMovePoint::eol),
    ];
    for (short, long, to) in table {
        for token in [short, long] {
            assert_eq!(
                AbsoluteMove::from_prompt(token),
                Ok(Command::AbsoluteMove(AbsoluteMove { to: to.clone(), extend: false }))
            );
            let two = format!("{} e", token);
            assert_eq!(
                AbsoluteMove::from_prompt(&two),
                Ok(Command::AbsoluteMove(AbsoluteMove { to: to.clone(), extend: true }))
            );
        }
    }
}

#[test]
fn move_to_errors() {
    assert_eq!(parse("move_to"), Err(ParseCommandError::ExpectedArgument { cmd: "move".to_string() }));
    assert_eq!(
        AbsoluteMove::from_prompt(""),
        Err(ParseCommandError::ExpectedArgument { cmd: "move_to".to_string() })
    );
    assert_eq!(
        parse("move_to 1 2 3"),
        Err(ParseCommandError::TooManyArguments { cmd: "move_to".to_string(), expected: 2, found: 3 })
    );
}

#[test]
fn find_with_flags() {
    assert_eq!(FindConfig::from_prompt("cr needle text"), Ok(find("needle text", true, true, false)));
}

#[test]
fn find_long_first_word() {
    assert_eq!(FindConfig::from_prompt("hello world"), Ok(find("hello world", false, false, false)));
}

#[test]
fn find_rejected_cluster() {
    assert_eq!(FindConfig::from_prompt("xy z"), Ok(find("xy z", false, false, false)));
}

#[test]
fn find_flag_variants() {
    assert_eq!(FindConfig::from_prompt("w a"), Ok(find("a", false, false, true)));
    assert_eq!(FindConfig::from_prompt("crw a b"), Ok(find("a b", true, true, true)));
    assert_eq!(FindConfig::from_prompt("ccc x"), Ok(find("x", true, false, false)));
    assert_eq!(FindConfig::from_prompt("crwc x"), Ok(find("crwc x", false, false, false)));
    assert_eq!(FindConfig::from_prompt("cr"), Ok(find("cr", false, false, false)));
    assert_eq!(FindConfig::from_prompt("c "), Ok(find("", true, false, false)));
    assert_eq!(FindConfig::from_prompt(" x"), Ok(find("x", false, false, false)));
}

#[test]
fn find_through_prompt() {
    assert_eq!(parse("f cr needle text"), Ok(find("needle text", true, true, false)));
    assert_eq!(parse("find hello"), Ok(find("hello", false, false, false)));
    assert_eq!(parse("find"), Err(ParseCommandError::ExpectedArgument { cmd: "find".to_string() }));
    assert_eq!(parse("f "), Err(ParseCommandError::ExpectedArgument { cmd: "find".to_string() }));
}

#[test]
fn theme_commands() {
    assert_eq!(parse("t solarized dark"), Ok(Command::SetTheme("solarized dark".to_string())));
    assert_eq!(parse("theme x"), Ok(Command::SetTheme("x".to_string())));
    assert_eq!(parse("theme"), Err(ParseCommandError::ExpectedArgument { cmd: "theme".to_string() }));
}

#[test]
fn open_commands() {
    assert_eq!(parse("o"), Ok(Command::Open(None)));
    assert_eq!(parse("open my file.txt"), Ok(Command::Open(Some("my file.txt".to_string()))));
}

#[test]
fn open_unset_variable_fails() {
    assert_eq!(
        parse("open $XI_TERM_VARIABLE_THAT_IS_NOT_SET_1234/x"),
        Err(ParseCommandError::UnknownCommand("$XI_TERM_VARIABLE_THAT_IS_NOT_SET_1234/x".to_string()))
    );
}

#[test]
fn open_expanded_values() {
    assert_eq!(
        Command::open_expanded("~/a", Some("/home/u/a".to_string())),
        Ok(Command::Open(Some("/home/u/a".to_string())))
    );
    assert_eq!(
        Command::open_expanded("$X", None),
        Err(ParseCommandError::UnknownCommand("$X".to_string()))
    );
}

#[test]
fn other_words_go_through_keymap_table() {
    assert_eq!(parse("q"), Ok(Command::Quit));
    assert_eq!(parse("quit now"), Ok(Command::Quit));
    assert_eq!(parse("bn"), Ok(Command::NextBuffer));
    assert_eq!(parse("select_lines"), Err(ParseCommandError::ExpectedArgument { cmd: "select_lines".to_string() }));
    assert_eq!(parse("frobnicate x"), Err(ParseCommandError::UnknownCommand("frobnicate".to_string())));
    assert_eq!(parse(""), Err(ParseCommandError::UnknownCommand("".to_string())));
}
