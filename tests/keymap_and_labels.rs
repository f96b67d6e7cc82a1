use xi_term::{
    AbsoluteMove, AbsoluteMovePoint, Command, CommandPromptMode, ExpandLinesDirection, FindConfig,
    KeymapArgs, KeymapEntry, ParseCommandError, RelativeMove, RelativeMoveDistance, ToPrompt,
};

fn no_args() -> KeymapArgs {
    KeymapArgs { overlay: None, panel: None, relative_move: None, absolute_move: None, expand_lines: None }
}

fn entry(command: &str, args: Option<KeymapArgs>) -> KeymapEntry {
    KeymapEntry { keys: vec!["ctrl+x".to_string()], command: command.to_string(), args, context: None }
}

fn translate(command: &str, args: Option<KeymapArgs>) -> Result<Command, ParseCommandError> {
    Command::from_keymap_entry(entry(command, args))
}

#[test]
fn show_panel_find() {
    let args = KeymapArgs { panel: Some("find".to_string()), ..no_args() };
    assert_eq!(translate("show_panel", Some(args)), Ok(Command::OpenPrompt(CommandPromptMode::Find)));
}

#[test]
fn show_panel_other() {
    let args = KeymapArgs { panel: Some("other".to_string()), ..no_args() };
    assert_eq!(translate("show_panel", Some(args)), Err(ParseCommandError::UnexpectedArgument));
    assert_eq!(translate("show_panel", Some(no_args())), Err(ParseCommandError::UnexpectedArgument));
    assert_eq!(
        translate("show_panel", None),
        Err(ParseCommandError::ExpectedArgument { cmd: "show_panel".to_string() })
    );
}

#[test]
fn show_overlay_goto() {
    let args = KeymapArgs { overlay: Some("goto".to_string()), ..no_args() };
    assert_eq!(translate("show_overlay", Some(args)), Ok(Command::OpenPrompt(CommandPromptMode::Command)));
    let other = KeymapArgs { overlay: Some("command_palette".to_string()), ..no_args() };
    assert_eq!(translate("show_overlay", Some(other)), Err(ParseCommandError::UnexpectedArgument));
    assert_eq!(
        translate("show_overlay", None),
        Err(ParseCommandError::ExpectedArgument { cmd: "show_overlay".to_string() })
    );
}

#[test]
fn move_without_args() {
    assert_eq!(translate("move", None), Err(ParseCommandError::ExpectedArgument { cmd: "move".to_string() }));
}

#[test]
fn payload_commands() {
    let m = RelativeMove { by: RelativeMoveDistance::words, forward: false, extend: true };
    let args = KeymapArgs { relative_move: Some(m.clone()), ..no_args() };
    assert_eq!(translate("move", Some(args)), Ok(Command::RelativeMove(m)));
    assert_eq!(translate("move", Some(no_args())), Err(ParseCommandError::UnexpectedArgument));

    let a = AbsoluteMove { to: AbsoluteMovePoint::brackets, extend: false };
    let args = KeymapArgs { absolute_move: Some(a.clone()), ..no_args() };
    assert_eq!(translate("move_to", Some(args)), Ok(Command::AbsoluteMove(a)));
    assert_eq!(translate("move_to", Some(no_args())), Err(ParseCommandError::UnexpectedArgument));
    assert_eq!(translate("move_to", None), Err(ParseCommandError::ExpectedArgument { cmd: "move_to".to_string() }));

    let d = ExpandLinesDirection { forward: true };
    let args = KeymapArgs { expand_lines: Some(d.clone()), ..no_args() };
    assert_eq!(translate("select_lines", Some(args)), Ok(Command::CursorExpandLines(d)));
    assert_eq!(translate("select_lines", Some(no_args())), Err(ParseCommandError::UnexpectedArgument));
}

#[test]
fn keymap_name_table() {
    let table: Vec<(&str, Command)> = vec![
        ("select_all", Command::SelectAll),
        ("close", Command::CloseCurrentView),
        ("copy", Command::CopySelection),
        ("cut", Command::CutSelection),
        ("paste", Command::Paste),
        ("fue", Command::FindUnderExpand),
        ("find_under_expand", Command::FindUnderExpand),
        ("fn", Command::FindNext),
        ("find_next", Command::FindNext),
        ("fp", Command::FindPrev),
        ("find_prev", Command::FindPrev),
        ("hide_overlay", Command::Cancel),
        ("s", Command::Save(None)),
        ("save", Command::Save(None)),
        ("q", Command::Quit),
        ("quit", Command::Quit),
        ("exit", Command::Quit),
        ("b", Command::Back),
        ("back", Command::Back),
        ("left_delete", Command::Back),
        ("d", Command::Delete),
        ("delete", Command::Delete),
        ("right_delete", Command::Delete),
        ("bn", Command::NextBuffer),
        ("next-buffer", Command::NextBuffer),
        ("next_view", Command::NextBuffer),
        ("bp", Command::PrevBuffer),
        ("prev-buffer", Command::PrevBuffer),
        ("prev_view", Command::PrevBuffer),
        ("undo", Command::Undo),
        ("redo", Command::Redo),
        ("ln", Command::ToggleLineNumbers),
        ("line-numbers", Command::ToggleLineNumbers),
        ("op", Command::OpenPrompt(CommandPromptMode::Command)),
        ("open-prompt", Command::OpenPrompt(CommandPromptMode::Command)),
    ];
    for (name, expected) in table {
        assert_eq!(translate(name, None), Ok(expected.clone()));
        assert_eq!(translate(name, Some(no_args())), Ok(expected));
    }
}

#[test]
fn keymap_unknown_name() {
    assert_eq!(translate("Quit", None), Err(ParseCommandError::UnknownCommand("Quit".to_string())));
    assert_eq!(translate("", None), Err(ParseCommandError::UnknownCommand("".to_string())));
}

#[test]
fn relative_labels() {
    let label = |by, forward, extend| RelativeMove { by, forward, extend }.to_prompt();
    assert_eq!(label(RelativeMoveDistance::characters, true, false), "move left");
    assert_eq!(label(RelativeMoveDistance::characters, false, false), "move right");
    assert_eq!(label(RelativeMoveDistance::lines, true, false), "move down");
    assert_eq!(label(RelativeMoveDistance::lines, false, true), "move up (e)xtend");
    assert_eq!(label(RelativeMoveDistance::words, true, false), "move wordleft");
    assert_eq!(label(RelativeMoveDistance::word_ends, false, false), "move wendright");
    assert_eq!(label(RelativeMoveDistance::subwords, true, false), "move subwordleft");
    assert_eq!(label(RelativeMoveDistance::subword_ends, true, false), "move subwendleft");
    assert_eq!(label(RelativeMoveDistance::pages, false, false), "move page-up");
    assert_eq!(label(RelativeMoveDistance::pages, true, true), "move page-down (e)xtend");
}

#[test]
fn absolute_labels() {
    let label = |to, extend| AbsoluteMove { to, extend }.to_prompt();
    assert_eq!(label(AbsoluteMovePoint::bof, false), "move bof");
    assert_eq!(label(AbsoluteMovePoint::eof, true), "move eof (e)xtend");
    assert_eq!(label(AbsoluteMovePoint::bol, false), "move bol");
    assert_eq!(label(AbsoluteMovePoint::eol, false), "move eol");
    assert_eq!(label(AbsoluteMovePoint::brackets, false), "move brackets");
    assert_eq!(label(AbsoluteMovePoint::line(42), false), "move <line>");
}

fn every_command() -> Vec<Command> {
    vec![
        Command::Cancel,
        Command::Quit,
        Command::Save(None),
        Command::Back,
        Command::Delete,
        Command::Open(Some("/tmp/a".to_string())),
        Command::NextBuffer,
        Command::PrevBuffer,
        Command::RelativeMove(RelativeMove { by: RelativeMoveDistance::lines, forward: true, extend: false }),
        Command::AbsoluteMove(AbsoluteMove { to: AbsoluteMovePoint::line(7), extend: false }),
        Command::SetTheme("dark".to_string()),
        Command::ToggleLineNumbers,
        Command::OpenPrompt(CommandPromptMode::Find),
        Command::Insert('x'),
        Command::Undo,
        Command::Redo,
        Command::Find(FindConfig { search_term: "a".to_string(), case_sensitive: false, regex: false, whole_words: false }),
        Command::FindNext,
        Command::FindPrev,
        Command::FindUnderExpand,
        Command::CursorExpandLines(ExpandLinesDirection { forward: false }),
        Command::CopySelection,
        Command::Paste,
        Command::CutSelection,
        Command::CloseCurrentView,
        Command::SelectAll,
    ]
}

#[test]
fn command_labels() {
    let expected = [
        "cancel", "quit", "save", "back", "delete", "open", "buffernext", "bufferprev", "move down",
        "move <line>", "settheme", "togglelinenumbers", "open-prompt", "insert", "undo", "redo", "find",
        "findnext", "findprev", "find_under_expand", "cursor_expand_lines", "copy", "paste", "cut", "close",
        "selecta_ll",
    ];
    let commands = every_command();
    assert_eq!(commands.len(), expected.len());
    for (c, label) in commands.iter().zip(expected.iter()) {
        assert_eq!(c.to_prompt(), *label);
    }
}

#[test]
fn labels_are_never_empty() {
    for c in every_command() {
        assert!(!c.to_prompt().is_empty());
    }
}

#[test]
fn rendering_twice_gives_the_same_label() {
    for c in every_command() {
        let copy = c.clone();
        assert_eq!(c.to_prompt(), copy.to_prompt());
        assert_eq!(c.to_prompt(), c.to_prompt());
    }
}
