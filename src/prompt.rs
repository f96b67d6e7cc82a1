//! The prompt translator: a typed command line `<word> [<argument>]`
//! becomes a command, and any command renders to a short label.
use vstd::prelude::*;
use vstd::string::*;

use crate::cmd::{
    expected_argument, outcome, AbsoluteMove, Command, CommandView, FindConfig, FromPrompt,
    ParseCommandError, ParseErrorView, RelativeMove, ToPrompt,
};
use crate::find::find_outcome;
use crate::keymap::{keymap_outcome, KeymapEntry};
use crate::moves::{absolute_move_outcome, relative_move_outcome};
use crate::text::{head, rest, split_first, str_eq};

verus! {

/// True when shell expansion leaves `p` as it is: it holds no `$` and does
/// not start with `~`.
pub open spec fn plain_path(p: Seq<char>) -> bool {
    !p.contains('$') && !(p.len() > 0 && p[0] == '~')
}

/// Relies on `shellexpand::full`: home-directory and environment-variable
/// expansion of a path, `None` when a variable cannot be looked up. What it
/// gives depends on the environment; a path that holds no `$` and does not
/// start with `~` comes back unchanged.
#[verifier::external_body]
fn expand_path(name: &str) -> (r: Option<String>)
    ensures
        plain_path(name@) ==> r is Some && r->0@ == name@,
{
    shellexpand::full(name).ok().map(std::borrow::Cow::into_owned)
}

/// Outcome of `open` on the argument `name` when shell expansion of it
/// gave `expanded`.
pub open spec fn open_outcome(name: Seq<char>, expanded: Option<Seq<char>>) -> Result<
    CommandView,
    ParseErrorView,
> {
    match expanded {
        Some(p) => Ok(CommandView::Open(Some(p))),
        None => Err(ParseErrorView::UnknownCommand(name)),
    }
}

/// The outcomes that `open name` may give: a file to open, or an unknown
/// command when expansion fails; a plain path is opened as it is.
pub open spec fn open_outcome_allowed(name: Seq<char>, r: Result<CommandView, ParseErrorView>) -> bool {
    (exists|p: Option<Seq<char>>| r == open_outcome(name, p)) && (plain_path(name) ==> r
        == open_outcome(name, Some(name)))
}

/// The outcomes of a command line whose first word is `cmd` and whose text
/// after the first space is `args`.
pub open spec fn command_line_outcome(
    cmd: Seq<char>,
    args: Option<Seq<char>>,
    r: Result<CommandView, ParseErrorView>,
) -> bool {
    if cmd == "move"@ {
        r == match args {
            None => expected_argument("move"@),
            Some(a) => relative_move_outcome(a),
        }
    } else if cmd == "move_to"@ {
        r == match args {
            None => expected_argument("move"@),
            Some(a) => absolute_move_outcome(a),
        }
    } else if cmd == "t"@ || cmd == "theme"@ {
        r == match args {
            None => expected_argument("theme"@),
            Some(a) => Ok(CommandView::SetTheme(a)),
        }
    } else if cmd == "o"@ || cmd == "open"@ {
        match args {
            None => r == Ok::<CommandView, ParseErrorView>(CommandView::Open(None)),
            Some(a) => open_outcome_allowed(a, r),
        }
    } else if cmd == "f"@ || cmd == "find"@ {
        r == match args {
            None => expected_argument("find"@),
            Some(a) => find_outcome(a),
        }
    } else {
        r == keymap_outcome(cmd, None)
    }
}

impl Command {
    /// The `open` command for the argument `name`, given what shell
    /// expansion made of it.
    pub fn open_expanded(name: &str, expanded: Option<String>) -> (r: Result<
        Command,
        ParseCommandError,
    >)
        ensures
            outcome(r) == open_outcome(
                name@,
                match expanded {
                    Some(p) => Some(p@),
                    None => None,
                },
            ),
    {
        match expanded {
            Some(path) => Ok(Command::Open(Some(path))),
            None => Err(ParseCommandError::UnknownCommand(String::from_str(name))),
        }
    }
}

impl FromPrompt for Command {
    open spec fn prompt_outcome(vals: Seq<char>, r: Result<CommandView, ParseErrorView>) -> bool {
        command_line_outcome(head(vals), rest(vals), r)
    }

    fn from_prompt(input: &str) -> (r: Result<Command, ParseCommandError>) {
        let (cmd, args) = split_first(input);
        if str_eq(cmd, "move") {
            match args {
                None => Err(ParseCommandError::ExpectedArgument { cmd: String::from_str("move") }),
                Some(arg) => RelativeMove::from_prompt(arg),
            }
        } else if str_eq(cmd, "move_to") {
            match args {
                None => Err(ParseCommandError::ExpectedArgument { cmd: String::from_str("move") }),
                Some(arg) => AbsoluteMove::from_prompt(arg),
            }
        } else if str_eq(cmd, "t") || str_eq(cmd, "theme") {
            match args {
                None => Err(ParseCommandError::ExpectedArgument { cmd: String::from_str("theme") }),
                Some(theme) => Ok(Command::SetTheme(String::from_str(theme))),
            }
        } else if str_eq(cmd, "o") || str_eq(cmd, "open") {
            // A file name may hold spaces: the argument is not split.
            match args {
                None => Ok(Command::Open(None)),
                Some(name) => {
                    let expanded = expand_path(name);
                    let r = Command::open_expanded(name, expanded);
                    assert(outcome(r) == open_outcome(
                        name@,
                        match expanded {
                            Some(p) => Some(p@),
                            None => None,
                        },
                    ));
                    r
                },
            }
        } else if str_eq(cmd, "f") || str_eq(cmd, "find") {
            match args {
                None => Err(ParseCommandError::ExpectedArgument { cmd: String::from_str("find") }),
                Some(needle) => FindConfig::from_prompt(needle),
            }
        } else {
            // Arguments of the other commands have no textual form and are dropped.
            Command::from_keymap_entry(
                KeymapEntry {
                    keys: Vec::new(),
                    command: String::from_str(cmd),
                    args: None,
                    context: None,
                },
            )
        }
    }
}

impl ToPrompt for Command {
    open spec fn prompt_label(&self) -> Seq<char> {
        match self {
            Command::Cancel => "cancel"@,
            Command::Quit => "quit"@,
            Command::Save(_) => "save"@,
            Command::Back => "back"@,
            Command::Delete => "delete"@,
            Command::Open(_) => "open"@,
            Command::NextBuffer => "buffernext"@,
            Command::PrevBuffer => "bufferprev"@,
            Command::RelativeMove(x) => x.prompt_label(),
            Command::AbsoluteMove(x) => x.prompt_label(),
            Command::SetTheme(_) => "settheme"@,
            Command::ToggleLineNumbers => "togglelinenumbers"@,
            Command::OpenPrompt(_) => "open-prompt"@,
            Command::Insert(_) => "insert"@,
            Command::Undo => "undo"@,
            Command::Redo => "redo"@,
            Command::Find(_) => "find"@,
            Command::FindNext => "findnext"@,
            Command::FindPrev => "findprev"@,
            Command::FindUnderExpand => "find_under_expand"@,
            Command::CursorExpandLines(_) => "cursor_expand_lines"@,
            Command::CopySelection => "copy"@,
            Command::Paste => "paste"@,
            Command::CutSelection => "cut"@,
            Command::CloseCurrentView => "close"@,
            Command::SelectAll => "selecta_ll"@,
        }
    }

    fn to_prompt(&self) -> (r: String) {
        match self {
            Command::Cancel => String::from_str("cancel"),
            Command::Quit => String::from_str("quit"),
            Command::Save(_) => String::from_str("save"),
            Command::Back => String::from_str("back"),
            Command::Delete => String::from_str("delete"),
            Command::Open(_) => String::from_str("open"),
            Command::NextBuffer => String::from_str("buffernext"),
            Command::PrevBuffer => String::from_str("bufferprev"),
            Command::RelativeMove(x) => x.to_prompt(),
            Command::AbsoluteMove(x) => x.to_prompt(),
            Command::SetTheme(_) => String::from_str("settheme"),
            Command::ToggleLineNumbers => String::from_str("togglelinenumbers"),
            Command::OpenPrompt(_) => String::from_str("open-prompt"),
            Command::Insert(_) => String::from_str("insert"),
            Command::Undo => String::from_str("undo"),
            Command::Redo => String::from_str("redo"),
            Command::Find(_) => String::from_str("find"),
            Command::FindNext => String::from_str("findnext"),
            Command::FindPrev => String::from_str("findprev"),
            Command::FindUnderExpand => String::from_str("find_under_expand"),
            Command::CursorExpandLines(_) => String::from_str("cursor_expand_lines"),
            Command::CopySelection => String::from_str("copy"),
            Command::Paste => String::from_str("paste"),
            Command::CutSelection => String::from_str("cut"),
            Command::CloseCurrentView => String::from_str("close"),
            Command::SelectAll => String::from_str("selecta_ll"),
        }
    }
}

} // verus!
