//! The keymap translator: a key-binding record names a command, with
//! structured arguments for the commands that take some.
use vstd::prelude::*;
use vstd::string::*;

use crate::cmd::{
    expected_argument, outcome, AbsoluteMove, Command, CommandPromptMode, CommandView,
    ExpandLinesDirection, ParseCommandError, ParseErrorView, RelativeMove,
};
use crate::text::str_eq;

verus! {

/// The structured arguments of a binding, as read from the configuration
/// source: the string fields that the overlay and panel commands look at,
/// and the arguments decoded as each payload that a command may take (`None`
/// where the field is missing, or the arguments do not decode as that
/// payload).
#[derive(Debug, Clone, PartialEq)]
pub struct KeymapArgs {
    pub overlay: Option<String>,
    pub panel: Option<String>,
    pub relative_move: Option<RelativeMove>,
    pub absolute_move: Option<AbsoluteMove>,
    pub expand_lines: Option<ExpandLinesDirection>,
}

/// What a `KeymapArgs` holds, with its texts as characters.
pub struct KeymapArgsView {
    pub overlay: Option<Seq<char>>,
    pub panel: Option<Seq<char>>,
    pub relative_move: Option<RelativeMove>,
    pub absolute_move: Option<AbsoluteMove>,
    pub expand_lines: Option<ExpandLinesDirection>,
}

/// The characters of an optional string.
pub open spec fn opt_text(s: Option<String>) -> Option<Seq<char>> {
    match s {
        Some(t) => Some(t@),
        None => None,
    }
}

impl View for KeymapArgs {
    type V = KeymapArgsView;

    open spec fn view(&self) -> KeymapArgsView {
        KeymapArgsView {
            overlay: opt_text(self.overlay),
            panel: opt_text(self.panel),
            relative_move: self.relative_move,
            absolute_move: self.absolute_move,
            expand_lines: self.expand_lines,
        }
    }
}

/// A binding from a key sequence to a command.
#[derive(Debug, Clone, PartialEq)]
pub struct KeymapEntry {
    pub keys: Vec<String>,
    pub command: String,
    pub args: Option<KeymapArgs>,
    pub context: Option<String>,
}

/// The view of optional binding arguments.
pub open spec fn args_view(a: Option<KeymapArgs>) -> Option<KeymapArgsView> {
    match a {
        Some(x) => Some(x@),
        None => None,
    }
}

/// Outcome of a command that needs its arguments decoded as one payload.
pub open spec fn payload_outcome<T>(
    name: Seq<char>,
    args: Option<KeymapArgsView>,
    payload: spec_fn(KeymapArgsView) -> Option<T>,
    make: spec_fn(T) -> CommandView,
) -> Result<CommandView, ParseErrorView> {
    match args {
        None => expected_argument(name),
        Some(a) => match payload(a) {
            Some(p) => Ok(make(p)),
            None => Err(ParseErrorView::UnexpectedArgument),
        },
    }
}

/// Outcome of a command that opens a prompt when the string field that
/// `field` picks holds exactly `wanted`.
pub open spec fn field_outcome(
    name: Seq<char>,
    args: Option<KeymapArgsView>,
    field: spec_fn(KeymapArgsView) -> Option<Seq<char>>,
    wanted: Seq<char>,
    mode: CommandPromptMode,
) -> Result<CommandView, ParseErrorView> {
    match args {
        None => expected_argument(name),
        Some(a) => if field(a) == Some(wanted) {
            Ok(CommandView::OpenPrompt(mode))
        } else {
            Err(ParseErrorView::UnexpectedArgument)
        },
    }
}

/// The command that a binding of `name` with arguments `args` stands for.
pub open spec fn keymap_outcome(name: Seq<char>, args: Option<KeymapArgsView>) -> Result<
    CommandView,
    ParseErrorView,
> {
    if name == "select_all"@ {
        Ok(CommandView::SelectAll)
    } else if name == "close"@ {
        Ok(CommandView::CloseCurrentView)
    } else if name == "copy"@ {
        Ok(CommandView::CopySelection)
    } else if name == "cut"@ {
        Ok(CommandView::CutSelection)
    } else if name == "paste"@ {
        Ok(CommandView::Paste)
    } else if name == "fue"@ || name == "find_under_expand"@ {
        Ok(CommandView::FindUnderExpand)
    } else if name == "fn"@ || name == "find_next"@ {
        Ok(CommandView::FindNext)
    } else if name == "fp"@ || name == "find_prev"@ {
        Ok(CommandView::FindPrev)
    } else if name == "hide_overlay"@ {
        Ok(CommandView::Cancel)
    } else if name == "s"@ || name == "save"@ {
        Ok(CommandView::Save(None))
    } else if name == "q"@ || name == "quit"@ || name == "exit"@ {
        Ok(CommandView::Quit)
    } else if name == "b"@ || name == "back"@ || name == "left_delete"@ {
        Ok(CommandView::Back)
    } else if name == "d"@ || name == "delete"@ || name == "right_delete"@ {
        Ok(CommandView::Delete)
    } else if name == "bn"@ || name == "next-buffer"@ || name == "next_view"@ {
        Ok(CommandView::NextBuffer)
    } else if name == "bp"@ || name == "prev-buffer"@ || name == "prev_view"@ {
        Ok(CommandView::PrevBuffer)
    } else if name == "undo"@ {
        Ok(CommandView::Undo)
    } else if name == "redo"@ {
        Ok(CommandView::Redo)
    } else if name == "ln"@ || name == "line-numbers"@ {
        Ok(CommandView::ToggleLineNumbers)
    } else if name == "op"@ || name == "open-prompt"@ {
        Ok(CommandView::OpenPrompt(CommandPromptMode::Command))
    } else if name == "show_overlay"@ {
        field_outcome(
            name,
            args,
            |a: KeymapArgsView| a.overlay,
            "goto"@,
            CommandPromptMode::Command,
        )
    } else if name == "show_panel"@ {
        field_outcome(name, args, |a: KeymapArgsView| a.panel, "find"@, CommandPromptMode::Find)
    } else if name == "move"@ {
        payload_outcome(
            name,
            args,
            |a: KeymapArgsView| a.relative_move,
            |m: RelativeMove| CommandView::RelativeMove(m),
        )
    } else if name == "move_to"@ {
        payload_outcome(
            name,
            args,
            |a: KeymapArgsView| a.absolute_move,
            |m: AbsoluteMove| CommandView::AbsoluteMove(m),
        )
    } else if name == "select_lines"@ {
        payload_outcome(
            name,
            args,
            |a: KeymapArgsView| a.expand_lines,
            |d: ExpandLinesDirection| CommandView::CursorExpandLines(d),
        )
    } else {
        Err(ParseErrorView::UnknownCommand(name))
    }
}

/// True when `s` holds exactly the text `wanted`.
fn field_is(s: &Option<String>, wanted: &str) -> (r: bool)
    ensures
        r == (opt_text(*s) == Some(wanted@)),
{
    match s {
        Some(t) => str_eq(t.as_str(), wanted),
        None => false,
    }
}

impl Command {
    /// Translates a key binding into the command it names.
    pub fn from_keymap_entry(val: KeymapEntry) -> (r: Result<Command, ParseCommandError>)
        ensures
            outcome(r) == keymap_outcome(val.command@, args_view(val.args)),
    {
        let name = val.command.as_str();
        if str_eq(name, "select_all") {
            Ok(Command::SelectAll)
        } else if str_eq(name, "close") {
            Ok(Command::CloseCurrentView)
        } else if str_eq(name, "copy") {
            Ok(Command::CopySelection)
        } else if str_eq(name, "cut") {
            Ok(Command::CutSelection)
        } else if str_eq(name, "paste") {
            Ok(Command::Paste)
        } else if str_eq(name, "fue") || str_eq(name, "find_under_expand") {
            Ok(Command::FindUnderExpand)
        } else if str_eq(name, "fn") || str_eq(name, "find_next") {
            Ok(Command::FindNext)
        } else if str_eq(name, "fp") || str_eq(name, "find_prev") {
            Ok(Command::FindPrev)
        } else if str_eq(name, "hide_overlay") {
            Ok(Command::Cancel)
        } else if str_eq(name, "s") || str_eq(name, "save") {
            Ok(Command::Save(None))
        } else if str_eq(name, "q") || str_eq(name, "quit") || str_eq(name, "exit") {
            Ok(Command::Quit)
        } else if str_eq(name, "b") || str_eq(name, "back") || str_eq(name, "left_delete") {
            Ok(Command::Back)
        } else if str_eq(name, "d") || str_eq(name, "delete") || str_eq(name, "right_delete") {
            Ok(Command::Delete)
        } else if str_eq(name, "bn") || str_eq(name, "next-buffer") || str_eq(name, "next_view") {
            Ok(Command::NextBuffer)
        } else if str_eq(name, "bp") || str_eq(name, "prev-buffer") || str_eq(name, "prev_view") {
            Ok(Command::PrevBuffer)
        } else if str_eq(name, "undo") {
            Ok(Command::Undo)
        } else if str_eq(name, "redo") {
            Ok(Command::Redo)
        } else if str_eq(name, "ln") || str_eq(name, "line-numbers") {
            Ok(Command::ToggleLineNumbers)
        } else if str_eq(name, "op") || str_eq(name, "open-prompt") {
            Ok(Command::OpenPrompt(CommandPromptMode::Command))
        } else if str_eq(name, "show_overlay") {
            match &val.args {
                None => Err(ParseCommandError::ExpectedArgument { cmd: String::from_str(name) }),
                // Only the "goto" overlay has a prompt of its own.
                Some(args) => if field_is(&args.overlay, "goto") {
                    Ok(Command::OpenPrompt(CommandPromptMode::Command))
                } else {
                    Err(ParseCommandError::UnexpectedArgument)
                },
            }
        } else if str_eq(name, "show_panel") {
            match &val.args {
                None => Err(ParseCommandError::ExpectedArgument { cmd: String::from_str(name) }),
                Some(args) => if field_is(&args.panel, "find") {
                    Ok(Command::OpenPrompt(CommandPromptMode::Find))
                } else {
                    Err(ParseCommandError::UnexpectedArgument)
                },
            }
        } else if str_eq(name, "move") {
            match &val.args {
                None => Err(ParseCommandError::ExpectedArgument { cmd: String::from_str(name) }),
                Some(args) => match args.relative_move {
                    Some(m) => Ok(Command::RelativeMove(m)),
                    None => Err(ParseCommandError::UnexpectedArgument),
                },
            }
        } else if str_eq(name, "move_to") {
            match &val.args {
                None => Err(ParseCommandError::ExpectedArgument { cmd: String::from_str(name) }),
                Some(args) => match args.absolute_move {
                    Some(m) => Ok(Command::AbsoluteMove(m)),
                    None => Err(ParseCommandError::UnexpectedArgument),
                },
            }
        } else if str_eq(name, "select_lines") {
            match &val.args {
                None => Err(ParseCommandError::ExpectedArgument { cmd: String::from_str(name) }),
                Some(args) => match args.expand_lines {
                    Some(d) => Ok(Command::CursorExpandLines(d)),
                    None => Err(ParseCommandError::UnexpectedArgument),
                },
            }
        } else {
            Err(ParseCommandError::UnknownCommand(String::from_str(name)))
        }
    }
}

} // verus!
