//! The command model: the closed set of editor commands, their payloads,
//! the parse errors, and the two translation traits.
use vstd::prelude::*;

verus! {

/// Identifier of an editor view, as the backend hands it out.
#[verifier::external_type_specification]
#[verifier::external_body]
pub struct ExViewId(xrl::ViewId);

/// Granularity of a relative cursor movement.
#[allow(non_camel_case_types)]
#[derive(Debug, PartialEq, Eq, Clone, Copy, Structural)]
pub enum RelativeMoveDistance {
    /// Move only one character
    characters,
    /// Move a line
    lines,
    /// Move to new word
    words,
    /// Move to end of word
    word_ends,
    /// Move to new subword
    subwords,
    /// Move to end of subword
    subword_ends,
    /// Move a page
    pages,
}

/// A cursor movement of a given granularity and direction, optionally
/// extending the selection.
#[derive(Debug, PartialEq, Eq, Clone, Copy, Structural)]
pub struct RelativeMove {
    pub by: RelativeMoveDistance,
    pub forward: bool,
    pub extend: bool,
}

/// Target of an absolute cursor movement.
#[allow(non_camel_case_types)]
#[derive(Debug, PartialEq, Eq, Clone, Copy, Structural)]
pub enum AbsoluteMovePoint {
    /// Beginning of file
    bof,
    /// End of file
    eof,
    /// Beginning of line
    bol,
    /// End of line
    eol,
    /// Enclosing brackets
    brackets,
    /// Line number
    line(u64),
}

/// A cursor movement to a fixed point, optionally extending the selection.
#[derive(Debug, PartialEq, Eq, Clone, Copy, Structural)]
pub struct AbsoluteMove {
    pub to: AbsoluteMovePoint,
    pub extend: bool,
}

/// Direction in which a new cursor is added on a neighbouring line.
#[derive(Debug, PartialEq, Eq, Clone, Copy, Structural)]
pub struct ExpandLinesDirection {
    pub forward: bool,
}

/// A search request with independently toggled matching modes.
#[derive(Debug, Clone, PartialEq)]
pub struct FindConfig {
    pub search_term: String,
    pub case_sensitive: bool,
    pub regex: bool,
    pub whole_words: bool,
}

/// What a `FindConfig` holds, with the term as characters.
pub struct FindConfigView {
    pub search_term: Seq<char>,
    pub case_sensitive: bool,
    pub regex: bool,
    pub whole_words: bool,
}

impl View for FindConfig {
    type V = FindConfigView;

    open spec fn view(&self) -> FindConfigView {
        FindConfigView {
            search_term: self.search_term@,
            case_sensitive: self.case_sensitive,
            regex: self.regex,
            whole_words: self.whole_words,
        }
    }
}

/// The input mode a prompt opens in.
#[derive(Debug, PartialEq, Eq, Clone, Copy, Structural)]
pub enum CommandPromptMode {
    /// Typing a command line.
    Command,
    /// Typing a search.
    Find,
}

/// One discrete editor action.
#[derive(Debug, PartialEq, Clone)]
pub enum Command {
    /// Close the CommandPrompt.
    Cancel,
    /// Quit editor.
    Quit,
    /// Save the current file buffer.
    Save(Option<xrl::ViewId>),
    /// Backspace
    Back,
    /// Delete
    Delete,
    /// Open A new file.
    Open(Option<String>),
    /// Cycle to the next View.
    NextBuffer,
    /// Cycle to the previous buffer.
    PrevBuffer,
    /// Relative move like line up/down, page up/down, left, right, word left, ..
    RelativeMove(RelativeMove),
    /// Absolute move like line ending/beginning, file ending/beginning, line-number, ...
    AbsoluteMove(AbsoluteMove),
    /// Change current color theme
    SetTheme(String),
    /// Toggle displaying line numbers.
    ToggleLineNumbers,
    /// Open prompt for user-input
    OpenPrompt(CommandPromptMode),
    /// Insert a character
    Insert(char),
    /// Undo last action
    Undo,
    /// Redo last undone action
    Redo,
    /// Find the given string
    Find(FindConfig),
    /// Find next occurence of active search
    FindNext,
    /// Find previous occurence of active search
    FindPrev,
    /// Find word and set another cursor there
    FindUnderExpand,
    /// Set a new cursor below or above current position
    CursorExpandLines(ExpandLinesDirection),
    /// Copy the current selection
    CopySelection,
    /// Paste previously copied or cut text
    Paste,
    /// Cut the current selection
    CutSelection,
    /// Close the current view
    CloseCurrentView,
    /// Select all text in the current view
    SelectAll,
}

/// What a `Command` holds, with its texts as characters.
pub enum CommandView {
    Cancel,
    Quit,
    Save(Option<xrl::ViewId>),
    Back,
    Delete,
    Open(Option<Seq<char>>),
    NextBuffer,
    PrevBuffer,
    RelativeMove(RelativeMove),
    AbsoluteMove(AbsoluteMove),
    SetTheme(Seq<char>),
    ToggleLineNumbers,
    OpenPrompt(CommandPromptMode),
    Insert(char),
    Undo,
    Redo,
    Find(FindConfigView),
    FindNext,
    FindPrev,
    FindUnderExpand,
    CursorExpandLines(ExpandLinesDirection),
    CopySelection,
    Paste,
    CutSelection,
    CloseCurrentView,
    SelectAll,
}

impl View for Command {
    type V = CommandView;

    open spec fn view(&self) -> CommandView {
        match self {
            Command::Cancel => CommandView::Cancel,
            Command::Quit => CommandView::Quit,
            Command::Save(v) => CommandView::Save(*v),
            Command::Back => CommandView::Back,
            Command::Delete => CommandView::Delete,
            Command::Open(p) => CommandView::Open(
                match p {
                    Some(s) => Some(s@),
                    None => None,
                },
            ),
            Command::NextBuffer => CommandView::NextBuffer,
            Command::PrevBuffer => CommandView::PrevBuffer,
            Command::RelativeMove(m) => CommandView::RelativeMove(*m),
            Command::AbsoluteMove(m) => CommandView::AbsoluteMove(*m),
            Command::SetTheme(t) => CommandView::SetTheme(t@),
            Command::ToggleLineNumbers => CommandView::ToggleLineNumbers,
            Command::OpenPrompt(m) => CommandView::OpenPrompt(*m),
            Command::Insert(c) => CommandView::Insert(*c),
            Command::Undo => CommandView::Undo,
            Command::Redo => CommandView::Redo,
            Command::Find(f) => CommandView::Find(f@),
            Command::FindNext => CommandView::FindNext,
            Command::FindPrev => CommandView::FindPrev,
            Command::FindUnderExpand => CommandView::FindUnderExpand,
            Command::CursorExpandLines(d) => CommandView::CursorExpandLines(*d),
            Command::CopySelection => CommandView::CopySelection,
            Command::Paste => CommandView::Paste,
            Command::CutSelection => CommandView::CutSelection,
            Command::CloseCurrentView => CommandView::CloseCurrentView,
            Command::SelectAll => CommandView::SelectAll,
        }
    }
}

/// Why a command line or a key binding could not be turned into a command.
#[derive(Debug, Clone, PartialEq)]
pub enum ParseCommandError {
    /// Didn't expect a command to take an argument.
    UnexpectedArgument,
    /// The given command expected an argument.
    ExpectedArgument { cmd: String },
    /// The given command was given too many arguments.
    TooManyArguments { cmd: String, expected: usize, found: usize },
    /// Invalid input was received.
    UnknownCommand(String),
}

/// What a `ParseCommandError` holds, with its texts as characters.
pub enum ParseErrorView {
    UnexpectedArgument,
    ExpectedArgument { cmd: Seq<char> },
    TooManyArguments { cmd: Seq<char>, expected: usize, found: usize },
    UnknownCommand(Seq<char>),
}

impl View for ParseCommandError {
    type V = ParseErrorView;

    open spec fn view(&self) -> ParseErrorView {
        match self {
            ParseCommandError::UnexpectedArgument => ParseErrorView::UnexpectedArgument,
            ParseCommandError::ExpectedArgument { cmd } => ParseErrorView::ExpectedArgument {
                cmd: cmd@,
            },
            ParseCommandError::TooManyArguments { cmd, expected, found } =>
                ParseErrorView::TooManyArguments { cmd: cmd@, expected: *expected, found: *found },
            ParseCommandError::UnknownCommand(s) => ParseErrorView::UnknownCommand(s@),
        }
    }
}

/// The outcome of a parse, with texts as characters.
pub open spec fn outcome(r: Result<Command, ParseCommandError>) -> Result<
    CommandView,
    ParseErrorView,
> {
    match r {
        Ok(c) => Ok(c@),
        Err(e) => Err(e@),
    }
}

/// A missing-argument error for the command `cmd`.
pub open spec fn expected_argument(cmd: Seq<char>) -> Result<CommandView, ParseErrorView> {
    Err(ParseErrorView::ExpectedArgument { cmd })
}

/// Turning a line of prompt text into a command.
pub trait FromPrompt {
    /// Whether `r` is an outcome that parsing `vals` may give.
    spec fn prompt_outcome(vals: Seq<char>, r: Result<CommandView, ParseErrorView>) -> bool;

    fn from_prompt(vals: &str) -> (r: Result<Command, ParseCommandError>)
        requires
            vals@.len() < usize::MAX,
        ensures
            Self::prompt_outcome(vals@, outcome(r)),
    ;
}

/// Rendering a value as a short label for the prompt's status line.
pub trait ToPrompt {
    /// The label of this value.
    spec fn prompt_label(&self) -> Seq<char>;

    fn to_prompt(&self) -> (r: String)
        ensures
            r@ == self.prompt_label(),
    ;
}

} // verus!
