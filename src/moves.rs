//! The movement sub-grammars: relative moves (`move d`, `move pu e`) and
//! absolute moves (`move_to eof`, `move_to 42`), and their labels.
use vstd::prelude::*;
use vstd::string::*;

use crate::cmd::{
    expected_argument, outcome, AbsoluteMove, AbsoluteMovePoint, Command, CommandView, FromPrompt,
    ParseCommandError, ParseErrorView, RelativeMove, RelativeMoveDistance, ToPrompt,
};
use crate::text::{count_spaces, decimal_u64, head, parse_u64, space_count, split_first, str_eq};

verus! {

/// The (distance, forward) pair that a relative-move token names.
pub open spec fn relative_target(t: Seq<char>) -> Option<(RelativeMoveDistance, bool)> {
    if t == "d"@ || t == "down"@ {
        Some((RelativeMoveDistance::lines, true))
    } else if t == "u"@ || t == "up"@ {
        Some((RelativeMoveDistance::lines, false))
    } else if t == "r"@ || t == "right"@ {
        Some((RelativeMoveDistance::characters, true))
    } else if t == "l"@ || t == "left"@ {
        Some((RelativeMoveDistance::characters, false))
    } else if t == "pd"@ || t == "page-down"@ {
        Some((RelativeMoveDistance::pages, true))
    } else if t == "pu"@ || t == "page-up"@ {
        Some((RelativeMoveDistance::pages, false))
    } else {
        None
    }
}

/// The error for more than two tokens given to `cmd`.
pub open spec fn too_many(cmd: Seq<char>, args: Seq<char>) -> Result<CommandView, ParseErrorView> {
    Err(
        ParseErrorView::TooManyArguments {
            cmd,
            expected: 2,
            found: (space_count(args) + 1) as usize,
        },
    )
}

/// Outcome of parsing the arguments of `move`: one or two space-separated
/// tokens, the first naming the movement; a second token, whatever it
/// holds, makes the move extend the selection.
pub open spec fn relative_move_outcome(args: Seq<char>) -> Result<CommandView, ParseErrorView> {
    if args.len() == 0 {
        expected_argument("move"@)
    } else if space_count(args) > 1 {
        too_many("move"@, args)
    } else {
        match relative_target(head(args)) {
            Some((by, forward)) => Ok(
                CommandView::RelativeMove(
                    RelativeMove { by, forward, extend: space_count(args) == 1 },
                ),
            ),
            None => Err(ParseErrorView::UnknownCommand(head(args))),
        }
    }
}

/// The point that an absolute-move token names, numbers aside.
pub open spec fn absolute_target(t: Seq<char>) -> Option<AbsoluteMovePoint> {
    if t == "bof"@ || t == "beginning-of-file"@ {
        Some(AbsoluteMovePoint::bof)
    } else if t == "eof"@ || t == "end-of-file"@ {
        Some(AbsoluteMovePoint::eof)
    } else if t == "bol"@ || t == "beginning-of-line"@ {
        Some(AbsoluteMovePoint::bol)
    } else if t == "eol"@ || t == "end-of-line"@ {
        Some(AbsoluteMovePoint::eol)
    } else {
        None
    }
}

/// Outcome of parsing the arguments of `move_to`: as for `move`, except
/// that a first token that names no point is read as a line number, and a
/// line-number target never extends the selection.
pub open spec fn absolute_move_outcome(args: Seq<char>) -> Result<CommandView, ParseErrorView> {
    if args.len() == 0 {
        expected_argument("move_to"@)
    } else if space_count(args) > 1 {
        too_many("move_to"@, args)
    } else {
        match absolute_target(head(args)) {
            Some(to) => Ok(
                CommandView::AbsoluteMove(AbsoluteMove { to, extend: space_count(args) == 1 }),
            ),
            None => match decimal_u64(head(args)) {
                Some(n) => Ok(
                    CommandView::AbsoluteMove(
                        AbsoluteMove { to: AbsoluteMovePoint::line(n), extend: false },
                    ),
                ),
                None => Err(ParseErrorView::UnknownCommand(head(args))),
            },
        }
    }
}

/// Label of a relative move's direction.
pub open spec fn relative_direction_label(by: RelativeMoveDistance, forward: bool) -> Seq<char> {
    match by {
        RelativeMoveDistance::characters => if forward {
            "left"@
        } else {
            "right"@
        },
        RelativeMoveDistance::lines => if forward {
            "down"@
        } else {
            "up"@
        },
        RelativeMoveDistance::words => if forward {
            "wordleft"@
        } else {
            "wordright"@
        },
        RelativeMoveDistance::word_ends => if forward {
            "wendleft"@
        } else {
            "wendright"@
        },
        RelativeMoveDistance::subwords => if forward {
            "subwordleft"@
        } else {
            "subwordright"@
        },
        RelativeMoveDistance::subword_ends => if forward {
            "subwendleft"@
        } else {
            "subwendright"@
        },
        RelativeMoveDistance::pages => if forward {
            "page-down"@
        } else {
            "page-up"@
        },
    }
}

/// Label of an absolute move's target; line numbers are not echoed.
pub open spec fn absolute_point_label(to: AbsoluteMovePoint) -> Seq<char> {
    match to {
        AbsoluteMovePoint::bof => "bof"@,
        AbsoluteMovePoint::eof => "eof"@,
        AbsoluteMovePoint::bol => "bol"@,
        AbsoluteMovePoint::eol => "eol"@,
        AbsoluteMovePoint::brackets => "brackets"@,
        AbsoluteMovePoint::line(_) => "<line>"@,
    }
}

/// What a label gains when the move extends the selection.
pub open spec fn extend_suffix(extend: bool) -> Seq<char> {
    if extend {
        " (e)xtend"@
    } else {
        Seq::empty()
    }
}

fn relative_target_of(t: &str) -> (r: Option<(RelativeMoveDistance, bool)>)
    ensures
        r == relative_target(t@),
{
    if str_eq(t, "d") || str_eq(t, "down") {
        Some((RelativeMoveDistance::lines, true))
    } else if str_eq(t, "u") || str_eq(t, "up") {
        Some((RelativeMoveDistance::lines, false))
    } else if str_eq(t, "r") || str_eq(t, "right") {
        Some((RelativeMoveDistance::characters, true))
    } else if str_eq(t, "l") || str_eq(t, "left") {
        Some((RelativeMoveDistance::characters, false))
    } else if str_eq(t, "pd") || str_eq(t, "page-down") {
        Some((RelativeMoveDistance::pages, true))
    } else if str_eq(t, "pu") || str_eq(t, "page-up") {
        Some((RelativeMoveDistance::pages, false))
    } else {
        None
    }
}

fn absolute_target_of(t: &str) -> (r: Option<AbsoluteMovePoint>)
    ensures
        r == absolute_target(t@),
{
    if str_eq(t, "bof") || str_eq(t, "beginning-of-file") {
        Some(AbsoluteMovePoint::bof)
    } else if str_eq(t, "eof") || str_eq(t, "end-of-file") {
        Some(AbsoluteMovePoint::eof)
    } else if str_eq(t, "bol") || str_eq(t, "beginning-of-line") {
        Some(AbsoluteMovePoint::bol)
    } else if str_eq(t, "eol") || str_eq(t, "end-of-line") {
        Some(AbsoluteMovePoint::eol)
    } else {
        None
    }
}

/// Counts the tokens of `args` for `cmd`: an error when there are none or
/// more than two, else whether there are two.
fn token_count_check(cmd: &str, args: &str) -> (r: Result<bool, ParseCommandError>)
    requires
        args@.len() < usize::MAX,
    ensures
        args@.len() == 0 ==> outcome_err(r) == expected_argument(cmd@),
        args@.len() > 0 && space_count(args@) > 1 ==> outcome_err(r) == too_many(cmd@, args@),
        args@.len() > 0 && space_count(args@) <= 1 ==> r == Ok::<bool, ParseCommandError>(
            space_count(args@) == 1,
        ),
{
    if args.is_empty() {
        return Err(ParseCommandError::ExpectedArgument { cmd: String::from_str(cmd) });
    }
    let spaces = count_spaces(args);
    if spaces > 1 {
        return Err(
            ParseCommandError::TooManyArguments {
                cmd: String::from_str(cmd),
                expected: 2,
                found: spaces + 1,
            },
        );
    }
    Ok(spaces == 1)
}

/// An error result, seen as a parse outcome.
pub open spec fn outcome_err(r: Result<bool, ParseCommandError>) -> Result<
    CommandView,
    ParseErrorView,
> {
    match r {
        Ok(_) => Err(ParseErrorView::UnexpectedArgument),
        Err(e) => Err(e@),
    }
}

impl FromPrompt for RelativeMove {
    open spec fn prompt_outcome(vals: Seq<char>, r: Result<CommandView, ParseErrorView>) -> bool {
        r == relative_move_outcome(vals)
    }

    fn from_prompt(args: &str) -> (r: Result<Command, ParseCommandError>) {
        let extend = match token_count_check("move", args) {
            Ok(e) => e,
            Err(e) => {
                return Err(e);
            },
        };
        let (token, _) = split_first(args);
        match relative_target_of(token) {
            Some((by, forward)) => Ok(Command::RelativeMove(RelativeMove { by, forward, extend })),
            None => Err(ParseCommandError::UnknownCommand(String::from_str(token))),
        }
    }
}

impl FromPrompt for AbsoluteMove {
    open spec fn prompt_outcome(vals: Seq<char>, r: Result<CommandView, ParseErrorView>) -> bool {
        r == absolute_move_outcome(vals)
    }

    fn from_prompt(args: &str) -> (r: Result<Command, ParseCommandError>) {
        let extend = match token_count_check("move_to", args) {
            Ok(e) => e,
            Err(e) => {
                return Err(e);
            },
        };
        let (token, _) = split_first(args);
        match absolute_target_of(token) {
            Some(to) => Ok(Command::AbsoluteMove(AbsoluteMove { to, extend })),
            None => match parse_u64(token) {
                Some(number) => Ok(
                    Command::AbsoluteMove(
                        AbsoluteMove { to: AbsoluteMovePoint::line(number), extend: false },
                    ),
                ),
                None => Err(ParseCommandError::UnknownCommand(String::from_str(token))),
            },
        }
    }
}

impl ToPrompt for RelativeMove {
    open spec fn prompt_label(&self) -> Seq<char> {
        "move "@ + relative_direction_label(self.by, self.forward) + extend_suffix(self.extend)
    }

    fn to_prompt(&self) -> (r: String) {
        let mut ret = String::from_str("move ");
        let direction = match self.by {
            RelativeMoveDistance::characters => if self.forward {
                "left"
            } else {
                "right"
            },
            RelativeMoveDistance::lines => if self.forward {
                "down"
            } else {
                "up"
            },
            RelativeMoveDistance::words => if self.forward {
                "wordleft"
            } else {
                "wordright"
            },
            RelativeMoveDistance::word_ends => if self.forward {
                "wendleft"
            } else {
                "wendright"
            },
            RelativeMoveDistance::subwords => if self.forward {
                "subwordleft"
            } else {
                "subwordright"
            },
            RelativeMoveDistance::subword_ends => if self.forward {
                "subwendleft"
            } else {
                "subwendright"
            },
            RelativeMoveDistance::pages => if self.forward {
                "page-down"
            } else {
                "page-up"
            },
        };
        ret.append(direction);
        if self.extend {
            ret.append(" (e)xtend");
        } else {
            assert(ret@ + extend_suffix(false) =~= ret@);
        }
        ret
    }
}

impl ToPrompt for AbsoluteMove {
    open spec fn prompt_label(&self) -> Seq<char> {
        "move "@ + absolute_point_label(self.to) + extend_suffix(self.extend)
    }

    fn to_prompt(&self) -> (r: String) {
        let mut ret = String::from_str("move ");
        let point = match self.to {
            AbsoluteMovePoint::bof => "bof",
            AbsoluteMovePoint::eof => "eof",
            AbsoluteMovePoint::bol => "bol",
            AbsoluteMovePoint::eol => "eol",
            AbsoluteMovePoint::brackets => "brackets",
            AbsoluteMovePoint::line(_) => "<line>",
        };
        ret.append(point);
        if self.extend {
            ret.append(" (e)xtend");
        } else {
            assert(ret@ + extend_suffix(false) =~= ret@);
        }
        ret
    }
}

} // verus!
