//! Laws that relate parsing and rendering across inputs and calls.
use vstd::prelude::*;

use crate::cmd::{
    AbsoluteMove, AbsoluteMovePoint, Command, CommandView, ParseErrorView, RelativeMove, ToPrompt,
};
use crate::moves::{absolute_move_outcome, absolute_target, relative_move_outcome, relative_target};
use crate::text::{
    all_digits, decimal_u64, head, head_len, lemma_head_len, lemma_space_count_concat,
    lemma_space_count_none, no_space, space_count,
};

verus! {

/// `t + " " + x` splits at the space after `t`, and holds that one space.
proof fn lemma_two_tokens(t: Seq<char>, x: Seq<char>)
    requires
        no_space(t),
        no_space(x),
    ensures
        head(t + " "@ + x) == t,
        space_count(t + " "@ + x) == 1,
        head(t) == t,
        space_count(t) == 0,
{
    reveal_strlit(" ");
    let s = t + " "@ + x;
    lemma_head_len(s, t.len() as int);
    assert(head(s) =~= t);
    lemma_head_len(t, t.len() as int);
    assert(head(t) =~= t);
    lemma_space_count_none(t);
    lemma_space_count_none(x);
    lemma_space_count_concat(t, " "@);
    lemma_space_count_concat(t + " "@, x);
    assert(space_count(" "@) == 1) by {
        reveal_strlit(" ");
        assert(" "@.drop_last() =~= Seq::<char>::empty());
        assert(space_count(Seq::<char>::empty()) == 0);
        assert(" "@.last() == ' ');
    }
}

/// A token that the relative-move table names holds no space.
proof fn lemma_relative_token_no_space(t: Seq<char>)
    requires
        relative_target(t) is Some,
    ensures
        no_space(t),
        t.len() > 0,
{
    reveal_strlit("d");
    reveal_strlit("down");
    reveal_strlit("u");
    reveal_strlit("up");
    reveal_strlit("r");
    reveal_strlit("right");
    reveal_strlit("l");
    reveal_strlit("left");
    reveal_strlit("pd");
    reveal_strlit("page-down");
    reveal_strlit("pu");
    reveal_strlit("page-up");
}

/// The relative move that the table gives for `t`, with `extend` as given.
pub open spec fn table_move(t: Seq<char>, extend: bool) -> CommandView {
    let (by, forward) = relative_target(t)->0;
    CommandView::RelativeMove(RelativeMove { by, forward, extend })
}

/// For every token of the relative-move table, a second token changes only
/// the `extend` flag: `move t` gives the move without extending, and
/// `move t x` the same move extending the selection, whatever `x` holds.
pub proof fn lemma_second_token_only_extends(t: Seq<char>, x: Seq<char>)
    requires
        relative_target(t) is Some,
        x.len() > 0,
        no_space(x),
    ensures
        relative_move_outcome(t) == Ok::<CommandView, ParseErrorView>(table_move(t, false)),
        relative_move_outcome(t + " "@ + x) == Ok::<CommandView, ParseErrorView>(
            table_move(t, true),
        ),
{
    lemma_relative_token_no_space(t);
    lemma_two_tokens(t, x);
}

/// A decimal line number names none of the fixed points.
proof fn lemma_number_is_no_point(t: Seq<char>)
    requires
        decimal_u64(t) is Some,
    ensures
        absolute_target(t) is None,
        no_space(t),
{
    reveal_strlit("bof");
    reveal_strlit("beginning-of-file");
    reveal_strlit("eof");
    reveal_strlit("end-of-file");
    reveal_strlit("bol");
    reveal_strlit("beginning-of-line");
    reveal_strlit("eol");
    reveal_strlit("end-of-line");
    let d = if t.len() > 0 && t[0] == '+' {
        t.drop_first()
    } else {
        t
    };
    assert(all_digits(d));
    if t.len() > 0 && t[0] == '+' {
        assert(d[0] == t[1]);
        assert forall|i: int| 0 <= i < t.len() implies t[i] != ' ' by {
            if i > 0 {
                assert(t[i] == d[i - 1]);
            }
        }
    } else {
        assert(t[0] == d[0]);
        assert forall|i: int| 0 <= i < t.len() implies t[i] != ' ' by {
            assert(t[i] == d[i]);
        }
    }
}

/// `move_to n`, for a decimal number `n`, targets line `n` without
/// extending the selection, and a second token does not change that.
pub proof fn lemma_line_number_ignores_second_token(t: Seq<char>, x: Seq<char>)
    requires
        decimal_u64(t) is Some,
        no_space(x),
    ensures
        absolute_move_outcome(t) == Ok::<CommandView, ParseErrorView>(
            CommandView::AbsoluteMove(
                AbsoluteMove { to: AbsoluteMovePoint::line(decimal_u64(t)->0), extend: false },
            ),
        ),
        absolute_move_outcome(t + " "@ + x) == absolute_move_outcome(t),
{
    lemma_number_is_no_point(t);
    lemma_two_tokens(t, x);
    assert(t.len() > 0);
}

/// Rendering is total and never gives an empty label.
pub proof fn lemma_label_nonempty(c: Command)
    ensures
        c.prompt_label().len() > 0,
{
    reveal_strlit("move ");
    reveal_strlit("cancel");
    reveal_strlit("quit");
    reveal_strlit("save");
    reveal_strlit("back");
    reveal_strlit("delete");
    reveal_strlit("open");
    reveal_strlit("buffernext");
    reveal_strlit("bufferprev");
    reveal_strlit("settheme");
    reveal_strlit("togglelinenumbers");
    reveal_strlit("open-prompt");
    reveal_strlit("insert");
    reveal_strlit("undo");
    reveal_strlit("redo");
    reveal_strlit("find");
    reveal_strlit("findnext");
    reveal_strlit("findprev");
    reveal_strlit("find_under_expand");
    reveal_strlit("cursor_expand_lines");
    reveal_strlit("copy");
    reveal_strlit("paste");
    reveal_strlit("cut");
    reveal_strlit("close");
    reveal_strlit("selecta_ll");
}

/// Rendering is a function of the command: equal commands render to the
/// same label.
pub proof fn lemma_label_deterministic(a: Command, b: Command)
    requires
        a == b,
    ensures
        a.prompt_label() == b.prompt_label(),
{
}

} // verus!
