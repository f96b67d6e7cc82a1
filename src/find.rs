//! The find sub-grammar: an optional short cluster of mode flags (`c`ase
//! sensitive, `r`egex, `w`hole words) before the search term.
use vstd::prelude::*;
use vstd::string::*;

use crate::cmd::{
    expected_argument, CommandView, Command, FindConfig, FindConfigView, FromPrompt,
    ParseCommandError, ParseErrorView,
};
use crate::text::{head, rest, split_first};

verus! {

/// True when `s` can be a flag cluster: at most three characters, each of
/// them `c`, `r` or `w`.
pub open spec fn is_flag_cluster(s: Seq<char>) -> bool {
    s.len() <= 3 && forall|i: int|
        0 <= i < s.len() ==> #[trigger] s[i] == 'c' || s[i] == 'r' || s[i] == 'w'
}

/// The search that the arguments of `find` ask for. When a space follows a
/// valid flag cluster, the cluster sets the modes and the text after the
/// first space is the term; otherwise all of the text is the term and no
/// mode is set.
pub open spec fn find_config_of(args: Seq<char>) -> FindConfigView {
    let h = head(args);
    if rest(args) is Some && is_flag_cluster(h) {
        FindConfigView {
            search_term: rest(args)->0,
            case_sensitive: h.contains('c'),
            regex: h.contains('r'),
            whole_words: h.contains('w'),
        }
    } else {
        FindConfigView { search_term: args, case_sensitive: false, regex: false, whole_words: false }
    }
}

/// Outcome of parsing the arguments of `find`.
pub open spec fn find_outcome(args: Seq<char>) -> Result<CommandView, ParseErrorView> {
    if args.len() == 0 {
        expected_argument("find"@)
    } else {
        Ok(CommandView::Find(find_config_of(args)))
    }
}

/// Reads `s` as a flag cluster: the three modes it sets, or `None` when a
/// character of it is no flag.
fn read_flags(s: &str) -> (r: Option<(bool, bool, bool)>)
    ensures
        r is Some <==> (forall|i: int|
            0 <= i < s@.len() ==> #[trigger] s@[i] == 'c' || s@[i] == 'r' || s@[i] == 'w'),
        r is Some ==> r->0 == (s@.contains('c'), s@.contains('r'), s@.contains('w')),
{
    let n = s.unicode_len();
    let mut case_sensitive = false;
    let mut regex = false;
    let mut whole_words = false;
    let mut i: usize = 0;
    while i < n
        invariant
            n == s@.len(),
            i <= n,
            forall|j: int| 0 <= j < i ==> #[trigger] s@[j] == 'c' || s@[j] == 'r' || s@[j] == 'w',
            case_sensitive <==> exists|j: int| 0 <= j < i && s@[j] == 'c',
            regex <==> exists|j: int| 0 <= j < i && s@[j] == 'r',
            whole_words <==> exists|j: int| 0 <= j < i && s@[j] == 'w',
        decreases n - i,
    {
        let c = s.get_char(i);
        if c == 'c' {
            case_sensitive = true;
        } else if c == 'r' {
            regex = true;
        } else if c == 'w' {
            whole_words = true;
        } else {
            return None;
        }
        i = i + 1;
    }
    Some((case_sensitive, regex, whole_words))
}

impl FromPrompt for FindConfig {
    open spec fn prompt_outcome(vals: Seq<char>, r: Result<CommandView, ParseErrorView>) -> bool {
        r == find_outcome(vals)
    }

    fn from_prompt(args: &str) -> (r: Result<Command, ParseCommandError>) {
        if args.is_empty() {
            return Err(ParseCommandError::ExpectedArgument { cmd: String::from_str("find") });
        }
        let (control_chars, term) = split_first(args);
        if let Some(term) = term {
            if control_chars.unicode_len() <= 3 {
                if let Some((case_sensitive, regex, whole_words)) = read_flags(control_chars) {
                    let config = FindConfig {
                        search_term: String::from_str(term),
                        case_sensitive,
                        regex,
                        whole_words,
                    };
                    return Ok(Command::Find(config));
                }
            }
        }
        let config = FindConfig {
            search_term: String::from_str(args),
            case_sensitive: false,
            regex: false,
            whole_words: false,
        };
        Ok(Command::Find(config))
    }
}

} // verus!
