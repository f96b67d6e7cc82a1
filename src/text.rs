//! Character-level helpers on prompt text: comparison, the first
//! space-delimited token, space counting and decimal numbers.
use vstd::prelude::*;

verus! {

/// Number of characters of `s` before its first space (all of `s` when it
/// holds no space).
pub open spec fn head_len(s: Seq<char>) -> nat
    decreases s.len(),
{
    if s.len() == 0 || s[0] == ' ' {
        0
    } else {
        1 + head_len(s.drop_first())
    }
}

/// The text of `s` before its first space.
pub open spec fn head(s: Seq<char>) -> Seq<char> {
    s.subrange(0, head_len(s) as int)
}

/// The text of `s` after its first space, if it holds one.
pub open spec fn rest(s: Seq<char>) -> Option<Seq<char>> {
    if head_len(s) < s.len() {
        Some(s.subrange(head_len(s) as int + 1, s.len() as int))
    } else {
        None
    }
}

/// Number of spaces in `s`.
pub open spec fn space_count(s: Seq<char>) -> nat
    decreases s.len(),
{
    if s.len() == 0 {
        0
    } else {
        space_count(s.drop_last()) + if s.last() == ' ' {
            1nat
        } else {
            0nat
        }
    }
}

/// True when `s` holds no space.
pub open spec fn no_space(s: Seq<char>) -> bool {
    forall|i: int| 0 <= i < s.len() ==> s[i] != ' '
}

/// Value of a run of decimal digits.
pub open spec fn digits_value(s: Seq<char>) -> nat
    decreases s.len(),
{
    if s.len() == 0 {
        0
    } else {
        digits_value(s.drop_last()) * 10 + (s.last() as nat - '0' as nat) as nat
    }
}

/// True when `s` is one or more decimal digits.
pub open spec fn all_digits(s: Seq<char>) -> bool {
    s.len() > 0 && forall|i: int| 0 <= i < s.len() ==> '0' <= #[trigger] s[i] <= '9'
}

/// An unsigned 64-bit number written in decimal, with an optional leading
/// `+`; `None` for any other text and for values that do not fit.
pub open spec fn decimal_u64(s: Seq<char>) -> Option<u64> {
    let d = if s.len() > 0 && s[0] == '+' {
        s.drop_first()
    } else {
        s
    };
    if all_digits(d) && digits_value(d) <= u64::MAX {
        Some(digits_value(d) as u64)
    } else {
        None
    }
}

/// `head_len` is the index of the first space.
pub proof fn lemma_head_len(s: Seq<char>, i: int)
    requires
        0 <= i <= s.len(),
        forall|j: int| 0 <= j < i ==> s[j] != ' ',
        i == s.len() || s[i] == ' ',
    ensures
        head_len(s) == i,
    decreases i,
{
    if i > 0 {
        lemma_head_len(s.drop_first(), i - 1);
    }
}

/// Spaces of a concatenation add up.
pub proof fn lemma_space_count_concat(a: Seq<char>, b: Seq<char>)
    ensures
        space_count(a + b) == space_count(a) + space_count(b),
    decreases b.len(),
{
    if b.len() > 0 {
        lemma_space_count_concat(a, b.drop_last());
        assert((a + b).drop_last() =~= a + b.drop_last());
    } else {
        assert(a + b =~= a);
    }
}

/// Text without a space counts none.
pub proof fn lemma_space_count_none(s: Seq<char>)
    requires
        no_space(s),
    ensures
        space_count(s) == 0,
    decreases s.len(),
{
    if s.len() > 0 {
        lemma_space_count_none(s.drop_last());
    }
}

/// True when the two strings hold the same characters.
pub fn str_eq(a: &str, b: &str) -> (r: bool)
    ensures
        r == (a@ == b@),
{
    let n = a.unicode_len();
    if n != b.unicode_len() {
        return false;
    }
    let mut i: usize = 0;
    while i < n
        invariant
            n == a@.len(),
            n == b@.len(),
            i <= n,
            forall|j: int| 0 <= j < i ==> a@[j] == b@[j],
        decreases n - i,
    {
        if a.get_char(i) != b.get_char(i) {
            return false;
        }
        i = i + 1;
    }
    assert(a@ =~= b@);
    true
}

/// Index of the first space of `s`, or its length when it holds none.
pub fn first_space(s: &str) -> (r: usize)
    ensures
        r == head_len(s@),
        r <= s@.len(),
{
    let n = s.unicode_len();
    let mut i: usize = 0;
    while i < n && s.get_char(i) != ' '
        invariant
            n == s@.len(),
            i <= n,
            forall|j: int| 0 <= j < i ==> s@[j] != ' ',
        decreases n - i,
    {
        i = i + 1;
    }
    proof {
        lemma_head_len(s@, i as int);
    }
    i
}

/// Splits `s` at its first space: the text before it, and the text after
/// it when there is a space.
pub fn split_first<'a>(s: &'a str) -> (r: (&'a str, Option<&'a str>))
    ensures
        r.0@ == head(s@),
        r.1 is Some <==> rest(s@) is Some,
        r.1 is Some ==> r.1->0@ == rest(s@)->0,
{
    let n = s.unicode_len();
    let h = first_space(s);
    let first = s.substring_char(0, h);
    if h < n {
        (first, Some(s.substring_char(h + 1, n)))
    } else {
        (first, None)
    }
}

/// Number of spaces in `s`.
pub fn count_spaces(s: &str) -> (r: usize)
    ensures
        r == space_count(s@),
        r <= s@.len(),
{
    let n = s.unicode_len();
    let mut i: usize = 0;
    let mut count: usize = 0;
    while i < n
        invariant
            n == s@.len(),
            i <= n,
            count <= i,
            count == space_count(s@.subrange(0, i as int)),
        decreases n - i,
    {
        proof {
            assert(s@.subrange(0, i + 1).drop_last() =~= s@.subrange(0, i as int));
        }
        if s.get_char(i) == ' ' {
            count = count + 1;
        }
        i = i + 1;
    }
    assert(s@.subrange(0, n as int) =~= s@);
    count
}

/// Relies on `str::parse::<u64>` (`u64::from_str`): an optional `+` followed
/// by decimal digits, and an error for any other text or a value out of range.
#[verifier::external_body]
pub(crate) fn parse_u64(s: &str) -> (r: Option<u64>)
    ensures
        r == decimal_u64(s@),
{
    s.parse::<u64>().ok()
}

} // verus!
