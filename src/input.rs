use vstd::prelude::*;
use crate::model::MAX_TASK_LEN;

verus! {

/// What `str::trim` leaves of a text.
pub uninterp spec fn trimmed(s: Seq<char>) -> Seq<char>;

/// What `str::trim_end` leaves of a text.
pub uninterp spec fn trimmed_end(s: Seq<char>) -> Seq<char>;

/// Relies on str::trim: the text without leading and trailing whitespace.
#[verifier::external_body]
fn trim(s: &str) -> (r: &str)
    ensures
        r@ == trimmed(s@),
{
    s.trim()
}

/// Relies on str::trim_end: the text without trailing whitespace, which is a
/// prefix of the text.
#[verifier::external_body]
fn trim_end(s: &str) -> (r: &str)
    ensures
        r@ == trimmed_end(s@),
        r@.len() <= s@.len(),
        r@ == s@.subrange(0, r@.len() as int),
{
    s.trim_end()
}

/// Whether every character is an ASCII decimal digit.
pub open spec fn all_digits(s: Seq<char>) -> bool {
    forall|i: int| 0 <= i < s.len() ==> '0' <= #[trigger] s[i] <= '9'
}

/// The number that a run of decimal digits writes.
pub open spec fn digits_value(s: Seq<char>) -> nat
    decreases s.len(),
{
    if s.len() == 0 {
        0
    } else {
        digits_value(s.drop_last()) * 10 + (s.last() as nat - '0' as nat) as nat
    }
}

/// The `usize` that a text writes in decimal: an optional `+`, then at least
/// one digit, with a value that fits; nothing for any other text.
pub open spec fn decimal_of(s: Seq<char>) -> Option<nat> {
    let d = if s.len() > 0 && s[0] == '+' { s.drop_first() } else { s };
    if d.len() > 0 && all_digits(d) && digits_value(d) <= usize::MAX {
        Some(digits_value(d))
    } else {
        None
    }
}

/// Relies on `str::parse::<usize>`: an optional `+` and decimal digits whose
/// value fits; any other text is refused.
#[verifier::external_body]
fn parse_decimal(s: &str) -> (r: Option<usize>)
    ensures
        r matches Some(n) ==> decimal_of(s@) == Some(n as nat),
        r is None ==> decimal_of(s@) is None,
{
    s.parse::<usize>().ok()
}

/// The number typed on a line, surrounding whitespace ignored.
pub fn number_of(line: &str) -> (r: Option<usize>)
    ensures
        r matches Some(n) ==> decimal_of(trimmed(line@)) == Some(n as nat),
        r is None ==> decimal_of(trimmed(line@)) is None,
{
    parse_decimal(trim(line))
}

/// The meaning of a yes/no answer: `y` or `Y` is yes, `n` or `N` is no,
/// anything else is no answer.
pub open spec fn answer_spec(t: Seq<char>) -> Option<bool> {
    if t == seq!['y'] || t == seq!['Y'] {
        Some(true)
    } else if t == seq!['n'] || t == seq!['N'] {
        Some(false)
    } else {
        None
    }
}

/// The answer that a text gives, once trailing whitespace is gone.
pub fn answer_of_trimmed(t: &str) -> (r: Option<bool>)
    ensures
        r == answer_spec(t@),
{
    if t.unicode_len() != 1 {
        return None;
    }
    let c = t.get_char(0);
    assert(t@ =~= seq![c]);
    if c == 'y' || c == 'Y' {
        Some(true)
    } else if c == 'n' || c == 'N' {
        Some(false)
    } else {
        None
    }
}

/// The answer typed on a line, trailing whitespace ignored.
pub fn answer_of(line: &str) -> (r: Option<bool>)
    ensures
        r == answer_spec(trimmed_end(line@)),
{
    answer_of_trimmed(trim_end(line))
}

/// Why a typed description was refused.
#[derive(Clone, Copy, Debug, PartialEq, Eq, Structural)]
pub enum TextError {
    /// It has more than `MAX_TASK_LEN` characters.
    TooLong,
}

/// A typed description, once trailing whitespace is gone: accepted when it
/// has at most `MAX_TASK_LEN` characters.
pub fn task_text_of_trimmed(t: &str) -> (r: Result<String, TextError>)
    ensures
        r matches Ok(s) ==> s@ == t@ && t@.len() <= MAX_TASK_LEN,
        r is Err <==> t@.len() > MAX_TASK_LEN,
{
    if t.unicode_len() > MAX_TASK_LEN {
        Err(TextError::TooLong)
    } else {
        Ok(t.to_owned())
    }
}

/// The description typed on a line, trailing whitespace ignored.
pub fn task_text_of(line: &str) -> (r: Result<String, TextError>)
    ensures
        r matches Ok(s) ==> s@ == trimmed_end(line@) && s@.len() <= MAX_TASK_LEN
            && s@ == line@.subrange(0, s@.len() as int),
        r is Err <==> trimmed_end(line@).len() > MAX_TASK_LEN,
{
    task_text_of_trimmed(trim_end(line))
}

/// What the main menu offers.
#[derive(Clone, Copy, Debug, PartialEq, Eq, Structural)]
pub enum MenuAction {
    Add,
    List,
    Edit,
    Complete,
    Remove,
    Exit,
}

/// The action that a menu number picks: 1 to 6, in the order of `MenuAction`.
pub open spec fn action_spec(n: nat) -> Option<MenuAction> {
    if n == 1 {
        Some(MenuAction::Add)
    } else if n == 2 {
        Some(MenuAction::List)
    } else if n == 3 {
        Some(MenuAction::Edit)
    } else if n == 4 {
        Some(MenuAction::Complete)
    } else if n == 5 {
        Some(MenuAction::Remove)
    } else if n == 6 {
        Some(MenuAction::Exit)
    } else {
        None
    }
}

/// The action that a menu number picks, if any.
pub fn action_of(n: usize) -> (r: Option<MenuAction>)
    ensures
        r == action_spec(n as nat),
{
    match n {
        1 => Some(MenuAction::Add),
        2 => Some(MenuAction::List),
        3 => Some(MenuAction::Edit),
        4 => Some(MenuAction::Complete),
        5 => Some(MenuAction::Remove),
        6 => Some(MenuAction::Exit),
        _ => None,
    }
}

/// The action picked on a menu line: a number from 1 to 6; anything else
/// picks none.
pub fn menu_choice(line: &str) -> (r: Option<MenuAction>)
    ensures
        r == match decimal_of(trimmed(line@)) {
            Some(n) => action_spec(n),
            None => None,
        },
{
    match number_of(line) {
        Some(n) => action_of(n),
        None => None,
    }
}

} // verus!
