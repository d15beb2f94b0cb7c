//! The one command that the interactive prompt understands beside a query.

use vstd::prelude::*;

verus! {

/// What `str::trim` leaves of a text: the text without the white space at
/// its start and at its end.
pub uninterp spec fn trimmed(text: Seq<char>) -> Seq<char>;

/// What `str::to_lowercase` makes of a text: the text in lower case.
pub uninterp spec fn lowercased(text: Seq<char>) -> Seq<char>;

/// Whether a line asks to leave the session: it does where, once the
/// white space around it is taken off and it is put in lower case, it reads
/// `exit`.
pub open spec fn exit_command(line: Seq<char>) -> bool {
    lowercased(trimmed(line)) == "exit"@
}

/// `str::trim`, which depends on the text alone.
#[verifier::external_body]
fn trim(text: &str) -> (inner: &str)
    ensures
        inner@ == trimmed(text@),
{
    text.trim()
}

/// `str::to_lowercase`, which depends on the text alone.
#[verifier::external_body]
fn to_lowercase(text: &str) -> (lower: String)
    ensures
        lower@ == lowercased(text@),
{
    text.to_lowercase()
}

/// Whether a word is `exit`, letter for letter.
pub fn is_exit_word(word: &str) -> (found: bool)
    ensures
        found == (word@ == "exit"@),
{
    let given = String::from_str(word);
    let exit = String::from_str("exit");
    given == exit
}

/// Whether a line asks to leave the session.
pub fn is_exit_command(line: &str) -> (found: bool)
    ensures
        found == exit_command(line@),
{
    let lower = to_lowercase(trim(line));
    is_exit_word(lower.as_str())
}

} // verus!
