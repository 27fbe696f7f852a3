//! The checks an account editor makes of what is typed in: the login and the
//! nickname of an account.

use vstd::prelude::*;
use vstd::string::StringSliceAdditionalSpecFns;

verus! {

/// Whether the regular expression `pattern` matches somewhere in `text`, as
/// the regex crate decides; `None` where it refuses the pattern.
pub uninterp spec fn regex_match(pattern: Seq<char>, text: Seq<char>) -> Option<bool>;

/// Calls `regex::Regex::new` on the pattern and, when it is accepted,
/// `Regex::is_match` on the text. The contract names the outcome as a
/// function of the pattern and the text. For the login pattern it also
/// states the outcome as the regex crate documents its syntax: the pattern
/// is accepted, `^` and `$` match only at the start and the end of the text,
/// `{1,32}` repeats a character class from one to 32 characters, and
/// `[a-z0-9_-]` holds the lower-case letters, the digits, `_` and `-` (a
/// hyphen last in a class is itself).
#[verifier::external_body]
fn regex_is_match(pattern: &str, text: &str) -> (r: Option<bool>)
    ensures
        r == regex_match(pattern@, text@),
        pattern@ == username_pattern() ==> r == Some(login_shaped(text@)),
{
    match regex::Regex::new(pattern) {
        Ok(re) => Some(re.is_match(text)),
        Err(_) => None,
    }
}

/// The pattern a login must match: one to 32 lower-case letters, digits,
/// underscores or hyphens, and nothing else.
pub open spec fn username_pattern() -> Seq<char> {
    seq![
        '^', '[', 'a', '-', 'z', '0', '-', '9', '_', '-', ']', '{', '1', ',', '3', '2', '}', '$',
    ]
}

/// A character a login may hold: a lower-case letter, a digit, `_` or `-`.
pub open spec fn login_char(c: char) -> bool {
    ('a' <= c && c <= 'z') || ('0' <= c && c <= '9') || c == '_' || c == '-'
}

/// Whether text has the shape of a login: one to 32 characters, each one a
/// login may hold.
pub open spec fn login_shaped(t: Seq<char>) -> bool {
    &&& 1 <= t.len() <= 32
    &&& forall|i: int| 0 <= i < t.len() ==> login_char(#[trigger] t[i])
}

/// Whether a login may be used: whether it matches `username_pattern`,
/// that is, whether it has the shape of a login.
pub fn valid_username(login: &str) -> (r: Option<bool>)
    ensures
        r == regex_match(username_pattern(), login@),
        r == Some(login_shaped(login@)),
{
    let pattern = "^[a-z0-9_-]{1,32}$";
    proof {
        reveal_strlit("^[a-z0-9_-]{1,32}$");
        assert(pattern@ =~= username_pattern());
    }
    regex_is_match(pattern, login)
}

/// Whether a nickname may be used: from one to 32 bytes long.
pub fn valid_nickname(nickname: &str) -> (r: bool)
    ensures
        r == (1 <= nickname.spec_bytes().len() <= 32),
{
    let len = nickname.as_bytes().len();
    1 <= len && len <= 32
}

} // verus!
