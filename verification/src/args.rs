//! The arguments of the state document attribute: nothing, or `?Eq` to leave
//! out the equality implementation.

use vstd::prelude::*;

verus! {

/// Characters that separate tokens (Rust's pattern white space).
pub open spec fn is_space(c: char) -> bool {
    c == '\t' || c == '\n' || c == '\u{0B}' || c == '\u{0C}' || c == '\r' || c == ' ' || c == '\u{85}'
        || c == '\u{200E}' || c == '\u{200F}' || c == '\u{2028}' || c == '\u{2029}'
}

/// The first index at or after `i` that does not hold a space (or the length).
pub open spec fn skip_spaces(s: Seq<char>, i: int) -> int
    decreases s.len() - i,
{
    if i < 0 || i >= s.len() {
        i
    } else if is_space(s[i]) {
        skip_spaces(s, i + 1)
    } else {
        i
    }
}

/// What the arguments mean: `Some(true)` for none (equality is implemented),
/// `Some(false)` for `?Eq`, `None` when they are not valid.
pub open spec fn parsed_args(s: Seq<char>) -> Option<bool> {
    let i = skip_spaces(s, 0);
    if i >= s.len() {
        Some(true)
    } else if s[i] == '?' {
        let j = skip_spaces(s, i + 1);
        if j + 1 < s.len() && s[j] == 'E' && s[j + 1] == 'q' && skip_spaces(s, j + 2) >= s.len() {
            Some(false)
        } else {
            None
        }
    } else {
        None
    }
}

/// The arguments of the attribute.
#[derive(Clone, Copy, Debug, PartialEq, Eq, Structural)]
pub struct Args {
    /// Whether equality is implemented for the document.
    pub impl_eq: bool,
}

/// The arguments are not valid.
#[derive(Clone, Copy, Debug, PartialEq, Eq, Structural)]
pub struct ArgsError;

impl ArgsError {
    /// The error's message.
    pub fn message(&self) -> (res: &'static str)
        ensures
            res@ == "only valid argument is ?Eq"@,
    {
        "only valid argument is ?Eq"
    }
}

fn is_space_char(c: char) -> (res: bool)
    ensures
        res == is_space(c),
{
    c == '\t' || c == '\n' || c == '\u{0B}' || c == '\u{0C}' || c == '\r' || c == ' ' || c == '\u{85}'
        || c == '\u{200E}' || c == '\u{200F}' || c == '\u{2028}' || c == '\u{2029}'
}

fn skip(s: &str, n: usize, i: usize) -> (res: usize)
    requires
        n == s@.len(),
        i <= n,
    ensures
        res == skip_spaces(s@, i as int),
        i <= res <= n,
{
    let mut k = i;
    while k < n && is_space_char(s.get_char(k))
        invariant
            n == s@.len(),
            i <= k <= n,
            skip_spaces(s@, i as int) == skip_spaces(s@, k as int),
        decreases n - k,
    {
        k = k + 1;
    }
    k
}

impl Args {
    /// Parses the arguments: nothing, or `?Eq`, with any spaces around.
    pub fn parse(input: &str) -> (res: Result<Args, ArgsError>)
        ensures
            match parsed_args(input@) {
                Some(b) => res matches Ok(args) && args.impl_eq == b,
                None => res is Err,
            },
    {
        let n = input.unicode_len();
        let i = skip(input, n, 0);
        if i == n {
            return Ok(Args { impl_eq: true });
        }
        if input.get_char(i) != '?' {
            return Err(ArgsError);
        }
        let j = skip(input, n, i + 1);
        if j < n && n - j > 1 && input.get_char(j) == 'E' && input.get_char(j + 1) == 'q' && skip(input, n, j + 2) == n {
            Ok(Args { impl_eq: false })
        } else {
            Err(ArgsError)
        }
    }
}

} // verus!
