use vstd::prelude::*;
use crate::format::{trim_text, trimmed};
use rand::Rng;

verus! {

/// Length of a generated user name.
pub const RANDOM_NAME_LEN: usize = 8;

/// Whether a character is an ASCII letter or digit.
pub open spec fn is_alphanumeric(c: char) -> bool {
    ('a' <= c <= 'z') || ('A' <= c <= 'Z') || ('0' <= c <= '9')
}

/// Relies on `rand::distributions::Alphanumeric` drawn from `rand::thread_rng`:
/// each draw is one of the ASCII letters and digits.
#[verifier::external_body]
fn random_alphanumeric(n: usize) -> (r: String)
    ensures
        r@.len() == n,
        forall|i: int| 0 <= i < r@.len() ==> is_alphanumeric(#[trigger] r@[i]),
{
    rand::thread_rng().sample_iter(&rand::distributions::Alphanumeric).take(n).map(char::from).collect()
}

/// A fresh name of `RANDOM_NAME_LEN` ASCII letters and digits.
pub fn generate_random_username() -> (r: String)
    ensures
        r@.len() == RANDOM_NAME_LEN,
        forall|i: int| 0 <= i < r@.len() ==> is_alphanumeric(#[trigger] r@[i]),
{
    random_alphanumeric(RANDOM_NAME_LEN)
}

/// The user name from what the user typed: the text without surrounding
/// whitespace, or a generated name when that is empty.
pub fn choose_username(typed: &str) -> (r: String)
    ensures
        trimmed(typed@).len() > 0 ==> r@ == trimmed(typed@),
        trimmed(typed@).len() == 0 ==> r@.len() == RANDOM_NAME_LEN && forall|i: int|
            0 <= i < r@.len() ==> is_alphanumeric(#[trigger] r@[i]),
{
    let name = trim_text(typed);
    if name.unicode_len() == 0 {
        generate_random_username()
    } else {
        String::from_str(name)
    }
}

} // verus!
