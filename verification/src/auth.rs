//! The token that authorizes requests: where it is taken from.

use crate::lines::{trim, trimmed};
use crate::text::{chars_of, option_view, string_of};
use vstd::prelude::*;

verus! {

/// The token that the environment gives: the value of `GITHUB_TOKEN` where
/// it is set and not empty, else that of `GH_TOKEN` where it is set and not
/// empty.
pub open spec fn environment_token(
    github_token: Option<Seq<char>>,
    gh_token: Option<Seq<char>>,
) -> Option<Seq<char>> {
    match github_token {
        Some(token) if token.len() > 0 => Some(token),
        _ => match gh_token {
            Some(token) if token.len() > 0 => Some(token),
            _ => None,
        },
    }
}

/// The token that the GitHub command line tool printed: its output without
/// the white space at its ends, where that is not empty.
pub open spec fn printed_token(output: Seq<char>) -> Option<Seq<char>> {
    if trim(output).len() > 0 {
        Some(trim(output))
    } else {
        None
    }
}

/// The message for a machine on which no token is to be found.
pub const NO_TOKEN_MESSAGE: &'static str =
    "No GitHub token found.\n\nOptions:\n1. Set GITHUB_TOKEN environment variable\n2. Run 'gh auth login' to authenticate GitHub CLI";

/// The token that the environment gives: see [`environment_token`].
pub fn token_from_environment(github_token: Option<String>, gh_token: Option<String>) -> (token:
    Option<String>)
    ensures
        option_view(token) == environment_token(option_view(github_token), option_view(gh_token)),
{
    match github_token {
        Some(token) => {
            if !token.as_str().is_empty() {
                return Some(token);
            }
        },
        None => {},
    }
    match gh_token {
        Some(token) => {
            if !token.as_str().is_empty() {
                return Some(token);
            }
        },
        None => {},
    }
    None
}

/// The token that the GitHub command line tool printed: see
/// [`printed_token`].
pub fn token_from_output(output: &str) -> (token: Option<String>)
    ensures
        option_view(token) == printed_token(output@),
{
    let text = chars_of(output);
    let inner = trimmed(text.as_slice());
    if inner.len() > 0 {
        Some(string_of(inner.as_slice()))
    } else {
        None
    }
}

} // verus!
