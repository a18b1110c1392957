//! What the transport sends with every request, and how it reads what
//! comes back: the status of the response and the errors in it.

use crate::text::{
    contains, contains_sub, extend_str, join, join_strings, lemma_join_push, string_of, views,
};
use vstd::prelude::*;

verus! {

/// The address of the GraphQL API.
pub const GITHUB_GRAPHQL_URL: &'static str = "https://api.github.com/graphql";

/// The name under which requests are made.
pub const USER_AGENT: &'static str = "ttr";

/// A place in a GraphQL document.
#[derive(Debug, Clone, Copy, PartialEq, Eq, Structural)]
pub struct ErrorLocation {
    pub line: u32,
    pub column: u32,
}

/// An error as the API reports it.
#[derive(Debug)]
pub struct GraphQLError {
    pub message: String,
    /// The steps to the place in the response that the error is about, each
    /// as it is shown.
    pub path: Vec<String>,
    pub locations: Vec<ErrorLocation>,
}

/// The model of a [`GraphQLError`].
pub struct GraphQLErrorView {
    pub message: Seq<char>,
    pub path: Seq<Seq<char>>,
    pub locations: Seq<ErrorLocation>,
}

impl View for GraphQLError {
    type V = GraphQLErrorView;

    open spec fn view(&self) -> GraphQLErrorView {
        GraphQLErrorView {
            message: self.message@,
            path: views(self.path@),
            locations: self.locations@,
        }
    }
}

/// An error as it is shown: the message, and the path where there is one.
pub open spec fn error_text(error: GraphQLErrorView) -> Seq<char> {
    if error.path.len() > 0 {
        error.message + " (path: ["@ + join(error.path, ", "@) + "])"@
    } else {
        error.message
    }
}

/// The errors of a response as they are shown, in order.
pub open spec fn error_texts(errors: Seq<GraphQLErrorView>) -> Seq<Seq<char>> {
    Seq::new(errors.len(), |i: int| error_text(errors[i]))
}

/// The message for a response that reports errors.
pub open spec fn graphql_failure(errors: Seq<GraphQLErrorView>) -> Seq<char> {
    "GitHub GraphQL errors:\n  "@ + join(error_texts(errors), "\n  "@)
}

/// The value of the header that authorizes a request.
pub open spec fn bearer(token: Seq<char>) -> Seq<char> {
    "Bearer "@ + token
}

/// The message for a response whose status is not one of success: none for
/// the status codes from 200 to 299. `status` is the status as it is shown,
/// `body` the text of the response.
pub open spec fn http_failure(code: u16, status: Seq<char>, body: Seq<char>) -> Option<Seq<char>> {
    if code == 401 {
        Some("GitHub API authentication failed. Check your token."@)
    } else if code == 403 {
        if contains_sub(body, "rate limit"@) {
            Some("GitHub API rate limit exceeded. Please wait and try again."@)
        } else {
            Some("GitHub API forbidden: "@ + body)
        }
    } else if !(200 <= code <= 299) {
        Some("GitHub API error ("@ + status + "): "@ + body)
    } else {
        None
    }
}

/// The message for a decoded response that cannot be used: one that
/// reports errors, or else one without data.
pub open spec fn response_failure(errors: Option<Seq<GraphQLErrorView>>, has_data: bool) -> Option<
    Seq<char>,
> {
    match errors {
        Some(errors) => Some(graphql_failure(errors)),
        None => if has_data {
            None
        } else {
            Some("No data in GitHub API response"@)
        },
    }
}

impl GraphQLError {
    /// The error as it is shown: see [`error_text`].
    pub fn to_text(&self) -> (text: String)
        ensures
            text@ == error_text(self@),
    {
        let mut buf: Vec<char> = Vec::new();
        extend_str(&mut buf, self.message.as_str());
        if self.path.len() > 0 {
            extend_str(&mut buf, " (path: [");
            let steps = join_strings(&self.path, ", ");
            extend_str(&mut buf, steps.as_str());
            extend_str(&mut buf, "])");
        }
        string_of(buf.as_slice())
    }
}

/// The value of the header that authorizes a request: see [`bearer`].
pub fn authorization_header(token: &str) -> (value: String)
    ensures
        value@ == bearer(token@),
{
    let mut buf: Vec<char> = Vec::new();
    extend_str(&mut buf, "Bearer ");
    extend_str(&mut buf, token);
    string_of(buf.as_slice())
}

/// The message for a response whose status is not one of success: see
/// [`http_failure`].
pub fn check_status(code: u16, status: &str, body: &str) -> (failure: Option<String>)
    ensures
        crate::text::option_view(failure) == http_failure(code, status@, body@),
{
    if code == 401 {
        return Some(String::from_str("GitHub API authentication failed. Check your token."));
    }
    if code == 403 {
        if contains(body, "rate limit") {
            return Some(
                String::from_str("GitHub API rate limit exceeded. Please wait and try again."),
            );
        }
        let mut buf: Vec<char> = Vec::new();
        extend_str(&mut buf, "GitHub API forbidden: ");
        extend_str(&mut buf, body);
        return Some(string_of(buf.as_slice()));
    }
    if !(code >= 200 && code <= 299) {
        let mut buf: Vec<char> = Vec::new();
        extend_str(&mut buf, "GitHub API error (");
        extend_str(&mut buf, status);
        extend_str(&mut buf, "): ");
        extend_str(&mut buf, body);
        return Some(string_of(buf.as_slice()));
    }
    None
}

/// The message for a response that reports errors: see
/// [`graphql_failure`].
pub fn describe_errors(errors: &[GraphQLError]) -> (message: String)
    ensures
        message@ == graphql_failure(views(errors@)),
{
    let ghost texts = error_texts(views(errors@));
    let mut buf: Vec<char> = Vec::new();
    extend_str(&mut buf, "GitHub GraphQL errors:\n  ");
    let mut i: usize = 0;
    while i < errors.len()
        invariant
            i <= errors.len(),
            texts == error_texts(views(errors@)),
            buf@ == "GitHub GraphQL errors:\n  "@ + join(texts.take(i as int), "\n  "@),
        decreases errors.len() - i,
    {
        if i > 0 {
            extend_str(&mut buf, "\n  ");
        }
        let text = errors[i].to_text();
        extend_str(&mut buf, text.as_str());
        proof {
            let done = texts.take(i as int);
            assert(views(errors@)[i as int] == errors@[i as int]@);
            assert(texts[i as int] == error_text(errors@[i as int]@));
            lemma_join_push(done, "\n  "@, texts[i as int]);
            assert(texts.take(i + 1) == done.push(texts[i as int]));
            assert(buf@ =~= "GitHub GraphQL errors:\n  "@ + join(texts.take(i + 1), "\n  "@));
        }
        i += 1;
    }
    assert(texts.take(texts.len() as int) == texts);
    string_of(buf.as_slice())
}

/// The message for a decoded response that cannot be used: see
/// [`response_failure`].
pub fn check_response(errors: Option<&[GraphQLError]>, has_data: bool) -> (failure: Option<String>)
    ensures
        crate::text::option_view(failure) == response_failure(
            match errors {
                Some(list) => Some(views(list@)),
                None => None,
            },
            has_data,
        ),
{
    match errors {
        Some(list) => Some(describe_errors(list)),
        None => {
            if has_data {
                None
            } else {
                Some(String::from_str("No data in GitHub API response"))
            }
        },
    }
}

} // verus!
