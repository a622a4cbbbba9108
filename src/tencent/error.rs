use vstd::prelude::*;

verus! {

/// Why fetching an application's state failed. The transport's own error
/// values are kept as their messages.
#[derive(Clone, Debug, PartialEq, Eq)]
pub enum Error {
    /// The site refused the session: the token is no longer valid.
    TokenExpired,
    /// The request could not be made, or the site answered with a failure.
    Http(String),
    /// The answer could not be read as an application state.
    Parse(String),
    /// Reading or writing locally failed.
    IO(String),
}

} // verus!
