use vstd::prelude::*;

verus! {

/// The failures that adding a feed can end in.
#[derive(Debug)]
pub enum AppError {
    /// The transport could not reach or read the source; holds the cause.
    FetchFeedError(String),
    /// The source could not be read as a feed; holds the details.
    ParseFeedError(String),
}

/// The HTTP status that every error kind is reported with (bad request).
pub const BAD_REQUEST: u16 = 400;

impl AppError {
    /// The human-readable text of an error.
    pub open spec fn message_spec(&self) -> Seq<char> {
        match self {
            AppError::FetchFeedError(_) => "Failed to fetch the rss feed."@,
            AppError::ParseFeedError(d) => "Failed to parse source as feed. Details: "@ + d@,
        }
    }

    /// Whether this is a parse error whose details are `details`.
    pub open spec fn is_parse_error(&self, details: Seq<char>) -> bool {
        match self {
            AppError::ParseFeedError(d) => d@ == details,
            _ => false,
        }
    }

    /// Whether this is a fetch error whose cause reads `cause`.
    pub open spec fn is_fetch_error(&self, cause: Seq<char>) -> bool {
        match self {
            AppError::FetchFeedError(c) => c@ == cause,
            _ => false,
        }
    }

    /// The text shown to a client for this error.
    pub fn message(&self) -> (r: String)
        ensures
            r@ == self.message_spec(),
    {
        match self {
            AppError::FetchFeedError(_) => String::from_str("Failed to fetch the rss feed."),
            AppError::ParseFeedError(d) => {
                let head = String::from_str("Failed to parse source as feed. Details: ");
                head.concat(d.as_str())
            },
        }
    }

    /// The response status for this error: every kind is a client error.
    pub fn status_code(&self) -> (r: u16)
        ensures
            r == BAD_REQUEST,
    {
        BAD_REQUEST
    }
}

} // verus!
