use vstd::prelude::*;
use vstd::string::*;

verus! {

/// Ghost mirror of `Error`, with each payload seen as a character sequence.
pub enum ErrorView {
    Transport(Seq<char>),
    Decode(Seq<char>),
    InvalidToken(Seq<char>),
    DateParse(Seq<char>),
}

/// Why a fetch or a normalization failed. Every failure is terminal for the
/// request that raised it; the payload carries the offending text.
#[derive(Debug)]
pub enum Error {
    /// The upstream request itself failed (network, timeout, bad status).
    Transport(String),
    /// The upstream payload did not match the expected shape.
    Decode(String),
    /// A boolean token was none of `""`, `"0"`, `"1"`; the upstream data
    /// contract changed, so the whole request must fail rather than coerce.
    InvalidToken(String),
    /// A date or time field failed to parse against its expected format.
    DateParse(String),
}

impl View for Error {
    type V = ErrorView;

    open spec fn view(&self) -> ErrorView {
        match self {
            Error::Transport(s) => ErrorView::Transport(s@),
            Error::Decode(s) => ErrorView::Decode(s@),
            Error::InvalidToken(s) => ErrorView::InvalidToken(s@),
            Error::DateParse(s) => ErrorView::DateParse(s@),
        }
    }
}

impl ErrorView {
    /// The human-readable message owed to the API caller for this failure.
    pub open spec fn spec_message(self) -> Seq<char> {
        match self {
            ErrorView::Transport(s) => "upstream request failed: "@ + s,
            ErrorView::Decode(s) => "unexpected upstream payload: "@ + s,
            ErrorView::InvalidToken(s) => "invalid boolean token: "@ + s,
            ErrorView::DateParse(s) => "failed to parse date or time: "@ + s,
        }
    }
}

impl Error {
    /// Renders the error as the readable message placed in the response envelope.
    pub fn message(&self) -> (r: String)
        ensures
            r@ == self@.spec_message(),
    {
        match self {
            Error::Transport(s) => String::from_str("upstream request failed: ").concat(
                s.as_str(),
            ),
            Error::Decode(s) => String::from_str("unexpected upstream payload: ").concat(
                s.as_str(),
            ),
            Error::InvalidToken(s) => String::from_str("invalid boolean token: ").concat(
                s.as_str(),
            ),
            Error::DateParse(s) => String::from_str("failed to parse date or time: ").concat(
                s.as_str(),
            ),
        }
    }
}

} // verus!
