//! The per-page result model: a scraped record or one classified failure.
use vstd::prelude::*;

use crate::text::{decimal, decimal_string};

verus! {

/// Why one page produced no record. Every kind is local to its page.
#[derive(Debug, Clone, PartialEq, Eq)]
pub enum ScrapError {
    /// A network failure other than a timeout (DNS, refused connection, reset).
    Transport(String),
    /// Every attempt timed out and the retry budget ran out.
    RetryExhausted,
    /// The server answered with a client or server error status.
    HttpStatus(u16),
    /// The markup holds no element for the person's name.
    NameNotPresent,
    /// The name text lacks the comma between surname and first name.
    ParseName(String),
}

/// One person's profile: display name and, when one qualifies, a photo path.
#[derive(Debug, Clone, PartialEq, Eq)]
pub struct ScrappedProfessor {
    pub name: String,
    pub picture: Option<String>,
}

/// The outcome of one page.
pub type Outcome = Result<ScrappedProfessor, ScrapError>;

/// The human-readable description of a failure.
pub open spec fn error_text(e: ScrapError) -> Seq<char> {
    match e {
        ScrapError::Transport(m) => m@,
        ScrapError::RetryExhausted => "Retried too many times!"@,
        ScrapError::HttpStatus(s) => "HTTP status "@ + decimal(s as nat),
        ScrapError::NameNotPresent => "Tag <span class=\"texto\"> containing professors name was not present!"@,
        ScrapError::ParseName(t) => "Failed to parse '"@ + t@ + "', name did not contain ','!"@,
    }
}

impl ScrapError {
    /// Describes the failure in one line.
    pub fn describe(&self) -> (r: String)
        ensures
            r@ == error_text(*self),
    {
        match self {
            ScrapError::Transport(m) => m.clone(),
            ScrapError::RetryExhausted => String::from_str("Retried too many times!"),
            ScrapError::HttpStatus(s) => {
                let mut r = String::from_str("HTTP status ");
                let digits = decimal_string(*s as u32);
                r.append(digits.as_str());
                r
            },
            ScrapError::NameNotPresent => String::from_str(
                "Tag <span class=\"texto\"> containing professors name was not present!",
            ),
            ScrapError::ParseName(t) => {
                let mut r = String::from_str("Failed to parse '");
                r.append(t.as_str());
                r.append("', name did not contain ','!");
                r
            },
        }
    }
}

} // verus!
