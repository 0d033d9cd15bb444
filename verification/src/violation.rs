//! Preconditions of the endpoint calls, as values. A call with a `requires`
//! has a `try_` twin that tests the arguments and reports the first
//! precondition that they break.

use vstd::prelude::*;
use vstd::string::*;

verus! {

/// A precondition of an endpoint call that the arguments break.
#[derive(Clone, Copy, Debug, PartialEq, Eq, Structural)]
pub enum Violation {
    /// The reason of a report is empty.
    EmptyReason,
    /// The proof of a report is empty.
    EmptyProof,
    /// The tag to pick a random image by is empty.
    EmptyImageTag,
    /// The name of the subreddit is empty.
    EmptySubreddit,
    /// The snowflake of an image is empty.
    EmptySnowflake,
    /// The name of the tag to look up is empty.
    EmptyTag,
    /// The lyrics query is empty.
    EmptyQuery,
    /// The provider carries no track.
    EmptyTracks,
    /// The text is not an IPv4 address in dotted decimal notation.
    InvalidIp,
}

impl Violation {
    /// What to tell the caller about the violation.
    pub open spec fn message_text(self) -> Seq<char> {
        match self {
            Violation::EmptyReason => "Reason param cannot be empty"@,
            Violation::EmptyProof => "Proof param cannot be empty"@,
            Violation::EmptyImageTag => "Tag param cannot be empty"@,
            Violation::EmptySubreddit => "You have to specify a subreddit to search in"@,
            Violation::EmptySnowflake => "Snowflake id cannot be empty"@,
            Violation::EmptyTag => "Tag cannot be empty"@,
            Violation::EmptyQuery => "Query param cannot be empty"@,
            Violation::EmptyTracks => "Vector contents cannot be empty"@,
            Violation::InvalidIp => "Cannot parse as ip"@,
        }
    }

    /// What to tell the caller about the violation.
    pub fn message(&self) -> (text: String)
        ensures
            text@ == self.message_text(),
    {
        match self {
            Violation::EmptyReason => String::from_str("Reason param cannot be empty"),
            Violation::EmptyProof => String::from_str("Proof param cannot be empty"),
            Violation::EmptyImageTag => String::from_str("Tag param cannot be empty"),
            Violation::EmptySubreddit => String::from_str(
                "You have to specify a subreddit to search in",
            ),
            Violation::EmptySnowflake => String::from_str("Snowflake id cannot be empty"),
            Violation::EmptyTag => String::from_str("Tag cannot be empty"),
            Violation::EmptyQuery => String::from_str("Query param cannot be empty"),
            Violation::EmptyTracks => String::from_str("Vector contents cannot be empty"),
            Violation::InvalidIp => String::from_str("Cannot parse as ip"),
        }
    }
}

} // verus!
