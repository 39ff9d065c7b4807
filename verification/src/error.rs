//! The errors of a run and the lines that report them.

use vstd::prelude::*;
use vstd::string::*;

verus! {

/// Why a query did not produce a text.
#[derive(Debug, PartialEq, Eq)]
pub enum QueryError {
    /// More than a title and a section name were given.
    TooManyArguments,
    /// The operation needs a title, or a section name, that was not given.
    TooFewArguments,
    /// The flag names no operation.
    UnknownFlag,
    /// The article has no section of the name asked for.
    SectionNotFound,
    /// The encyclopedia client failed; the field is its own message.
    FetchFailed(String),
    /// The encyclopedia client failed while a link was made; the field is its own message.
    LinkFailed(String),
}

/// What a `QueryError` stands for, with plain texts in place of strings.
pub enum Failure {
    TooManyArguments,
    TooFewArguments,
    UnknownFlag,
    SectionNotFound,
    FetchFailed(Seq<char>),
    LinkFailed(Seq<char>),
}

impl View for QueryError {
    type V = Failure;

    open spec fn view(&self) -> Failure {
        match self {
            QueryError::TooManyArguments => Failure::TooManyArguments,
            QueryError::TooFewArguments => Failure::TooFewArguments,
            QueryError::UnknownFlag => Failure::UnknownFlag,
            QueryError::SectionNotFound => Failure::SectionNotFound,
            QueryError::FetchFailed(m) => Failure::FetchFailed(m@),
            QueryError::LinkFailed(m) => Failure::LinkFailed(m@),
        }
    }
}

/// The line shown to the user for a failure.
pub open spec fn message_of(failure: Failure) -> Seq<char> {
    match failure {
        Failure::TooManyArguments => "Error: too many arguments provided"@,
        Failure::TooFewArguments => "Error: too few arguments"@,
        Failure::UnknownFlag => "Unknown flag provided"@,
        Failure::SectionNotFound => "Error: No section with that name was found"@,
        Failure::FetchFailed(m) => "Error: Wikipedia failed to fetch data: "@ + m,
        Failure::LinkFailed(m) => {
            "Failed to retrieve link: Error: Wikipedia failed to fetch data: "@ + m
        },
    }
}

impl QueryError {
    /// The line shown to the user for this error.
    pub fn message(&self) -> (text: String)
        ensures
            text@ == message_of(self@),
    {
        match self {
            QueryError::TooManyArguments => String::from_str("Error: too many arguments provided"),
            QueryError::TooFewArguments => String::from_str("Error: too few arguments"),
            QueryError::UnknownFlag => String::from_str("Unknown flag provided"),
            QueryError::SectionNotFound => String::from_str(
                "Error: No section with that name was found",
            ),
            QueryError::FetchFailed(m) => {
                let mut text = String::from_str("Error: Wikipedia failed to fetch data: ");
                text.append(m.as_str());
                text
            },
            QueryError::LinkFailed(m) => {
                let mut text = String::from_str(
                    "Failed to retrieve link: Error: Wikipedia failed to fetch data: ",
                );
                text.append(m.as_str());
                text
            },
        }
    }
}

} // verus!
