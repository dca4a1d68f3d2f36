//! The failures that the mapping layer reports.

use vstd::prelude::*;
use vstd::string::*;

verus! {

/// A failure of the mapping layer.
#[derive(Debug, PartialEq, Eq)]
pub enum Error {
    /// The engine failed on a statement; holds the engine's message.
    Database(String),
    /// An entity could not be converted to or from a property dictionary;
    /// holds the name of the property at fault.
    Serialization(String),
    /// No node has the given primary key.
    NodeNotFound(String),
    /// A value of an unsupported kind was used as a property; holds the
    /// property's name.
    InvalidPropertyType(String),
    /// Metadata is malformed; holds the reason.
    Schema(String),
    /// A statement is malformed; holds the reason.
    Query(String),
}

/// What a failure holds.
pub enum ErrorView {
    Database(Seq<char>),
    Serialization(Seq<char>),
    NodeNotFound(Seq<char>),
    InvalidPropertyType(Seq<char>),
    Schema(Seq<char>),
    Query(Seq<char>),
}

impl View for Error {
    type V = ErrorView;

    open spec fn view(&self) -> ErrorView {
        match self {
            Error::Database(m) => ErrorView::Database(m@),
            Error::Serialization(m) => ErrorView::Serialization(m@),
            Error::NodeNotFound(m) => ErrorView::NodeNotFound(m@),
            Error::InvalidPropertyType(m) => ErrorView::InvalidPropertyType(m@),
            Error::Schema(m) => ErrorView::Schema(m@),
            Error::Query(m) => ErrorView::Query(m@),
        }
    }
}

/// The message that describes a failure.
pub open spec fn message_of(error: ErrorView) -> Seq<char> {
    match error {
        ErrorView::Database(m) => "Database error: "@ + m,
        ErrorView::Serialization(m) => "Serialization error: "@ + m,
        ErrorView::NodeNotFound(m) => "Node not found with id: "@ + m,
        ErrorView::InvalidPropertyType(m) => "Invalid property type: "@ + m,
        ErrorView::Schema(m) => "Schema error: "@ + m,
        ErrorView::Query(m) => "Query error: "@ + m,
    }
}

impl Error {
    /// The message that describes this failure.
    pub fn to_string(&self) -> (message: String)
        ensures
            message@ == message_of(self@),
    {
        match self {
            Error::Database(m) => String::from_str("Database error: ").concat(m.as_str()),
            Error::Serialization(m) => String::from_str("Serialization error: ").concat(
                m.as_str(),
            ),
            Error::NodeNotFound(m) => String::from_str("Node not found with id: ").concat(
                m.as_str(),
            ),
            Error::InvalidPropertyType(m) => String::from_str("Invalid property type: ").concat(
                m.as_str(),
            ),
            Error::Schema(m) => String::from_str("Schema error: ").concat(m.as_str()),
            Error::Query(m) => String::from_str("Query error: ").concat(m.as_str()),
        }
    }
}

} // verus!
