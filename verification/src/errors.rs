//! Validation errors for incoming queries and identifiers.

use vstd::prelude::*;
use vstd::string::StrSliceExecFns;
use vstd::string::StringExecFns;

verus! {

/// Longest query text accepted, in characters.
pub const MAX_QUERY_LENGTH: usize = 2000;

/// Why a query text was rejected.
#[derive(Debug)]
pub enum QueryError {
    /// The query was empty.
    Empty,
    /// The query was longer than the allowed maximum.
    TooLong { max: usize, got: usize },
    /// The query held characters the system refuses.
    InvalidCharacters,
}

/// Accepts a query iff it is non-empty and at most `MAX_QUERY_LENGTH`
/// characters long.
pub fn validate_query(query: &str) -> (r: Result<(), QueryError>)
    ensures
        query@.len() == 0 ==> r == Result::<(), QueryError>::Err(QueryError::Empty),
        query@.len() > MAX_QUERY_LENGTH ==> r == Result::<(), QueryError>::Err(
            QueryError::TooLong { max: MAX_QUERY_LENGTH, got: query@.len() as usize },
        ),
        0 < query@.len() <= MAX_QUERY_LENGTH ==> r is Ok,
{
    let len = query.unicode_len();
    if len == 0 {
        return Err(QueryError::Empty);
    }
    if len > MAX_QUERY_LENGTH {
        return Err(QueryError::TooLong { max: MAX_QUERY_LENGTH, got: len });
    }
    Ok(())
}

/// The human-readable message of a query error.
pub open spec fn query_error_message_spec(e: &QueryError) -> Seq<char> {
    match e {
        QueryError::Empty => "query cannot be empty"@,
        QueryError::TooLong { max, got } => "query exceeds maximum length of "@
            + crate::strutil::decimal_digits(*max as nat) + " characters (got "@
            + crate::strutil::decimal_digits(*got as nat) + ")"@,
        QueryError::InvalidCharacters => "query contains invalid characters"@,
    }
}

impl QueryError {
    /// Renders the error for humans.
    pub fn message(&self) -> (r: String)
        ensures
            r@ == query_error_message_spec(self),
    {
        match self {
            QueryError::Empty => "query cannot be empty".to_owned(),
            QueryError::TooLong { max, got } => {
                let mut s = "query exceeds maximum length of ".to_owned();
                s.append(crate::strutil::usize_to_string(*max).as_str());
                s.append(" characters (got ");
                s.append(crate::strutil::usize_to_string(*got).as_str());
                s.append(")");
                s
            },
            QueryError::InvalidCharacters => "query contains invalid characters".to_owned(),
        }
    }
}

/// Why an identifier string failed to parse.
#[derive(Debug)]
pub enum IdParseError {
    /// The identifier did not start with the expected prefix.
    InvalidPrefix { expected: String, got: String },
    /// The identifier had the wrong length.
    InvalidLength { expected: usize, got: usize },
}

/// The human-readable message of an identifier parse error.
pub open spec fn id_parse_error_message_spec(e: &IdParseError) -> Seq<char> {
    match e {
        IdParseError::InvalidPrefix { expected, got } => "invalid ID prefix: expected '"@
            + expected@ + "', got '"@ + got@ + "'"@,
        IdParseError::InvalidLength { expected, got } => "invalid ID length: expected "@
            + crate::strutil::decimal_digits(*expected as nat) + ", got "@
            + crate::strutil::decimal_digits(*got as nat),
    }
}

impl IdParseError {
    /// Renders the error for humans.
    pub fn message(&self) -> (r: String)
        ensures
            r@ == id_parse_error_message_spec(self),
    {
        match self {
            IdParseError::InvalidPrefix { expected, got } => {
                let mut s = "invalid ID prefix: expected '".to_owned();
                s.append(expected.as_str());
                s.append("', got '");
                s.append(got.as_str());
                s.append("'");
                s
            },
            IdParseError::InvalidLength { expected, got } => {
                let mut s = "invalid ID length: expected ".to_owned();
                s.append(crate::strutil::usize_to_string(*expected).as_str());
                s.append(", got ");
                s.append(crate::strutil::usize_to_string(*got).as_str());
                s
            },
        }
    }
}

/// A validation failure for any incoming value.
#[derive(Debug)]
pub enum ValidationError {
    /// The query text was rejected.
    Query(QueryError),
    /// An identifier failed to parse.
    Id(IdParseError),
    /// A URL was rejected.
    InvalidUrl(String),
    /// A required field was missing.
    MissingField(String),
}

} // verus!
