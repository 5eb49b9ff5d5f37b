//! The errors that reading a problem file can end in.

use vstd::prelude::*;
use vstd::std_specs::convert::FromSpecImpl;
use vstd::string::*;
use crate::text::{has_prefix, string_of};

verus! {

/// `std::io::Error`, the error of an input source. It is carried through as
/// it comes: nothing is claimed of what it holds.
#[verifier::external_type_specification]
#[verifier::external_body]
pub struct ExIoError(std::io::Error);

/// An error met while reading a problem file.
#[derive(Debug)]
pub enum ParseTspError {
    /// An error of the input source.
    IoError(std::io::Error),
    /// A required entry is missing; holds its keyword.
    MissingEntry(String),
    /// A line is not recognised or is malformed; holds the line or its keyword.
    InvalidEntry(String),
    /// An entry holds a value that its keyword does not know.
    InvalidInput { key: String, val: String },
    /// A token is no number of the kind asked for; holds the token.
    InvalidNumber(String),
    /// Anything else.
    Other(&'static str),
}

/// What a [`ParseTspError`] says, as plain values.
pub enum Failure {
    Io,
    MissingEntry(Seq<char>),
    InvalidEntry(Seq<char>),
    InvalidInput { key: Seq<char>, val: Seq<char> },
    InvalidNumber(Seq<char>),
    Other(Seq<char>),
}

impl View for ParseTspError {
    type V = Failure;

    open spec fn view(&self) -> Failure {
        match self {
            ParseTspError::IoError(_) => Failure::Io,
            ParseTspError::MissingEntry(k) => Failure::MissingEntry(k@),
            ParseTspError::InvalidEntry(l) => Failure::InvalidEntry(l@),
            ParseTspError::InvalidInput { key, val } => Failure::InvalidInput {
                key: key@,
                val: val@,
            },
            ParseTspError::InvalidNumber(t) => Failure::InvalidNumber(t@),
            ParseTspError::Other(m) => Failure::Other(m@),
        }
    }
}

impl Failure {
    /// The text of the failure once `detail` stands for what the input source said.
    pub open spec fn message(self, detail: Seq<char>) -> Seq<char> {
        match self {
            Failure::Io => "IO error: "@ + detail,
            Failure::MissingEntry(k) => "Missing entry: "@ + k,
            Failure::InvalidEntry(l) => "Invalid entry: "@ + l,
            Failure::InvalidInput { key, val } => "Invalid input "@ + key + " : "@ + val,
            Failure::InvalidNumber(t) => "Invalid number: "@ + t,
            Failure::Other(m) => "Invalid entry: "@ + m,
        }
    }
}

impl From<std::io::Error> for ParseTspError {
    fn from(e: std::io::Error) -> (r: ParseTspError) {
        ParseTspError::IoError(e)
    }
}

impl FromSpecImpl<std::io::Error> for ParseTspError {
    open spec fn obeys_from_spec() -> bool {
        true
    }

    open spec fn from_spec(e: std::io::Error) -> ParseTspError {
        ParseTspError::IoError(e)
    }
}

/// The text of an error of the input source, through its `Display`; nothing
/// is claimed of what it holds.
#[verifier::external_body]
fn io_text(e: &std::io::Error) -> (r: String) {
    e.to_string()
}

impl ParseTspError {
    /// A missing entry with keyword `key`.
    pub fn missing(key: &str) -> (e: ParseTspError)
        ensures
            e@ == Failure::MissingEntry(key@),
    {
        ParseTspError::MissingEntry(String::from_str(key))
    }

    /// An invalid entry with keyword `key`.
    pub fn invalid(key: &str) -> (e: ParseTspError)
        ensures
            e@ == Failure::InvalidEntry(key@),
    {
        ParseTspError::InvalidEntry(String::from_str(key))
    }

    /// An invalid entry that holds the line `line`.
    pub fn invalid_line(line: &[char]) -> (e: ParseTspError)
        ensures
            e@ == Failure::InvalidEntry(line@),
    {
        ParseTspError::InvalidEntry(string_of(line))
    }

    /// An invalid value `val` under the keyword `key`.
    pub fn invalid_input(key: &str, val: &[char]) -> (e: ParseTspError)
        ensures
            e@ == (Failure::InvalidInput { key: key@, val: val@ }),
    {
        ParseTspError::InvalidInput { key: String::from_str(key), val: string_of(val) }
    }

    /// A token that is no number.
    pub fn invalid_number(token: &[char]) -> (e: ParseTspError)
        ensures
            e@ == Failure::InvalidNumber(token@),
    {
        ParseTspError::InvalidNumber(string_of(token))
    }

    /// The error as a line of text.
    pub fn message(&self) -> (r: String)
        ensures
            self@ is Io ==> has_prefix(r@, "IO error: "@),
            !(self@ is Io) ==> r@ == self@.message(Seq::empty()),
    {
        match self {
            ParseTspError::IoError(e) => {
                let d = io_text(e);
                let r = String::from_str("IO error: ").concat(d.as_str());
                assert(r@.subrange(0, "IO error: "@.len() as int) =~= "IO error: "@);
                r
            },
            ParseTspError::MissingEntry(k) => String::from_str("Missing entry: ").concat(
                k.as_str(),
            ),
            ParseTspError::InvalidEntry(l) => String::from_str("Invalid entry: ").concat(
                l.as_str(),
            ),
            ParseTspError::InvalidInput { key, val } => String::from_str("Invalid input ").concat(
                key.as_str(),
            ).concat(" : ").concat(val.as_str()),
            ParseTspError::InvalidNumber(t) => String::from_str("Invalid number: ").concat(
                t.as_str(),
            ),
            ParseTspError::Other(m) => String::from_str("Invalid entry: ").concat(m),
        }
    }
}

} // verus!
