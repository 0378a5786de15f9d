//! The failures a command can end with, and the line printed for each.

use vstd::prelude::*;
use vstd::string::*;
use crate::text::{decimal, decimal_u16};

verus! {

/// Why a command failed.
///
/// The transport and file-system variants hold the text of the underlying
/// error, which is all that is ever read of it.
#[derive(Debug, PartialEq, Eq)]
pub enum Error {
    /// The HTTP exchange itself failed.
    Http(String),
    /// Reading or writing a local file failed.
    Io(String),
    /// A response body was not the expected XML document.
    Xml(String),
    /// The service answered with a status outside 200-299; the status and
    /// the body of the answer.
    Api(u16, String),
}

impl Error {
    /// The line printed on standard error for this failure.
    pub open spec fn spec_message(&self) -> Seq<char> {
        match self {
            Error::Http(m) => m@,
            Error::Io(m) => m@,
            Error::Xml(m) => "xml: "@ + m@,
            Error::Api(status, body) => decimal(*status as nat) + ": "@ + body@,
        }
    }

    /// The line printed on standard error for this failure: the underlying
    /// text for transport and file errors, `xml: <detail>` for a malformed
    /// document, and `<status>: <body>` for a refused request.
    pub fn message(&self) -> (m: String)
        ensures
            m@ == self.spec_message(),
    {
        match self {
            Error::Http(m) => m.clone(),
            Error::Io(m) => m.clone(),
            Error::Xml(m) => {
                let mut s = String::from_str("xml: ");
                s.append(m.as_str());
                s
            },
            Error::Api(status, body) => {
                let mut s = decimal_u16(*status);
                s.append(": ");
                s.append(body.as_str());
                s
            },
        }
    }
}

} // verus!
