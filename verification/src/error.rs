//! The library's error taxonomy: configuration errors are fatal before any
//! network activity; network, API and I/O errors are recoverable per unit
//! during a batch download and fatal elsewhere.

use vstd::prelude::*;

verus! {

/// An error of the client: a transport failure, a local I/O failure, a parse
/// failure, a rejected configuration, or a non-success API response.
#[derive(Debug)]
pub enum Error {
    Network(String),
    Io(String),
    Parse(String),
    Config(String),
    Api(String),
}

impl Error {
    /// The human-readable rendering of the error: a category prefix and the
    /// carried message.
    pub open spec fn spec_message(&self) -> Seq<char> {
        match self {
            Error::Network(m) => "Network error: "@ + m@,
            Error::Io(m) => "IO error: "@ + m@,
            Error::Parse(m) => "Parse error: "@ + m@,
            Error::Config(m) => "Configuration error: "@ + m@,
            Error::Api(m) => "API error: "@ + m@,
        }
    }

    /// Renders the error for the operator.
    pub fn message(&self) -> (r: String)
        ensures
            r@ == self.spec_message(),
    {
        match self {
            Error::Network(m) => {
                let mut s = "Network error: ".to_owned();
                s.append(m.as_str());
                s
            },
            Error::Io(m) => {
                let mut s = "IO error: ".to_owned();
                s.append(m.as_str());
                s
            },
            Error::Parse(m) => {
                let mut s = "Parse error: ".to_owned();
                s.append(m.as_str());
                s
            },
            Error::Config(m) => {
                let mut s = "Configuration error: ".to_owned();
                s.append(m.as_str());
                s
            },
            Error::Api(m) => {
                let mut s = "API error: ".to_owned();
                s.append(m.as_str());
                s
            },
        }
    }
}

} // verus!
