use vstd::prelude::*;

verus! {

/// The failures a request can surface: a configuration error (malformed
/// endpoint or otherwise unusable inputs, a caller bug), a transport error
/// (network failure, possibly retryable), or a decode error (the response
/// body does not parse into the expected shape).
#[derive(Debug)]
pub enum VolceError {
    Configuration(String),
    Transport(String),
    Decode(String),
}

impl VolceError {
    /// A readable description of the failure, with its kind spelled out.
    pub fn message(&self) -> (r: String)
        ensures
            r@ == self.spec_message(),
    {
        match self {
            VolceError::Configuration(m) => {
                let mut s = String::from_str("configuration error: ");
                s.append(m.as_str());
                s
            },
            VolceError::Transport(m) => {
                let mut s = String::from_str("transport error: ");
                s.append(m.as_str());
                s
            },
            VolceError::Decode(m) => {
                let mut s = String::from_str("decode error: ");
                s.append(m.as_str());
                s
            },
        }
    }

    pub open spec fn spec_message(&self) -> Seq<char> {
        match self {
            VolceError::Configuration(m) => "configuration error: "@ + m@,
            VolceError::Transport(m) => "transport error: "@ + m@,
            VolceError::Decode(m) => "decode error: "@ + m@,
        }
    }
}

} // verus!
