use vstd::prelude::*;
use vstd::string::StringExecFns;

verus! {

/// Possible errors while encoding commands or transmitting pulses.
#[derive(Debug)]
pub enum Error {
    /// An input/output failure reported by the transmission device.
    Io(String),
    /// A protocol-level failure while encoding a command.
    ProtocolError(String),
    /// A failure while sending an encoded pulse sequence.
    Transmitting(String),
}

impl Error {
    /// The rendered text of this error: a category prefix followed by the
    /// detail message.
    pub open spec fn spec_message(self) -> Seq<char> {
        match self {
            Error::Io(m) => "IO error: "@ + m@,
            Error::ProtocolError(m) => "Protocol error: "@ + m@,
            Error::Transmitting(m) => "Pulse sending error: "@ + m@,
        }
    }

    /// Renders the error as text, naming its category before the detail
    /// message.
    pub fn describe(&self) -> (r: String)
        ensures
            r@ == self.spec_message(),
    {
        match self {
            Error::Io(m) => String::from_str("IO error: ").concat(m.as_str()),
            Error::ProtocolError(m) => String::from_str("Protocol error: ").concat(m.as_str()),
            Error::Transmitting(m) => String::from_str("Pulse sending error: ").concat(m.as_str()),
        }
    }
}

} // verus!
