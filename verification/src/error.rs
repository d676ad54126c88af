//! What can stop a flow, and the message that the user is shown for it.

use vstd::prelude::*;

verus! {

/// The broad classes of failure.
#[derive(Debug, Clone, Copy, PartialEq, Eq, Structural)]
pub enum ErrorKind {
    /// A required argument is missing, or the key argument has no accepted shape.
    Usage,
    /// A bare key was given without a server.
    Resolution,
    /// The exchange with the server failed.
    Transport,
    /// A local file could not be read or written.
    LocalIo,
    /// The server's answer to a create request holds no key.
    Decode,
}

/// A failure of the get flow or of the post flow.
#[derive(Debug, Clone, Copy, PartialEq, Eq, Structural)]
pub enum FlowError {
    /// `get` was called without a key.
    MissingKey,
    /// `post` was called without an input path.
    MissingInput,
    /// The key argument is empty or holds white space.
    MalformedKey,
    /// The key argument is a bare key and no server follows it.
    MissingServer,
    /// The fetch request failed.
    FetchFailed,
    /// The create request failed.
    CreateFailed,
    /// The input file could not be read.
    ReadFailed,
    /// The output file could not be created or written.
    WriteFailed,
    /// The answer to the create request could not be decoded.
    DecodeFailed,
}

impl FlowError {
    /// The class that a failure belongs to.
    pub open spec fn kind_spec(self) -> ErrorKind {
        match self {
            FlowError::MissingKey => ErrorKind::Usage,
            FlowError::MissingInput => ErrorKind::Usage,
            FlowError::MalformedKey => ErrorKind::Usage,
            FlowError::MissingServer => ErrorKind::Resolution,
            FlowError::FetchFailed => ErrorKind::Transport,
            FlowError::CreateFailed => ErrorKind::Transport,
            FlowError::ReadFailed => ErrorKind::LocalIo,
            FlowError::WriteFailed => ErrorKind::LocalIo,
            FlowError::DecodeFailed => ErrorKind::Decode,
        }
    }

    /// The message shown for a failure.
    pub open spec fn message_spec(self) -> Seq<char> {
        match self {
            FlowError::MissingKey => "Expected at least 1 argument. (key)"@,
            FlowError::MissingInput => "Expected at least 1 argument. (input)"@,
            FlowError::MalformedKey => "Expected a key or a document URL."@,
            FlowError::MissingServer => "Expected `server` argument."@,
            FlowError::FetchFailed => "Couldn't get document."@,
            FlowError::CreateFailed => "Couldn't post document."@,
            FlowError::ReadFailed => "Couldn't read file."@,
            FlowError::WriteFailed => "Couldn't create file."@,
            FlowError::DecodeFailed => "Couldn't read the server's answer."@,
        }
    }

    /// The class that this failure belongs to.
    pub fn kind(&self) -> (r: ErrorKind)
        ensures
            r == self.kind_spec(),
    {
        match self {
            FlowError::MissingKey => ErrorKind::Usage,
            FlowError::MissingInput => ErrorKind::Usage,
            FlowError::MalformedKey => ErrorKind::Usage,
            FlowError::MissingServer => ErrorKind::Resolution,
            FlowError::FetchFailed => ErrorKind::Transport,
            FlowError::CreateFailed => ErrorKind::Transport,
            FlowError::ReadFailed => ErrorKind::LocalIo,
            FlowError::WriteFailed => ErrorKind::LocalIo,
            FlowError::DecodeFailed => ErrorKind::Decode,
        }
    }

    /// The message to show the user for this failure.
    pub fn message(&self) -> (r: String)
        ensures
            r@ == self.message_spec(),
    {
        let text: &str = match self {
            FlowError::MissingKey => "Expected at least 1 argument. (key)",
            FlowError::MissingInput => "Expected at least 1 argument. (input)",
            FlowError::MalformedKey => "Expected a key or a document URL.",
            FlowError::MissingServer => "Expected `server` argument.",
            FlowError::FetchFailed => "Couldn't get document.",
            FlowError::CreateFailed => "Couldn't post document.",
            FlowError::ReadFailed => "Couldn't read file.",
            FlowError::WriteFailed => "Couldn't create file.",
            FlowError::DecodeFailed => "Couldn't read the server's answer.",
        };
        text.to_owned()
    }
}

} // verus!
