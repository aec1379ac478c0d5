//! The error taxonomy of the transport.

use vstd::prelude::*;

verus! {

/// What went wrong, by the operation that failed.
#[derive(Debug, Clone, Copy, PartialEq, Eq, Structural, Hash)]
pub enum ErrorKind {
    /// No listener could be acquired, or a server was started without one.
    BindFailed,
    /// An address resolved to nothing.
    ResolveFailed,
    /// A client could not establish its connection.
    ConnectFailed,
    /// One read on a connection failed.
    ReadFailed,
    /// One write on a connection failed.
    WriteFailed,
    /// A channel was used after its other side had gone.
    ChannelClosed,
}

/// An error of the transport: its kind and the detail that the failing call
/// gave, if any.
#[derive(Debug, Clone, PartialEq, Eq)]
pub struct NetworkError {
    pub kind: ErrorKind,
    pub detail: String,
}

impl View for NetworkError {
    type V = (ErrorKind, Seq<char>);

    open spec fn view(&self) -> (ErrorKind, Seq<char>) {
        (self.kind, self.detail@)
    }
}

impl ErrorKind {
    /// Whether an error of this kind ends the operation or task that met it.
    /// Only a failed write is survived: the send loop reports it and goes on.
    pub open spec fn is_fatal(self) -> bool {
        self != ErrorKind::WriteFailed
    }

    /// Executable form of [`ErrorKind::is_fatal`].
    pub fn fatal(&self) -> (fatal: bool)
        ensures
            fatal == self.is_fatal(),
    {
        match self {
            ErrorKind::WriteFailed => false,
            _ => true,
        }
    }
}

impl NetworkError {
    /// An error of the given kind with the given detail.
    pub fn new(kind: ErrorKind, detail: String) -> (err: NetworkError)
        ensures
            err@ == (kind, detail@),
    {
        NetworkError { kind, detail }
    }

    /// The error of a channel whose other side has gone. It carries no
    /// detail.
    pub fn channel_closed() -> (err: NetworkError)
        ensures
            err@ == (ErrorKind::ChannelClosed, Seq::<char>::empty()),
    {
        NetworkError { kind: ErrorKind::ChannelClosed, detail: String::new() }
    }

    /// The kind of the error.
    pub fn kind(&self) -> (kind: ErrorKind)
        ensures
            kind == self@.0,
    {
        self.kind
    }
}

} // verus!
