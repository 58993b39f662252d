use vstd::prelude::*;

verus! {

/// Classifies every failure the resolver bridge can report.
#[derive(Debug, PartialEq, Eq, Copy, Clone, Structural)]
pub enum ErrorKind {
    /// The resolver layer (or the loader in front of it) reported failure,
    /// or a lookup genuinely found nothing.
    Failed,
    /// Caller-supplied data cannot be represented in the native form.
    InvalidData,
}

/// A failure, carrying its classification and a human-readable message.
#[derive(Debug)]
pub struct Error {
    kind: ErrorKind,
    message: String,
}

impl Error {
    /// The classification of this error.
    pub closed spec fn spec_kind(&self) -> ErrorKind {
        self.kind
    }

    /// The message text of this error.
    pub closed spec fn spec_message(&self) -> Seq<char> {
        self.message@
    }

    /// An error for caller-supplied data the native form cannot represent.
    pub fn invalid_data(msg: &str) -> (r: Self)
        ensures
            r.spec_kind() == ErrorKind::InvalidData,
            r.spec_message() == msg@,
    {
        Self { kind: ErrorKind::InvalidData, message: msg.to_owned() }
    }

    /// An error reported by the resolver layer or the loader in front of it.
    pub fn failed(msg: &str) -> (r: Self)
        ensures
            r.spec_kind() == ErrorKind::Failed,
            r.spec_message() == msg@,
    {
        Self { kind: ErrorKind::Failed, message: msg.to_owned() }
    }

    /// Which of the two failure classes this error belongs to.
    pub fn kind(&self) -> (k: ErrorKind)
        ensures
            k == self.spec_kind(),
    {
        self.kind
    }

    /// The human-readable message carried by this error.
    pub fn message(&self) -> (m: &str)
        ensures
            m@ == self.spec_message(),
    {
        self.message.as_str()
    }
}

} // verus!
