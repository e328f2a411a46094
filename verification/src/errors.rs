//! The error taxonomy of the session layer.

use vstd::prelude::*;
use vstd::string::StringExecFns;

verus! {

/// Everything that can go wrong while loading a session or dispatching a
/// call. A session-scoped error never affects other sessions.
#[derive(Debug, PartialEq, Eq)]
pub enum Error {
    /// The module bytes were malformed or failed validation.
    CompileError(String),
    /// Import/export linkage failed while building an instance.
    InstantiationError(String),
    /// The engine configuration named an unknown or unsupported option.
    InvalidConfig(String),
    /// No session is registered under the given id.
    UnknownSession,
    /// A session is already registered under the given id.
    AlreadyExists,
    /// The named export is absent from the session's signature cache.
    ExportNotFound,
    /// The argument list is shorter or longer than the declared parameters.
    ArgumentCountMismatch,
    /// A reply carried fewer or more values than the import declared.
    ArityMismatch,
    /// A value's type disagrees with the declared type in its slot.
    TypeMismatch,
    /// A non-scalar value type reached the type translator.
    UnsupportedValueType,
    /// The reply channel's counterpart has been torn down.
    ChannelDisconnected,
    /// A second call reached an import id whose previous call is still
    /// waiting for its reply.
    DuplicateImportCall,
    /// No reply channel exists for the given import id.
    NoSuchImport,
    /// Sending on the reply channel failed.
    SendFailed,
    /// WebAssembly execution itself failed (for example, it trapped).
    Trap(String),
}

impl Clone for Error {
    fn clone(&self) -> (r: Self)
        ensures
            r == *self,
    {
        match self {
            Error::CompileError(m) => Error::CompileError(m.clone()),
            Error::InstantiationError(m) => Error::InstantiationError(m.clone()),
            Error::InvalidConfig(m) => Error::InvalidConfig(m.clone()),
            Error::UnknownSession => Error::UnknownSession,
            Error::AlreadyExists => Error::AlreadyExists,
            Error::ExportNotFound => Error::ExportNotFound,
            Error::ArgumentCountMismatch => Error::ArgumentCountMismatch,
            Error::ArityMismatch => Error::ArityMismatch,
            Error::TypeMismatch => Error::TypeMismatch,
            Error::UnsupportedValueType => Error::UnsupportedValueType,
            Error::ChannelDisconnected => Error::ChannelDisconnected,
            Error::DuplicateImportCall => Error::DuplicateImportCall,
            Error::NoSuchImport => Error::NoSuchImport,
            Error::SendFailed => Error::SendFailed,
            Error::Trap(m) => Error::Trap(m.clone()),
        }
    }
}

impl Error {
    /// A human-readable description, for delivery to the external actor.
    pub fn message(&self) -> String {
        match self {
            Error::CompileError(m) => String::from_str("compile error: ").concat(m.as_str()),
            Error::InstantiationError(m) => {
                String::from_str("instantiation error: ").concat(m.as_str())
            },
            Error::InvalidConfig(m) => String::from_str("invalid config: ").concat(m.as_str()),
            Error::UnknownSession => String::from_str("unknown session"),
            Error::AlreadyExists => String::from_str("session id already in use"),
            Error::ExportNotFound => String::from_str("export not found"),
            Error::ArgumentCountMismatch => String::from_str("argument count mismatch"),
            Error::ArityMismatch => String::from_str("reply arity mismatch"),
            Error::TypeMismatch => String::from_str("value type mismatch"),
            Error::UnsupportedValueType => String::from_str("unsupported value type"),
            Error::ChannelDisconnected => String::from_str("reply channel disconnected"),
            Error::DuplicateImportCall => {
                String::from_str("a call to this import is already outstanding")
            },
            Error::NoSuchImport => String::from_str("no such import id"),
            Error::SendFailed => String::from_str("failed to send on the reply channel"),
            Error::Trap(m) => String::from_str("call failed: ").concat(m.as_str()),
        }
    }
}

} // verus!
