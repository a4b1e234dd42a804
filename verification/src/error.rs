//! What an operation can report instead of success.

use crate::paths::{quoted, quoted_spec};
use vstd::prelude::*;

verus! {

/// Why a move, a copy or an archive run ended without finishing the batch.
#[derive(Debug, Clone, Copy, PartialEq, Eq, Structural)]
pub enum TransferFailure {
    SourceNotFound,
    DestinationMissing,
    PermissionDenied,
    NameCollision,
    Aborted,
}

impl TransferFailure {
    /// The failure in words.
    pub open spec fn reason_spec(self) -> Seq<char> {
        match self {
            TransferFailure::SourceNotFound => "source not found"@,
            TransferFailure::DestinationMissing => "destination missing"@,
            TransferFailure::PermissionDenied => "permission denied"@,
            TransferFailure::NameCollision => "name collision"@,
            TransferFailure::Aborted => "aborted"@,
        }
    }

    /// The failure in words.
    pub fn reason(self) -> (r: &'static str)
        ensures
            r@ == self.reason_spec(),
    {
        match self {
            TransferFailure::SourceNotFound => "source not found",
            TransferFailure::DestinationMissing => "destination missing",
            TransferFailure::PermissionDenied => "permission denied",
            TransferFailure::NameCollision => "name collision",
            TransferFailure::Aborted => "aborted",
        }
    }
}

/// What the disk answered when an entry could not be transferred.
#[derive(Debug, Clone, Copy, PartialEq, Eq, Structural)]
pub enum IoKind {
    NotFound,
    PermissionDenied,
    AlreadyExists,
    Interrupted,
    Other,
}

/// The errors of the library.
#[derive(Debug, Clone)]
pub enum ParaError {
    /// The stored root is not the directory the caller stands in, and the
    /// caller did not force a new one.
    ConfigMismatch { configured: String, current: String },
    /// The disk refused to create something at `path`; `cause` is what the
    /// caller learned of the reason.
    Io { path: String, cause: String },
    /// The category directory at `path` does not exist yet.
    NotInitialized { path: String },
    /// A batch transfer stopped early.
    Transfer(TransferFailure),
}

impl ParaError {
    /// The error is `NotInitialized` for `path`.
    pub open spec fn is_not_initialized(&self, path: Seq<char>) -> bool {
        self matches ParaError::NotInitialized { path: p } && p@ == path
    }

    /// The error is `Io` at `path` with `cause`.
    pub open spec fn is_io(&self, path: Seq<char>, cause: Seq<char>) -> bool {
        self matches ParaError::Io { path: p, cause: c } && p@ == path && c@ == cause
    }

    /// The error is `ConfigMismatch` between the two directories.
    pub open spec fn is_config_mismatch(&self, configured: Seq<char>, current: Seq<char>) -> bool {
        self matches ParaError::ConfigMismatch { configured: a, current: b } && a@ == configured
            && b@ == current
    }

    /// The message of the error, with each path quoted. A missing category
    /// directory comes with the hint to run `init`, a mismatch of the roots
    /// with the hint to force.
    pub open spec fn message_spec(&self) -> Seq<char> {
        match self {
            ParaError::ConfigMismatch { configured, current } => "Existing config directory "@
                + quoted_spec(configured@) + " does not match current directory "@ + quoted_spec(
                current@,
            )
                + ". Use `--force` to set this directory as the config directory and create new PARA folders."@,
            ParaError::Io { path, cause } => "I/O error at "@ + quoted_spec(path@) + ": "@
                + cause@,
            ParaError::NotInitialized { path } => "Path "@ + quoted_spec(path@)
                + " does not exist. Try running `para init` first to create the PARA folders."@,
            ParaError::Transfer(failure) => "Transfer failed: "@ + failure.reason_spec(),
        }
    }

    /// The message of the error.
    pub fn message(&self) -> (r: String)
        ensures
            r@ == self.message_spec(),
    {
        match self {
            ParaError::ConfigMismatch { configured, current } => {
                let mut out = String::from_str("Existing config directory ");
                out.append(quoted(configured.as_str()).as_str());
                out.append(" does not match current directory ");
                out.append(quoted(current.as_str()).as_str());
                out.append(
                    ". Use `--force` to set this directory as the config directory and create new PARA folders.",
                );
                out
            },
            ParaError::Io { path, cause } => {
                let mut out = String::from_str("I/O error at ");
                out.append(quoted(path.as_str()).as_str());
                out.append(": ");
                out.append(cause.as_str());
                out
            },
            ParaError::NotInitialized { path } => {
                let mut out = String::from_str("Path ");
                out.append(quoted(path.as_str()).as_str());
                out.append(
                    " does not exist. Try running `para init` first to create the PARA folders.",
                );
                out
            },
            ParaError::Transfer(failure) => {
                let mut out = String::from_str("Transfer failed: ");
                out.append(failure.reason());
                out
            },
        }
    }

    /// The error of a transfer that the disk refused with `kind`. Something
    /// not found is the source where that is missing, else the destination.
    /// What the taxonomy of transfers has no name for stays an `Io` error at
    /// `path` with its `cause`.
    pub fn from_transfer(kind: IoKind, source_exists: bool, path: String, cause: String) -> (r:
        ParaError)
        ensures
            match kind {
                IoKind::NotFound => r == ParaError::Transfer(
                    if source_exists {
                        TransferFailure::DestinationMissing
                    } else {
                        TransferFailure::SourceNotFound
                    },
                ),
                IoKind::PermissionDenied => r == ParaError::Transfer(
                    TransferFailure::PermissionDenied,
                ),
                IoKind::AlreadyExists => r == ParaError::Transfer(TransferFailure::NameCollision),
                IoKind::Interrupted => r == ParaError::Transfer(TransferFailure::Aborted),
                IoKind::Other => r == (ParaError::Io { path, cause }),
            },
    {
        match kind {
            IoKind::NotFound => ParaError::Transfer(
                if source_exists {
                    TransferFailure::DestinationMissing
                } else {
                    TransferFailure::SourceNotFound
                },
            ),
            IoKind::PermissionDenied => ParaError::Transfer(TransferFailure::PermissionDenied),
            IoKind::AlreadyExists => ParaError::Transfer(TransferFailure::NameCollision),
            IoKind::Interrupted => ParaError::Transfer(TransferFailure::Aborted),
            IoKind::Other => ParaError::Io { path, cause },
        }
    }
}

} // verus!
