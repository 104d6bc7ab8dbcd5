//! Error taxonomy of the preimage oracle subsystem: kernel-level conditions,
//! channel transport failures, protocol-contract violations, and hint parse
//! errors.

use vstd::prelude::*;

verus! {

/// An error surfaced by the kernel interface for a single syscall.
#[derive(Clone, Copy, Debug, PartialEq, Eq, Structural)]
pub enum KernelError {
    /// No data or space yet; the caller may retry the same call.
    WouldBlock,
    /// A fatal I/O failure, carrying the raw kernel error code.
    Io(u64),
}

/// A fatal error of the channel layer. There is no recovery path: continuing
/// would execute on corrupted protocol state.
#[derive(Clone, Copy, Debug, PartialEq, Eq, Structural)]
pub enum ChannelError {
    /// The host closed the pipe: a zero-byte read with bytes still owed.
    Closed,
    /// The kernel reported a fatal I/O failure with this code.
    Kernel(u64),
}

/// A failure of one stage of a preimage transaction.
#[derive(Clone, Copy, Debug, PartialEq, Eq, Structural)]
pub enum PreimageOracleError {
    /// Writing the framed hint on the hint channel failed.
    HintWrite(ChannelError),
    /// Writing the 33-byte preimage request failed.
    Request(ChannelError),
    /// Reading the response frame failed.
    Response(ChannelError),
    /// The host declared a response length that differs from the exact
    /// length the caller required.
    LengthMismatch { expected: usize, declared: u64 },
    /// The host declared a response length this machine cannot address.
    OversizedResponse(u64),
}

/// The error returned by the preimage retrieval operations.
#[derive(Clone, Copy, Debug, PartialEq, Eq, Structural)]
pub enum OracleProviderError {
    /// A preimage transaction failed at the named stage.
    Preimage(PreimageOracleError),
}

/// A malformed hint string: wrong token count, unknown tag, or bad hex.
/// Always caused by a local encoding bug, never by the host.
#[derive(Clone, Debug, PartialEq, Eq)]
pub struct HintParsingError(pub String);

} // verus!
