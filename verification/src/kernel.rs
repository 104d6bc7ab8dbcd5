//! The minimal, architecture-portable kernel interface: fixed well-known file
//! descriptors and blocking read/write/exit primitives over them.
//!
//! The interface is a trait so that each target architecture (or a test
//! harness) can supply its own syscall trampoline; everything above this
//! boundary is architecture-agnostic. The trait models the operating
//! environment behind the descriptors as, per descriptor, a stream of bytes
//! still to be read (`incoming`) and the bytes written so far (`written`);
//! each syscall's contract says how one call moves that state.

use vstd::prelude::*;

use crate::errors::KernelError;

verus! {

/// Fixed, well-known descriptors for the protocol channels, established by the
/// hosting environment before the client starts. They are never opened,
/// closed, or discovered at runtime.
#[derive(Clone, Copy, Debug, PartialEq, Eq, Structural)]
pub enum FileDescriptor {
    /// Standard input.
    StdIn,
    /// Standard output.
    StdOut,
    /// Standard error.
    StdErr,
    /// Host side of the hint channel.
    HintRead,
    /// Client side of the hint channel.
    HintWrite,
    /// Client side of the preimage response channel.
    PreimageRead,
    /// Client side of the preimage request channel.
    PreimageWrite,
}

impl FileDescriptor {
    /// The raw descriptor number agreed on with the host out-of-band.
    pub open spec fn raw_spec(self) -> u64 {
        match self {
            FileDescriptor::StdIn => 0,
            FileDescriptor::StdOut => 1,
            FileDescriptor::StdErr => 2,
            FileDescriptor::HintRead => 3,
            FileDescriptor::HintWrite => 4,
            FileDescriptor::PreimageRead => 5,
            FileDescriptor::PreimageWrite => 6,
        }
    }

    /// Returns the raw descriptor number.
    pub fn raw(self) -> (r: u64)
        ensures
            r == self.raw_spec(),
    {
        match self {
            FileDescriptor::StdIn => 0,
            FileDescriptor::StdOut => 1,
            FileDescriptor::StdErr => 2,
            FileDescriptor::HintRead => 3,
            FileDescriptor::HintWrite => 4,
            FileDescriptor::PreimageRead => 5,
            FileDescriptor::PreimageWrite => 6,
        }
    }
}

/// One blocking syscall each for reading, writing and exiting, with a uniform
/// signature regardless of the target instruction set.
///
/// A would-block condition must surface as [`KernelError::WouldBlock`], never
/// be retried internally: retry policy belongs to the channel layer above.
/// Errors leave the channel state untouched. A successful read hands back a
/// prefix of the descriptor's pending bytes and consumes exactly that prefix;
/// a successful write appends a prefix of the given buffer to the bytes
/// written so far. A zero-length successful read means the host has closed
/// the pipe and nothing is pending.
pub trait BasicKernelInterface: Sized {
    /// The bytes the environment has queued for this descriptor and the
    /// client has not read yet. An implementation refines this as it sees
    /// fit; the default models an environment with nothing queued.
    open spec fn incoming(&self, fd: FileDescriptor) -> Seq<u8> {
        Seq::empty()
    }

    /// All bytes the client has written to this descriptor so far.
    open spec fn written(&self, fd: FileDescriptor) -> Seq<u8> {
        Seq::empty()
    }

    /// How many consecutive would-block conditions the environment may still
    /// report before it makes progress. The host blocks synchronously and is
    /// trusted to eventually respond, so every run of would-blocks is finite;
    /// this measure is what lets the channel layer's retry loops terminate.
    /// A successful syscall may replenish it arbitrarily.
    open spec fn patience(&self) -> nat {
        0
    }

    /// Reads at most `max` bytes from `fd`. May return fewer, or none at all
    /// when the host has closed the pipe.
    fn read(&mut self, fd: FileDescriptor, max: usize) -> (r: Result<Vec<u8>, KernelError>)
        ensures
            match r {
                Ok(chunk) => {
                    &&& chunk@.len() <= max
                    &&& chunk@.len() <= old(self).incoming(fd).len()
                    &&& chunk@ == old(self).incoming(fd).take(chunk@.len() as int)
                    &&& final(self).incoming(fd) == old(self).incoming(fd).skip(
                        chunk@.len() as int,
                    )
                    &&& chunk@.len() == 0 ==> old(self).incoming(fd).len() == 0
                    &&& forall|f: FileDescriptor|
                        f != fd ==> final(self).incoming(f) == old(self).incoming(f)
                    &&& forall|f: FileDescriptor| final(self).written(f) == old(self).written(f)
                },
                Err(e) => {
                    &&& forall|f: FileDescriptor| final(self).incoming(f) == old(self).incoming(f)
                    &&& forall|f: FileDescriptor| final(self).written(f) == old(self).written(f)
                    &&& e == KernelError::WouldBlock ==> final(self).patience()
                        < old(self).patience()
                },
            },
    ;

    /// Writes a prefix of `buf` to `fd` and reports how many bytes went out.
    fn write(&mut self, fd: FileDescriptor, buf: &[u8]) -> (r: Result<usize, KernelError>)
        ensures
            match r {
                Ok(n) => {
                    &&& n <= buf@.len()
                    &&& final(self).written(fd) == old(self).written(fd) + buf@.take(n as int)
                    &&& forall|f: FileDescriptor|
                        f != fd ==> final(self).written(f) == old(self).written(f)
                    &&& forall|f: FileDescriptor| final(self).incoming(f) == old(self).incoming(f)
                },
                Err(e) => {
                    &&& forall|f: FileDescriptor| final(self).incoming(f) == old(self).incoming(f)
                    &&& forall|f: FileDescriptor| final(self).written(f) == old(self).written(f)
                    &&& e == KernelError::WouldBlock ==> final(self).patience()
                        < old(self).patience()
                },
            },
    ;

    /// Terminates the client process with the given exit code. In a real
    /// execution environment this call does not return.
    fn exit(&mut self, code: u64);
}

} // verus!
