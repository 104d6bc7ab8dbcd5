//! The channel layer: turns the kernel's raw, possibly-partial,
//! possibly-interrupted syscalls into full-buffer semantics — read exactly N
//! bytes or fail, write exactly N bytes or fail — retrying transparently on
//! would-block conditions.

use vstd::prelude::*;

use crate::errors::{ChannelError, KernelError};
use crate::kernel::{BasicKernelInterface, FileDescriptor};

verus! {

/// A typed wrapper over one fixed file descriptor. Stateless beyond the
/// descriptor number; all mutability lives in the operating environment
/// behind the kernel interface.
#[derive(Clone, Copy, Debug, PartialEq, Eq, Structural)]
pub struct FileChannel {
    /// The descriptor this channel is bound to for the process lifetime.
    pub fd: FileDescriptor,
}

impl FileChannel {
    /// Binds a channel to a fixed descriptor.
    pub fn new(fd: FileDescriptor) -> (r: FileChannel)
        ensures
            r.fd == fd,
    {
        FileChannel { fd }
    }

    /// Reads exactly `n` bytes from the channel, retrying on would-block with
    /// no backoff, assembling partial reads in order. A zero-byte read with
    /// bytes still owed means the host closed the pipe: a fatal error, never
    /// a short result. On success the result is exactly the first `n` pending
    /// bytes and exactly those are consumed; nothing is ever written, and no
    /// other descriptor is touched.
    pub fn read_exact<K: BasicKernelInterface>(&self, k: &mut K, n: usize) -> (r: Result<
        Vec<u8>,
        ChannelError,
    >)
        ensures
            forall|f: FileDescriptor| final(k).written(f) == old(k).written(f),
            forall|f: FileDescriptor|
                f != self.fd ==> final(k).incoming(f) == old(k).incoming(f),
            match r {
                Ok(v) => {
                    &&& v@.len() == n
                    &&& n <= old(k).incoming(self.fd).len()
                    &&& v@ == old(k).incoming(self.fd).take(n as int)
                    &&& final(k).incoming(self.fd) == old(k).incoming(self.fd).skip(n as int)
                },
                Err(_) => exists|m: int|
                    0 <= m <= n && final(k).incoming(self.fd) == old(k).incoming(self.fd).skip(m),
            },
    {
        let mut out: Vec<u8> = Vec::new();
        while out.len() < n
            invariant
                out@.len() <= n,
                out@.len() <= old(k).incoming(self.fd).len(),
                out@ == old(k).incoming(self.fd).take(out@.len() as int),
                k.incoming(self.fd) == old(k).incoming(self.fd).skip(out@.len() as int),
                forall|f: FileDescriptor| f != self.fd ==> k.incoming(f) == old(k).incoming(f),
                forall|f: FileDescriptor| k.written(f) == old(k).written(f),
            decreases n - out@.len(), k.patience(),
        {
            let want = n - out.len();
            match k.read(self.fd, want) {
                Ok(mut chunk) => {
                    if chunk.len() == 0 {
                        proof {
                            let m = out@.len() as int;
                            assert(0 <= m <= n && k.incoming(self.fd) == old(k).incoming(
                                self.fd,
                            ).skip(m));
                        }
                        return Err(ChannelError::Closed);
                    }
                    proof {
                        let pre = old(k).incoming(self.fd);
                        let m = out@.len() as int;
                        let c = chunk@.len() as int;
                        assert(pre.skip(m).take(c) =~= pre.subrange(m, m + c));
                        assert(pre.take(m) + pre.subrange(m, m + c) =~= pre.take(m + c));
                        assert(pre.skip(m).skip(c) =~= pre.skip(m + c));
                    }
                    out.append(&mut chunk);
                },
                Err(KernelError::WouldBlock) => {
                },
                Err(KernelError::Io(code)) => {
                    proof {
                        let m = out@.len() as int;
                        assert(0 <= m <= n && k.incoming(self.fd) == old(k).incoming(self.fd).skip(
                            m,
                        ));
                    }
                    return Err(ChannelError::Kernel(code));
                },
            }
        }
        Ok(out)
    }

    /// Writes all of `buf` to the channel, retrying on would-block with no
    /// backoff. A write that makes no progress with bytes still owed means
    /// the host closed the pipe: a fatal error. On success exactly `buf` has
    /// been appended to the bytes written on this descriptor; on failure some
    /// prefix of it has. Nothing is ever read, and no other descriptor is
    /// touched.
    pub fn write_all<K: BasicKernelInterface>(&self, k: &mut K, buf: &[u8]) -> (r: Result<
        (),
        ChannelError,
    >)
        ensures
            forall|f: FileDescriptor| final(k).incoming(f) == old(k).incoming(f),
            forall|f: FileDescriptor|
                f != self.fd ==> final(k).written(f) == old(k).written(f),
            match r {
                Ok(_) => final(k).written(self.fd) == old(k).written(self.fd) + buf@,
                Err(_) => exists|m: int|
                    0 <= m <= buf@.len() && final(k).written(self.fd) == old(k).written(self.fd)
                        + buf@.take(m),
            },
    {
        let mut sent: usize = 0;
        while sent < buf.len()
            invariant
                sent <= buf@.len(),
                k.written(self.fd) == old(k).written(self.fd) + buf@.take(sent as int),
                forall|f: FileDescriptor| f != self.fd ==> k.written(f) == old(k).written(f),
                forall|f: FileDescriptor| k.incoming(f) == old(k).incoming(f),
            decreases buf@.len() - sent, k.patience(),
        {
            let rest = vstd::slice::slice_subrange(buf, sent, buf.len());
            match k.write(self.fd, rest) {
                Ok(n) => {
                    proof {
                        let m = sent as int;
                        let c = n as int;
                        assert(rest@.take(c) =~= buf@.subrange(m, m + c));
                        assert((old(k).written(self.fd) + buf@.take(m)) + buf@.subrange(m, m + c)
                            =~= old(k).written(self.fd) + buf@.take(m + c));
                    }
                    if n == 0 {
                        proof {
                            let m = sent as int;
                            assert(0 <= m <= buf@.len() && k.written(self.fd) == old(k).written(
                                self.fd,
                            ) + buf@.take(m));
                        }
                        return Err(ChannelError::Closed);
                    }
                    sent = sent + n;
                },
                Err(KernelError::WouldBlock) => {
                },
                Err(KernelError::Io(code)) => {
                    proof {
                        let m = sent as int;
                        assert(0 <= m <= buf@.len() && k.written(self.fd) == old(k).written(
                            self.fd,
                        ) + buf@.take(m));
                    }
                    return Err(ChannelError::Kernel(code));
                },
            }
        }
        proof {
            assert(buf@.take(sent as int) =~= buf@);
        }
        Ok(())
    }
}

} // verus!
