//! The protocol layer: the preimage key vocabulary and the [`CommsClient`],
//! which runs the hint/preimage wire protocol over the fixed channels.
//!
//! Both channels share one wire discipline: an 8-byte big-endian length
//! prefix followed by exactly that many payload bytes. A hint is one such
//! frame carrying the UTF-8 hint string. A preimage request is 33 bytes —
//! the 32-byte digest then one key-type byte — answered by one frame whose
//! payload is the preimage itself.

use vstd::prelude::*;

use crate::channel::FileChannel;
use crate::codec::{be_bytes, be_bytes_of_u64, u64_from_be_bytes, u64_of_be_bytes};
use crate::errors::{ChannelError, OracleProviderError, PreimageOracleError};
use crate::hint::{wire_of, Hint, HintTag, HintType};
use crate::kernel::{BasicKernelInterface, FileDescriptor};

verus! {

broadcast use vstd::array::group_array_axioms;

use vstd::string::StrSliceExecFns;

/// A 32-byte content-addressed digest, the addressing unit of the preimage
/// channel.
#[derive(Clone, Copy, Debug, PartialEq, Eq)]
pub struct Digest {
    /// The digest bytes.
    pub bytes: [u8; 32],
}

impl View for Digest {
    type V = Seq<u8>;

    open spec fn view(&self) -> Seq<u8> {
        self.bytes@
    }
}

impl Digest {
    /// Wraps 32 digest bytes.
    pub fn new(bytes: [u8; 32]) -> (r: Digest)
        ensures
            r@ == bytes@,
    {
        Digest { bytes }
    }

    /// Copies the digest bytes out.
    pub fn to_vec(&self) -> (r: Vec<u8>)
        ensures
            r@ == self@,
    {
        vstd::slice::slice_to_vec(self.bytes.as_slice())
    }
}

/// The key-type discriminant of a preimage key, fixing how the digest
/// commits to its preimage.
#[derive(Clone, Copy, Debug, PartialEq, Eq, Structural)]
pub enum PreimageKeyType {
    /// A key local to the running program.
    Local,
    /// A keccak-256 commitment.
    Keccak256,
    /// A generic global commitment.
    GlobalGeneric,
    /// A sha2-256 commitment.
    Sha256,
    /// A blob commitment.
    Blob,
    /// A precompile result commitment.
    Precompile,
}

impl PreimageKeyType {
    /// The discriminant byte sent on the wire.
    pub open spec fn byte_spec(self) -> u8 {
        match self {
            PreimageKeyType::Local => 1,
            PreimageKeyType::Keccak256 => 2,
            PreimageKeyType::GlobalGeneric => 3,
            PreimageKeyType::Sha256 => 4,
            PreimageKeyType::Blob => 5,
            PreimageKeyType::Precompile => 6,
        }
    }

    /// Returns the discriminant byte.
    pub fn to_byte(self) -> (r: u8)
        ensures
            r == self.byte_spec(),
    {
        match self {
            PreimageKeyType::Local => 1,
            PreimageKeyType::Keccak256 => 2,
            PreimageKeyType::GlobalGeneric => 3,
            PreimageKeyType::Sha256 => 4,
            PreimageKeyType::Blob => 5,
            PreimageKeyType::Precompile => 6,
        }
    }
}

/// A content-addressed identifier: a 32-byte digest plus a key-type
/// discriminant, identifying a unique commitment the host must resolve.
#[derive(Clone, Copy, Debug, PartialEq, Eq)]
pub struct PreimageKey {
    /// The digest of the preimage.
    pub digest: Digest,
    /// The key-type discriminant.
    pub key_type: PreimageKeyType,
}

impl PreimageKey {
    /// Builds a key from its digest and key type.
    pub fn new(digest: Digest, key_type: PreimageKeyType) -> (r: PreimageKey)
        ensures
            r.digest == digest,
            r.key_type == key_type,
    {
        PreimageKey { digest, key_type }
    }

    /// The fixed 33-byte request payload: the digest then the key-type byte.
    pub open spec fn request_bytes(self) -> Seq<u8> {
        self.digest@ + seq![self.key_type.byte_spec()]
    }

    /// Encodes the 33-byte request payload.
    pub fn encode(&self) -> (r: Vec<u8>)
        ensures
            r@ == self.request_bytes(),
    {
        let mut out = self.digest.to_vec();
        out.push(self.key_type.to_byte());
        proof {
            assert(out@ =~= self.request_bytes());
        }
        out
    }
}

/// The frame a hint string occupies on the hint channel: an 8-byte
/// big-endian length prefix counting the UTF-8 bytes of the string, then
/// exactly those bytes.
pub open spec fn hint_frame_of(s: Seq<char>) -> Seq<u8> {
    be_bytes_of_u64(vstd::utf8::encode_utf8(s).len() as u64) + vstd::utf8::encode_utf8(s)
}

/// The protocol client: one channel to write framed hints, one to write
/// preimage requests, one to read preimage responses. The descriptors are
/// fixed for the process lifetime.
#[derive(Clone, Copy, Debug, PartialEq, Eq, Structural)]
pub struct CommsClient {
    /// Client side of the hint channel.
    pub hint: FileChannel,
    /// Client side of the preimage request channel.
    pub request: FileChannel,
    /// Client side of the preimage response channel.
    pub response: FileChannel,
}

impl CommsClient {
    /// The client is bound to the three well-known protocol descriptors.
    pub open spec fn wf(self) -> bool {
        &&& self.hint.fd == FileDescriptor::HintWrite
        &&& self.request.fd == FileDescriptor::PreimageWrite
        &&& self.response.fd == FileDescriptor::PreimageRead
    }

    /// Binds the client to the well-known protocol descriptors.
    pub fn new() -> (r: CommsClient)
        ensures
            r.wf(),
    {
        CommsClient {
            hint: FileChannel::new(FileDescriptor::HintWrite),
            request: FileChannel::new(FileDescriptor::PreimageWrite),
            response: FileChannel::new(FileDescriptor::PreimageRead),
        }
    }

    /// Writes one hint, fully framed, on the hint channel. Nothing is read,
    /// and no other descriptor is written. On success exactly the frame of
    /// `hint` has gone out; on failure some prefix of it has.
    pub fn write<K: BasicKernelInterface>(&self, k: &mut K, hint: &str) -> (r: Result<
        (),
        ChannelError,
    >)
        requires
            self.wf(),
        ensures
            forall|f: FileDescriptor| final(k).incoming(f) == old(k).incoming(f),
            forall|f: FileDescriptor|
                f != self.hint.fd ==> final(k).written(f) == old(k).written(f),
            match r {
                Ok(_) => final(k).written(self.hint.fd) == old(k).written(self.hint.fd)
                    + hint_frame_of(hint@),
                Err(_) => exists|m: int|
                    0 <= m <= hint_frame_of(hint@).len() && final(k).written(self.hint.fd) == old(
                        k,
                    ).written(self.hint.fd) + hint_frame_of(hint@).take(m),
            },
    {
        let len = hint.len();
        let mut frame = be_bytes(len as u64);
        let mut payload = hint.as_bytes_vec();
        frame.append(&mut payload);
        proof {
            assert(frame@ =~= hint_frame_of(hint@));
        }
        self.hint.write_all(k, frame.as_slice())
    }

    /// Requests the preimage of `key` and returns it, sized by the host's
    /// length prefix. Writes exactly the 33-byte request on the request
    /// channel and nothing else anywhere; reads only the response channel.
    pub fn get<K: BasicKernelInterface>(&self, k: &mut K, key: PreimageKey) -> (r: Result<
        Vec<u8>,
        PreimageOracleError,
    >)
        requires
            self.wf(),
        ensures
            forall|f: FileDescriptor|
                f != self.request.fd ==> final(k).written(f) == old(k).written(f),
            forall|f: FileDescriptor|
                f != self.response.fd ==> final(k).incoming(f) == old(k).incoming(f),
            match r {
                Ok(v) => {
                    let resp = old(k).incoming(self.response.fd);
                    &&& final(k).written(self.request.fd) == old(k).written(self.request.fd)
                        + key.request_bytes()
                    &&& resp.len() >= 8
                    &&& v@.len() as u64 == u64_of_be_bytes(resp.take(8))
                    &&& 8 + v@.len() <= resp.len()
                    &&& v@ == resp.skip(8).take(v@.len() as int)
                    &&& final(k).incoming(self.response.fd) == resp.skip(8 + v@.len() as int)
                },
                Err(e) => match e {
                    PreimageOracleError::Request(_) => final(k).incoming(self.response.fd) == old(
                        k,
                    ).incoming(self.response.fd),
                    PreimageOracleError::Response(_) => true,
                    PreimageOracleError::OversizedResponse(d) => d == u64_of_be_bytes(
                        old(k).incoming(self.response.fd).take(8),
                    ) && d > usize::MAX as u64,
                    _ => false,
                },
            },
    {
        let req = key.encode();
        match self.request.write_all(k, req.as_slice()) {
            Ok(_) => {
            },
            Err(e) => {
                return Err(PreimageOracleError::Request(e));
            },
        }
        let lenbuf = match self.response.read_exact(k, 8) {
            Ok(v) => v,
            Err(e) => {
                return Err(PreimageOracleError::Response(e));
            },
        };
        let declared = u64_from_be_bytes(&lenbuf);
        if declared > usize::MAX as u64 {
            return Err(PreimageOracleError::OversizedResponse(declared));
        }
        let body = match self.response.read_exact(k, declared as usize) {
            Ok(v) => v,
            Err(e) => {
                return Err(PreimageOracleError::Response(e));
            },
        };
        proof {
            let resp = old(k).incoming(self.response.fd);
            assert(resp.skip(8).skip(body@.len() as int) =~= resp.skip(8 + body@.len() as int));
        }
        Ok(body)
    }

    /// Requests the preimage of `key` into the caller's buffer, whose length
    /// must equal the host-declared length exactly. On a mismatch the
    /// operation fails with a protocol-contract error before any bytes are
    /// copied into the buffer; on any failure the buffer is untouched.
    pub fn get_exact<K: BasicKernelInterface>(
        &self,
        k: &mut K,
        key: PreimageKey,
        buf: &mut Vec<u8>,
    ) -> (r: Result<(), PreimageOracleError>)
        requires
            self.wf(),
        ensures
            forall|f: FileDescriptor|
                f != self.request.fd ==> final(k).written(f) == old(k).written(f),
            forall|f: FileDescriptor|
                f != self.response.fd ==> final(k).incoming(f) == old(k).incoming(f),
            match r {
                Ok(_) => {
                    let resp = old(k).incoming(self.response.fd);
                    &&& final(k).written(self.request.fd) == old(k).written(self.request.fd)
                        + key.request_bytes()
                    &&& resp.len() >= 8
                    &&& u64_of_be_bytes(resp.take(8)) == old(buf)@.len() as u64
                    &&& 8 + old(buf)@.len() <= resp.len()
                    &&& final(buf)@ == resp.skip(8).take(old(buf)@.len() as int)
                    &&& final(buf)@.len() == old(buf)@.len()
                    &&& final(k).incoming(self.response.fd) == resp.skip(
                        8 + old(buf)@.len() as int,
                    )
                },
                Err(e) => {
                    &&& *final(buf) == *old(buf)
                    &&& match e {
                        PreimageOracleError::Request(_) => final(k).incoming(self.response.fd)
                            == old(k).incoming(self.response.fd),
                        PreimageOracleError::Response(_) => true,
                        PreimageOracleError::LengthMismatch { expected, declared } => {
                            &&& expected == old(buf)@.len()
                            &&& declared == u64_of_be_bytes(
                                old(k).incoming(self.response.fd).take(8),
                            )
                            &&& declared != expected as u64
                        },
                        _ => false,
                    }
                },
            },
    {
        let req = key.encode();
        match self.request.write_all(k, req.as_slice()) {
            Ok(_) => {
            },
            Err(e) => {
                return Err(PreimageOracleError::Request(e));
            },
        }
        let lenbuf = match self.response.read_exact(k, 8) {
            Ok(v) => v,
            Err(e) => {
                return Err(PreimageOracleError::Response(e));
            },
        };
        let declared = u64_from_be_bytes(&lenbuf);
        let expected = buf.len();
        if declared != expected as u64 {
            return Err(PreimageOracleError::LengthMismatch { expected, declared });
        }
        let body = match self.response.read_exact(k, expected) {
            Ok(v) => v,
            Err(e) => {
                return Err(PreimageOracleError::Response(e));
            },
        };
        proof {
            let resp = old(k).incoming(self.response.fd);
            assert(resp.skip(8).skip(body@.len() as int) =~= resp.skip(8 + body@.len() as int));
        }
        *buf = body;
        Ok(())
    }
}

impl HintType {
    /// Retrieves a preimage through the oracle: writes the hint whose
    /// payload is exactly the 32-byte digest, then — only if the hint write
    /// completed — requests the preimage keyed by the digest and key type,
    /// and returns the host's response bytes unchanged. There is no partial
    /// success: a hint-stage failure leaves the preimage channels untouched,
    /// and a preimage-stage failure happens only after the hint went out in
    /// full.
    pub fn get_preimage<K: BasicKernelInterface>(
        &self,
        oracle: &CommsClient,
        k: &mut K,
        image: &Digest,
        key_type: PreimageKeyType,
    ) -> (r: Result<Vec<u8>, OracleProviderError>)
        requires
            oracle.wf(),
        ensures
            forall|f: FileDescriptor|
                f != oracle.hint.fd && f != oracle.request.fd ==> final(k).written(f) == old(
                    k,
                ).written(f),
            forall|f: FileDescriptor|
                f != oracle.response.fd ==> final(k).incoming(f) == old(k).incoming(f),
            match r {
                Ok(v) => {
                    let resp = old(k).incoming(oracle.response.fd);
                    &&& final(k).written(oracle.hint.fd) == old(k).written(oracle.hint.fd)
                        + hint_frame_of(wire_of(self.tag_spec(), image@))
                    &&& final(k).written(oracle.request.fd) == old(k).written(oracle.request.fd)
                        + image@ + seq![key_type.byte_spec()]
                    &&& resp.len() >= 8
                    &&& v@.len() as u64 == u64_of_be_bytes(resp.take(8))
                    &&& v@ == resp.skip(8).take(v@.len() as int)
                    &&& final(k).incoming(oracle.response.fd) == resp.skip(8 + v@.len() as int)
                },
                Err(err) => match err {
                    OracleProviderError::Preimage(e) => match e {
                        PreimageOracleError::HintWrite(_) => {
                            &&& final(k).written(oracle.request.fd) == old(k).written(
                                oracle.request.fd,
                            )
                            &&& final(k).incoming(oracle.response.fd) == old(k).incoming(
                                oracle.response.fd,
                            )
                        },
                        PreimageOracleError::LengthMismatch { .. } => false,
                        _ => final(k).written(oracle.hint.fd) == old(k).written(oracle.hint.fd)
                            + hint_frame_of(wire_of(self.tag_spec(), image@)),
                    },
                },
            },
    {
        let hint = Hint { hint_type: *self, hint_data: image.to_vec() };
        let wire = hint.to_wire();
        match oracle.write(k, wire.as_str()) {
            Ok(_) => {
            },
            Err(e) => {
                return Err(OracleProviderError::Preimage(PreimageOracleError::HintWrite(e)));
            },
        }
        let key = PreimageKey::new(*image, key_type);
        match oracle.get(k, key) {
            Ok(v) => Ok(v),
            Err(e) => Err(OracleProviderError::Preimage(e)),
        }
    }

    /// Retrieves a preimage through the oracle into the caller's buffer,
    /// which must be exactly as long as the preimage the host commits to.
    /// Staging is as in [`Self::get_preimage`]; on any failure the buffer is
    /// untouched.
    pub fn get_exact_preimage<K: BasicKernelInterface>(
        &self,
        oracle: &CommsClient,
        k: &mut K,
        image: &Digest,
        key_type: PreimageKeyType,
        buf: &mut Vec<u8>,
    ) -> (r: Result<(), OracleProviderError>)
        requires
            oracle.wf(),
        ensures
            forall|f: FileDescriptor|
                f != oracle.hint.fd && f != oracle.request.fd ==> final(k).written(f) == old(
                    k,
                ).written(f),
            forall|f: FileDescriptor|
                f != oracle.response.fd ==> final(k).incoming(f) == old(k).incoming(f),
            match r {
                Ok(_) => {
                    let resp = old(k).incoming(oracle.response.fd);
                    &&& final(k).written(oracle.hint.fd) == old(k).written(oracle.hint.fd)
                        + hint_frame_of(wire_of(self.tag_spec(), image@))
                    &&& final(k).written(oracle.request.fd) == old(k).written(oracle.request.fd)
                        + image@ + seq![key_type.byte_spec()]
                    &&& resp.len() >= 8
                    &&& u64_of_be_bytes(resp.take(8)) == old(buf)@.len() as u64
                    &&& final(buf)@ == resp.skip(8).take(old(buf)@.len() as int)
                    &&& final(buf)@.len() == old(buf)@.len()
                    &&& final(k).incoming(oracle.response.fd) == resp.skip(
                        8 + old(buf)@.len() as int,
                    )
                },
                Err(err) => {
                    &&& *final(buf) == *old(buf)
                    &&& match err {
                        OracleProviderError::Preimage(e) => match e {
                            PreimageOracleError::HintWrite(_) => {
                                &&& final(k).written(oracle.request.fd) == old(k).written(
                                    oracle.request.fd,
                                )
                                &&& final(k).incoming(oracle.response.fd) == old(k).incoming(
                                    oracle.response.fd,
                                )
                            },
                            PreimageOracleError::LengthMismatch { expected, declared } => {
                                &&& expected == old(buf)@.len()
                                &&& declared != expected as u64
                                &&& final(k).written(oracle.hint.fd) == old(k).written(
                                    oracle.hint.fd,
                                ) + hint_frame_of(wire_of(self.tag_spec(), image@))
                            },
                            _ => final(k).written(oracle.hint.fd) == old(k).written(
                                oracle.hint.fd,
                            ) + hint_frame_of(wire_of(self.tag_spec(), image@)),
                        },
                    }
                },
            },
    {
        let hint = Hint { hint_type: *self, hint_data: image.to_vec() };
        let wire = hint.to_wire();
        match oracle.write(k, wire.as_str()) {
            Ok(_) => {
            },
            Err(e) => {
                return Err(OracleProviderError::Preimage(PreimageOracleError::HintWrite(e)));
            },
        }
        let key = PreimageKey::new(*image, key_type);
        match oracle.get_exact(k, key, buf) {
            Ok(_) => Ok(()),
            Err(e) => Err(OracleProviderError::Preimage(e)),
        }
    }
}

} // verus!
