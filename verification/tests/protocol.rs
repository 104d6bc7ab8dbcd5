//! Tests of the channel layer and the preimage protocol against a scripted
//! mock kernel: partial reads, would-block retries, closed pipes, exact
//! length enforcement, and the end-to-end hint/preimage exchange.

use std::collections::VecDeque;

use preimage_oracle::BasicKernelInterface;
use preimage_oracle::ChannelError;
use preimage_oracle::CommsClient;
use preimage_oracle::Digest;
use preimage_oracle::FileChannel;
use preimage_oracle::FileDescriptor;
use preimage_oracle::HintType;
use preimage_oracle::KernelError;
use preimage_oracle::OracleProviderError;
use preimage_oracle::PreimageKey;
use preimage_oracle::PreimageKeyType;

/// One scripted outcome of a read syscall.
enum Step {
    Data(Vec<u8>),
    WouldBlock,
    Fail(u64),
}

/// A deterministic kernel: per-descriptor read scripts, a record of all
/// writes, and optional write throttling.
struct MockKernel {
    scripts: Vec<(FileDescriptor, VecDeque<Step>)>,
    written: Vec<(FileDescriptor, Vec<u8>)>,
    write_cap: Option<usize>,
    fail_writes_on: Option<(FileDescriptor, u64)>,
    write_would_blocks: u32,
}

impl MockKernel {
    fn new() -> MockKernel {
        MockKernel {
            scripts: Vec::new(),
            written: Vec::new(),
            write_cap: None,
            fail_writes_on: None,
            write_would_blocks: 0,
        }
    }

    fn script(&mut self, fd: FileDescriptor, steps: Vec<Step>) {
        self.scripts.push((fd, steps.into_iter().collect()));
    }

    fn written_on(&self, fd: FileDescriptor) -> Vec<u8> {
        for (f, bytes) in &self.written {
            if *f == fd {
                return bytes.clone();
            }
        }
        Vec::new()
    }
}

impl BasicKernelInterface for MockKernel {
    fn read(&mut self, fd: FileDescriptor, max: usize) -> Result<Vec<u8>, KernelError> {
        for (f, steps) in self.scripts.iter_mut() {
            if *f != fd {
                continue;
            }
            return match steps.pop_front() {
                None => Ok(Vec::new()),
                Some(Step::WouldBlock) => Err(KernelError::WouldBlock),
                Some(Step::Fail(code)) => Err(KernelError::Io(code)),
                Some(Step::Data(bytes)) => {
                    if bytes.len() <= max {
                        Ok(bytes)
                    } else {
                        let (now, later) = bytes.split_at(max);
                        let out = now.to_vec();
                        steps.push_front(Step::Data(later.to_vec()));
                        Ok(out)
                    }
                },
            };
        }
        Ok(Vec::new())
    }

    fn write(&mut self, fd: FileDescriptor, buf: &[u8]) -> Result<usize, KernelError> {
        if let Some((f, code)) = self.fail_writes_on {
            if f == fd {
                return Err(KernelError::Io(code));
            }
        }
        if self.write_would_blocks > 0 {
            self.write_would_blocks -= 1;
            return Err(KernelError::WouldBlock);
        }
        let n = match self.write_cap {
            Some(cap) => buf.len().min(cap),
            None => buf.len(),
        };
        for (f, bytes) in self.written.iter_mut() {
            if *f == fd {
                bytes.extend_from_slice(&buf[..n]);
                return Ok(n);
            }
        }
        self.written.push((fd, buf[..n].to_vec()));
        Ok(n)
    }

    fn exit(&mut self, code: u64) {
        panic!("kernel exit with code {}", code);
    }
}

fn be64(v: u64) -> Vec<u8> {
    v.to_be_bytes().to_vec()
}

#[test]
fn descriptor_numbers_are_fixed() {
    assert_eq!(FileDescriptor::StdIn.raw(), 0);
    assert_eq!(FileDescriptor::StdOut.raw(), 1);
    assert_eq!(FileDescriptor::StdErr.raw(), 2);
    assert_eq!(FileDescriptor::HintRead.raw(), 3);
    assert_eq!(FileDescriptor::HintWrite.raw(), 4);
    assert_eq!(FileDescriptor::PreimageRead.raw(), 5);
    assert_eq!(FileDescriptor::PreimageWrite.raw(), 6);
}

#[test]
fn be_bytes_round_trip() {
    let v: u64 = 0x0102030405060708;
    let enc = preimage_oracle::codec::be_bytes(v);
    assert_eq!(enc, vec![1, 2, 3, 4, 5, 6, 7, 8]);
    assert_eq!(preimage_oracle::codec::u64_from_be_bytes(&enc), v);
}

#[test]
fn preimage_key_encodes_33_bytes() {
    let mut bytes = [0u8; 32];
    bytes[31] = 0x2a;
    let key = PreimageKey::new(Digest::new(bytes), PreimageKeyType::Sha256);
    let enc = key.encode();
    assert_eq!(enc.len(), 33);
    assert_eq!(enc[31], 0x2a);
    assert_eq!(enc[32], 4);
}

#[test]
fn read_exact_assembles_partial_reads() {
    let mut k = MockKernel::new();
    k.script(
        FileDescriptor::PreimageRead,
        vec![
            Step::Data(vec![1, 2, 3]),
            Step::Data(vec![4, 5, 6, 7, 8]),
            Step::WouldBlock,
            Step::Data(vec![9, 10]),
        ],
    );
    let ch = FileChannel::new(FileDescriptor::PreimageRead);
    let got = ch.read_exact(&mut k, 10).expect("ten bytes are available");
    assert_eq!(got, vec![1, 2, 3, 4, 5, 6, 7, 8, 9, 10]);
}

#[test]
fn read_exact_fails_on_early_close() {
    let mut k = MockKernel::new();
    k.script(FileDescriptor::PreimageRead, vec![Step::Data(vec![1, 2, 3, 4])]);
    let ch = FileChannel::new(FileDescriptor::PreimageRead);
    let got = ch.read_exact(&mut k, 10);
    assert_eq!(got, Err(ChannelError::Closed));
}

#[test]
fn read_exact_propagates_kernel_failure() {
    let mut k = MockKernel::new();
    k.script(FileDescriptor::PreimageRead, vec![Step::Data(vec![1]), Step::Fail(5)]);
    let ch = FileChannel::new(FileDescriptor::PreimageRead);
    let got = ch.read_exact(&mut k, 4);
    assert_eq!(got, Err(ChannelError::Kernel(5)));
}

#[test]
fn write_all_reassembles_partial_writes() {
    let mut k = MockKernel::new();
    k.write_cap = Some(3);
    k.write_would_blocks = 2;
    let ch = FileChannel::new(FileDescriptor::HintWrite);
    let buf = vec![1u8, 2, 3, 4, 5, 6, 7, 8];
    ch.write_all(&mut k, &buf).expect("the mock accepts three bytes a call");
    assert_eq!(k.written_on(FileDescriptor::HintWrite), buf);
}

#[test]
fn write_all_fails_when_nothing_is_accepted() {
    let mut k = MockKernel::new();
    k.write_cap = Some(0);
    let ch = FileChannel::new(FileDescriptor::HintWrite);
    let got = ch.write_all(&mut k, &[1u8, 2, 3]);
    assert_eq!(got, Err(ChannelError::Closed));
}

#[test]
fn hint_write_is_framed_with_length_prefix() {
    let mut k = MockKernel::new();
    let client = CommsClient::new();
    client.write(&mut k, "l1-blob aabb").expect("the mock accepts writes");
    let mut expected = be64(12);
    expected.extend_from_slice("l1-blob aabb".as_bytes());
    assert_eq!(k.written_on(FileDescriptor::HintWrite), expected);
    assert_eq!(k.written_on(FileDescriptor::PreimageWrite), Vec::<u8>::new());
}

#[test]
fn get_requests_and_returns_host_payload() {
    let mut k = MockKernel::new();
    let mut frame = be64(5);
    frame.extend_from_slice(&[1, 2, 3, 4, 5]);
    k.script(FileDescriptor::PreimageRead, vec![Step::Data(frame)]);
    let client = CommsClient::new();
    let key = PreimageKey::new(Digest::new([3u8; 32]), PreimageKeyType::Local);
    let got = client.get(&mut k, key).expect("the mock host answers");
    assert_eq!(got, vec![1, 2, 3, 4, 5]);
    let mut expected_request = [3u8; 32].to_vec();
    expected_request.push(1);
    assert_eq!(k.written_on(FileDescriptor::PreimageWrite), expected_request);
}

#[test]
fn get_exact_rejects_length_mismatch_untouched() {
    let mut k = MockKernel::new();
    k.script(FileDescriptor::PreimageRead, vec![Step::Data(be64(40))]);
    let client = CommsClient::new();
    let key = PreimageKey::new(Digest::new([0u8; 32]), PreimageKeyType::Keccak256);
    let mut buf = vec![0u8; 32];
    let got = client.get_exact(&mut k, key, &mut buf);
    assert_eq!(
        got,
        Err(preimage_oracle::PreimageOracleError::LengthMismatch { expected: 32, declared: 40 })
    );
    assert_eq!(buf, vec![0u8; 32]);
}

#[test]
fn get_exact_fills_matching_buffer() {
    let mut k = MockKernel::new();
    let mut frame = be64(4);
    frame.extend_from_slice(&[9, 8, 7, 6]);
    k.script(FileDescriptor::PreimageRead, vec![Step::Data(frame)]);
    let client = CommsClient::new();
    let key = PreimageKey::new(Digest::new([0u8; 32]), PreimageKeyType::Keccak256);
    let mut buf = vec![0u8; 4];
    client.get_exact(&mut k, key, &mut buf).expect("lengths match");
    assert_eq!(buf, vec![9, 8, 7, 6]);
    assert_eq!(k.written_on(FileDescriptor::PreimageWrite).len(), 33);
}

#[test]
fn get_preimage_end_to_end() {
    let mut k = MockKernel::new();
    let mut frame = be64(3);
    frame.extend_from_slice(&[0xaa, 0xbb, 0xcc]);
    k.script(FileDescriptor::PreimageRead, vec![Step::Data(frame)]);

    let mut digest_bytes = [0u8; 32];
    digest_bytes[31] = 0x01;
    let digest = Digest::new(digest_bytes);
    let client = CommsClient::new();

    let got = HintType::L2BlockHeader
        .get_preimage(&client, &mut k, &digest, PreimageKeyType::Keccak256)
        .expect("the mock host answers");
    assert_eq!(got, vec![0xaa, 0xbb, 0xcc]);

    let hint_text = format!("l2-block-header {}{}", "00".repeat(31), "01");
    let mut expected_hint = be64(hint_text.len() as u64);
    expected_hint.extend_from_slice(hint_text.as_bytes());
    assert_eq!(k.written_on(FileDescriptor::HintWrite), expected_hint);

    let mut expected_request = digest_bytes.to_vec();
    expected_request.push(2);
    assert_eq!(k.written_on(FileDescriptor::PreimageWrite), expected_request);
}

#[test]
fn hint_failure_stops_before_preimage_request() {
    let mut k = MockKernel::new();
    k.fail_writes_on = Some((FileDescriptor::HintWrite, 13));
    let client = CommsClient::new();
    let digest = Digest::new([0u8; 32]);
    let got = HintType::L1Blob.get_preimage(&client, &mut k, &digest, PreimageKeyType::Blob);
    assert_eq!(
        got,
        Err(OracleProviderError::Preimage(preimage_oracle::PreimageOracleError::HintWrite(
            ChannelError::Kernel(13)
        )))
    );
    assert_eq!(k.written_on(FileDescriptor::PreimageWrite), Vec::<u8>::new());
}

#[test]
fn get_exact_preimage_round_trip() {
    let mut k = MockKernel::new();
    let mut frame = be64(2);
    frame.extend_from_slice(&[0x11, 0x22]);
    k.script(FileDescriptor::PreimageRead, vec![Step::Data(frame)]);
    let client = CommsClient::new();
    let digest = Digest::new([7u8; 32]);
    let mut buf = vec![0u8; 2];
    HintType::L2Code
        .get_exact_preimage(&client, &mut k, &digest, PreimageKeyType::GlobalGeneric, &mut buf)
        .expect("lengths match");
    assert_eq!(buf, vec![0x11, 0x22]);
    let hint_text = format!("l2-code {}", "07".repeat(32));
    let mut expected_hint = be64(hint_text.len() as u64);
    expected_hint.extend_from_slice(hint_text.as_bytes());
    assert_eq!(k.written_on(FileDescriptor::HintWrite), expected_hint);
}
