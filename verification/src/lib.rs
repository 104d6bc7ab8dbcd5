//! Preimage oracle subsystem of a fault-proof client: the hint/preimage wire
//! protocol, the channel layer that guarantees full reads and writes over a
//! minimal kernel interface, and the typed hint vocabulary.

pub mod channel;
pub mod codec;
pub mod errors;
pub mod hint;
pub mod kernel;
pub mod oracle;

pub use channel::FileChannel;
pub use errors::ChannelError;
pub use errors::HintParsingError;
pub use errors::KernelError;
pub use errors::OracleProviderError;
pub use errors::PreimageOracleError;
pub use hint::Hint;
pub use hint::HintTag;
pub use hint::HintType;
pub use kernel::BasicKernelInterface;
pub use kernel::FileDescriptor;
pub use oracle::CommsClient;
pub use oracle::Digest;
pub use oracle::PreimageKey;
pub use oracle::PreimageKeyType;
