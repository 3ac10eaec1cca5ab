//! An asynchronous-style client core for the CQL native wire protocol.
//!
//! The crate contains the protocol logic of a connection: the frame codec,
//! the buffered frame channel, the startup/authentication handshake, the
//! stream multiplexer that matches out-of-order responses to their requests,
//! and the cursor-based pager.  All I/O is left to the caller: the types here
//! are poll-style state objects that consume byte-level events and hand back
//! frames and decisions.

pub mod authenticators;
pub mod body;
pub mod codec;
pub mod compression;
pub mod errors;
pub mod frame;
pub mod frame_channel;
pub mod get_compressor_trait;
pub mod load_balancer;
pub mod pager;
pub mod query;
pub mod requests;
pub mod rows;
pub mod session;

pub use authenticators::Authenticator;
pub use authenticators::NoneAuthenticator;
pub use authenticators::PasswordAuthenticator;
pub use compression::Compression;
pub use errors::DriverError;
pub use frame::Flag;
pub use frame::Frame;
pub use frame::Opcode;
pub use frame::Version;
pub use frame::prepare_flags;
pub use frame_channel::FrameChannel;
pub use pager::PageSize;
pub use pager::PagerState;
pub use query::Query;
pub use rows::CellValue;
pub use rows::Row;
pub use session::PreparedQuery;
pub use session::Session;
