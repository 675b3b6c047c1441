//! Typed bindings for the rtorrent XML-RPC interface.
//!
//! The crate holds the rules of the protocol: how wire values decode into
//! native scalars, how a batch query ("multicall") is assembled column by
//! column and how its reply is re-associated with the declared columns, how
//! remote objects are addressed, and how a request is framed for a local
//! socket. Sending a request is left to the caller: a function here says
//! what to send, and another what the reply means.
//!
//! ```ignore
//! let server = Server::new("http://1.2.3.4/RPC2");
//! let query = d::MultiBuilder::new(&server, "default").call(d::name()).call(d::size_bytes());
//! let request = query.as_request();
//! // ... send `request`, receive `outcome` ...
//! let rows: Vec<(String, i64)> = query.invoke(outcome)?;
//! ```

pub mod value;
pub mod error;
pub mod value_conversion;
pub mod text;
pub mod scgi;
pub mod server;
pub mod request;
pub mod multicall;
pub mod download;
pub mod file;
pub mod peer;
pub mod tracker;

pub use download::Download;
pub use error::RtorrentError;
pub use file::File;
pub use peer::Peer;
pub use server::Server;
pub use tracker::Tracker;
pub use value::RemoteValue;
pub use value_conversion::TryFromValue;
