//! Multicalls over the downloads of a view, through `d.multicall2`.
//!
//! A query starts without columns. Each `call` adds one accessor of the
//! catalog below as the last column, and the type of the builder records the
//! native type of each column: `invoke` comes back with one tuple of
//! exactly these types per object.

use std::marker::PhantomData;
use vstd::prelude::*;
use crate::error::RtorrentError;
use crate::multicall::laws::adds_column;
use crate::multicall::typed::{invoke_typed, typed_reply, Append, Invocable, Row};
use crate::request::MethodCall;
use crate::server::Server;
use crate::value::{RemoteValue, ScalarType};
use crate::value_conversion::{FixedPoint, TryFromValue};

verus! {

/// A `d.*` accessor that can be a column of a query over downloads, with a result
/// of the native type `T`.
#[derive(Debug)]
pub struct DownloadMultiCallOp<T> {
    name: &'static str,
    phantom: PhantomData<T>,
}

impl<T: TryFromValue> DownloadMultiCallOp<T> {
    /// The name of the accessor on the wire.
    pub closed spec fn name_spec(&self) -> Seq<char> {
        self.name@
    }

    /// The name of the accessor on the wire.
    pub fn name(&self) -> (s: &'static str)
        ensures
            s@ == self.name_spec(),
    {
        self.name
    }

    /// The scalar type of the accessor's result.
    pub fn result_type(&self) -> (t: ScalarType)
        ensures
            t == T::scalar_type(),
    {
        T::type_tag()
    }
}

/// The infohash of the download, in hex.
pub fn hash() -> (op: DownloadMultiCallOp<String>)
    ensures
        op.name_spec() == "d.hash"@,
{
    DownloadMultiCallOp { name: "d.hash", phantom: PhantomData }
}

/// The name of the torrent.
pub fn name() -> (op: DownloadMultiCallOp<String>)
    ensures
        op.name_spec() == "d.name"@,
{
    DownloadMultiCallOp { name: "d.name", phantom: PhantomData }
}

/// The file or directory name of the download.
pub fn base_filename() -> (op: DownloadMultiCallOp<String>)
    ensures
        op.name_spec() == "d.base_filename"@,
{
    DownloadMultiCallOp { name: "d.base_filename", phantom: PhantomData }
}

/// The path of the download's file or directory.
pub fn base_path() -> (op: DownloadMultiCallOp<String>)
    ensures
        op.name_spec() == "d.base_path"@,
{
    DownloadMultiCallOp { name: "d.base_path", phantom: PhantomData }
}

/// The directory the download is stored in.
pub fn directory() -> (op: DownloadMultiCallOp<String>)
    ensures
        op.name_spec() == "d.directory"@,
{
    DownloadMultiCallOp { name: "d.directory", phantom: PhantomData }
}

/// The directory the download's base is stored in.
pub fn directory_base() -> (op: DownloadMultiCallOp<String>)
    ensures
        op.name_spec() == "d.directory_base"@,
{
    DownloadMultiCallOp { name: "d.directory_base", phantom: PhantomData }
}

/// The size of a chunk (piece), in bytes.
pub fn chunk_size() -> (op: DownloadMultiCallOp<i64>)
    ensures
        op.name_spec() == "d.chunk_size"@,
{
    DownloadMultiCallOp { name: "d.chunk_size", phantom: PhantomData }
}

/// Whether the download is complete.
pub fn complete() -> (op: DownloadMultiCallOp<bool>)
    ensures
        op.name_spec() == "d.complete"@,
{
    DownloadMultiCallOp { name: "d.complete", phantom: PhantomData }
}

/// Whether the download is incomplete.
pub fn incomplete() -> (op: DownloadMultiCallOp<bool>)
    ensures
        op.name_spec() == "d.incomplete"@,
{
    DownloadMultiCallOp { name: "d.incomplete", phantom: PhantomData }
}

/// The number of completed bytes.
pub fn completed_bytes() -> (op: DownloadMultiCallOp<i64>)
    ensures
        op.name_spec() == "d.completed_bytes"@,
{
    DownloadMultiCallOp { name: "d.completed_bytes", phantom: PhantomData }
}

/// The number of completed chunks.
pub fn completed_chunks() -> (op: DownloadMultiCallOp<i64>)
    ensures
        op.name_spec() == "d.completed_chunks"@,
{
    DownloadMultiCallOp { name: "d.completed_chunks", phantom: PhantomData }
}

/// The download rate, in bytes per second.
pub fn down_rate() -> (op: DownloadMultiCallOp<i64>)
    ensures
        op.name_spec() == "d.down.rate"@,
{
    DownloadMultiCallOp { name: "d.down.rate", phantom: PhantomData }
}

/// The total of downloaded bytes.
pub fn down_total() -> (op: DownloadMultiCallOp<i64>)
    ensures
        op.name_spec() == "d.down.total"@,
{
    DownloadMultiCallOp { name: "d.down.total", phantom: PhantomData }
}

/// Whether the download is active.
pub fn is_active() -> (op: DownloadMultiCallOp<bool>)
    ensures
        op.name_spec() == "d.is_active"@,
{
    DownloadMultiCallOp { name: "d.is_active", phantom: PhantomData }
}

/// Whether the download is open.
pub fn is_open() -> (op: DownloadMultiCallOp<bool>)
    ensures
        op.name_spec() == "d.is_open"@,
{
    DownloadMultiCallOp { name: "d.is_open", phantom: PhantomData }
}

/// Whether the download is closed.
pub fn is_closed() -> (op: DownloadMultiCallOp<bool>)
    ensures
        op.name_spec() == "d.is_closed"@,
{
    DownloadMultiCallOp { name: "d.is_closed", phantom: PhantomData }
}

/// The metafile the download was created from.
pub fn loaded_file() -> (op: DownloadMultiCallOp<String>)
    ensures
        op.name_spec() == "d.loaded_file"@,
{
    DownloadMultiCallOp { name: "d.loaded_file", phantom: PhantomData }
}

/// The last message of rtorrent or of the tracker.
pub fn message() -> (op: DownloadMultiCallOp<String>)
    ensures
        op.name_spec() == "d.message"@,
{
    DownloadMultiCallOp { name: "d.message", phantom: PhantomData }
}

/// The completed chunks, as a string of hex digits.
pub fn bitfield() -> (op: DownloadMultiCallOp<String>)
    ensures
        op.name_spec() == "d.bitfield"@,
{
    DownloadMultiCallOp { name: "d.bitfield", phantom: PhantomData }
}

/// The ratio of upload to download.
pub fn ratio() -> (op: DownloadMultiCallOp<FixedPoint>)
    ensures
        op.name_spec() == "d.ratio"@,
{
    DownloadMultiCallOp { name: "d.ratio", phantom: PhantomData }
}

/// The size of the contents, in bytes.
pub fn size_bytes() -> (op: DownloadMultiCallOp<i64>)
    ensures
        op.name_spec() == "d.size_bytes"@,
{
    DownloadMultiCallOp { name: "d.size_bytes", phantom: PhantomData }
}

/// The bytes left to download.
pub fn left_bytes() -> (op: DownloadMultiCallOp<i64>)
    ensures
        op.name_spec() == "d.left_bytes"@,
{
    DownloadMultiCallOp { name: "d.left_bytes", phantom: PhantomData }
}

/// The number of files.
pub fn size_files() -> (op: DownloadMultiCallOp<i64>)
    ensures
        op.name_spec() == "d.size_files"@,
{
    DownloadMultiCallOp { name: "d.size_files", phantom: PhantomData }
}

/// Whether the download is started.
pub fn state() -> (op: DownloadMultiCallOp<bool>)
    ensures
        op.name_spec() == "d.state"@,
{
    DownloadMultiCallOp { name: "d.state", phantom: PhantomData }
}

/// The file the download is tied to.
pub fn tied_to_file() -> (op: DownloadMultiCallOp<String>)
    ensures
        op.name_spec() == "d.tied_to_file"@,
{
    DownloadMultiCallOp { name: "d.tied_to_file", phantom: PhantomData }
}

/// The number of trackers.
pub fn tracker_size() -> (op: DownloadMultiCallOp<i64>)
    ensures
        op.name_spec() == "d.tracker_size"@,
{
    DownloadMultiCallOp { name: "d.tracker_size", phantom: PhantomData }
}

/// The upload rate, in bytes per second.
pub fn up_rate() -> (op: DownloadMultiCallOp<i64>)
    ensures
        op.name_spec() == "d.up.rate"@,
{
    DownloadMultiCallOp { name: "d.up.rate", phantom: PhantomData }
}

/// The total of uploaded bytes.
pub fn up_total() -> (op: DownloadMultiCallOp<i64>)
    ensures
        op.name_spec() == "d.up.total"@,
{
    DownloadMultiCallOp { name: "d.up.total", phantom: PhantomData }
}

/// The name of the download's group.
pub fn group_name() -> (op: DownloadMultiCallOp<String>)
    ensures
        op.name_spec() == "d.group.name"@,
{
    DownloadMultiCallOp { name: "d.group.name", phantom: PhantomData }
}

/// The creation date of the torrent, as a timestamp.
pub fn creation_date() -> (op: DownloadMultiCallOp<i64>)
    ensures
        op.name_spec() == "d.creation_date"@,
{
    DownloadMultiCallOp { name: "d.creation_date", phantom: PhantomData }
}

/// When the torrent was loaded, as a timestamp.
pub fn load_date() -> (op: DownloadMultiCallOp<i64>)
    ensures
        op.name_spec() == "d.load_date"@,
{
    DownloadMultiCallOp { name: "d.load_date", phantom: PhantomData }
}

/// A query across the downloads of a view, with rows of the type `R`.
///
/// Only `d.*` accessors can become its columns, and the declared
/// types of its columns are always those of `R`.
#[derive(Debug)]
pub struct MultiBuilder<R: Row> {
    inner: crate::multicall::MultiBuilder,
    row: PhantomData<R>,
}

impl MultiBuilder<()> {
    /// Starts a query over the downloads of the view `view` on `server`.
    pub fn new(server: &Server, view: &str) -> (b: Self)
        ensures
            b.query_spec().target_server() == *server,
            b.query_spec().procedure() == "d.multicall2"@,
            b.query_spec().target() == ""@,
            b.query_spec().filter() == view@,
            b.query_spec().column_args() == Seq::<Seq<char>>::empty(),
            b.query_spec().column_types() == Seq::<ScalarType>::empty(),
    {
        let inner = crate::multicall::MultiBuilder::new(server, "d.multicall2", "", view);
        MultiBuilder { inner, row: PhantomData }
    }
}

impl<R: Row> MultiBuilder<R> {
    #[verifier::type_invariant]
    spec fn declares_its_row(self) -> bool {
        self.inner.column_types() == R::types()
    }

    /// The query that was built so far.
    pub closed spec fn query_spec(&self) -> crate::multicall::MultiBuilder {
        self.inner
    }

    /// Adds the accessor `getter` as the last column. The columns that were
    /// there stay, in their order, and so does the scope; the row type grows
    /// by the native type of the accessor's result.
    pub fn call<T: TryFromValue>(self, getter: DownloadMultiCallOp<T>) -> (b: MultiBuilder<R::Longer>) where
        R: Append<T>,

        ensures
            adds_column(self.query_spec(), b.query_spec(), getter.name_spec(), T::scalar_type()),
            b.query_spec().column_types() == R::Longer::types(),
    {
        proof {
            use_type_invariant(&self);
            R::lemma_longer();
        }
        let inner = self.inner.call(getter.name(), getter.result_type());
        MultiBuilder { inner, row: PhantomData }
    }

    /// The query that was built so far. The declared types of its columns
    /// are those of the row type.
    pub fn query(&self) -> (q: &crate::multicall::MultiBuilder)
        ensures
            *q == self.query_spec(),
            q.column_types() == R::types(),
    {
        proof {
            use_type_invariant(self);
        }
        &self.inner
    }

    /// The one call that carries the query.
    pub fn as_request(&self) -> (req: MethodCall)
        ensures
            req.is_call(
                self.query_spec().procedure(),
                seq![self.query_spec().target(), self.query_spec().filter()]
                    + self.query_spec().column_args(),
            ),
    {
        self.inner.as_request()
    }
}

impl<R: Invocable> MultiBuilder<R> {
    /// Finishes the query with what the transport came back with: a failed
    /// call is handed on as it is; a reply becomes one tuple per object, with
    /// one value per column, or the error of the first value or row that does
    /// not fit.
    pub fn invoke(&self, outcome: Result<RemoteValue, xmlrpc::Error>) -> (r: Result<
        Vec<R>,
        RtorrentError,
    >)
        ensures
            match outcome {
                Err(e) => r == Err::<Vec<R>, RtorrentError>(RtorrentError::XmlRpc(e)),
                Ok(reply) => match typed_reply::<R>(reply) {
                    Ok(rows) => r matches Ok(decoded) && decoded@ == rows,
                    Err(e) => r == Err::<Vec<R>, RtorrentError>(e),
                },
            },
    {
        invoke_typed::<R>(outcome)
    }
}

} // verus!
