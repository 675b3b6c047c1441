//! Multicalls over the peers of a download, through `p.multicall`.
//!
//! A query starts without columns. Each `call` adds one accessor of the
//! catalog below as the last column, and the type of the builder records the
//! native type of each column: `invoke` comes back with one tuple of
//! exactly these types per object.

use std::marker::PhantomData;
use vstd::prelude::*;
use crate::error::RtorrentError;
use crate::multicall::laws::adds_column;
use crate::multicall::typed::{invoke_typed, typed_reply, Append, Invocable, Row};
use crate::request::MethodCall;
use crate::server::Server;
use crate::value::{RemoteValue, ScalarType};
use crate::value_conversion::TryFromValue;

verus! {

/// A `p.*` accessor that can be a column of a query over peers, with a result
/// of the native type `T`.
#[derive(Debug)]
pub struct PeerMultiCallOp<T> {
    name: &'static str,
    phantom: PhantomData<T>,
}

impl<T: TryFromValue> PeerMultiCallOp<T> {
    /// The name of the accessor on the wire.
    pub closed spec fn name_spec(&self) -> Seq<char> {
        self.name@
    }

    /// The name of the accessor on the wire.
    pub fn name(&self) -> (s: &'static str)
        ensures
            s@ == self.name_spec(),
    {
        self.name
    }

    /// The scalar type of the accessor's result.
    pub fn result_type(&self) -> (t: ScalarType)
        ensures
            t == T::scalar_type(),
    {
        T::type_tag()
    }
}

/// The IP address of the peer.
pub fn address() -> (op: PeerMultiCallOp<String>)
    ensures
        op.name_spec() == "p.address"@,
{
    PeerMultiCallOp { name: "p.address", phantom: PhantomData }
}

/// Whether the peer is banned.
pub fn banned() -> (op: PeerMultiCallOp<bool>)
    ensures
        op.name_spec() == "p.banned"@,
{
    PeerMultiCallOp { name: "p.banned", phantom: PhantomData }
}

/// The client of the peer, as far as rtorrent recognizes it.
pub fn client_version() -> (op: PeerMultiCallOp<String>)
    ensures
        op.name_spec() == "p.client_version"@,
{
    PeerMultiCallOp { name: "p.client_version", phantom: PhantomData }
}

/// The percentage of the download that the peer reports as completed.
pub fn completed_percent() -> (op: PeerMultiCallOp<i64>)
    ensures
        op.name_spec() == "p.completed_percent"@,
{
    PeerMultiCallOp { name: "p.completed_percent", phantom: PhantomData }
}

/// The download rate from the peer, in bytes per second.
pub fn down_rate() -> (op: PeerMultiCallOp<i64>)
    ensures
        op.name_spec() == "p.down_rate"@,
{
    PeerMultiCallOp { name: "p.down_rate", phantom: PhantomData }
}

/// The total of bytes downloaded from the peer.
pub fn down_total() -> (op: PeerMultiCallOp<i64>)
    ensures
        op.name_spec() == "p.down_total"@,
{
    PeerMultiCallOp { name: "p.down_total", phantom: PhantomData }
}

/// The identifier that rtorrent gave the peer.
pub fn id() -> (op: PeerMultiCallOp<String>)
    ensures
        op.name_spec() == "p.id"@,
{
    PeerMultiCallOp { name: "p.id", phantom: PhantomData }
}

/// The client identifier that the peer sent, URL-encoded.
pub fn id_html() -> (op: PeerMultiCallOp<String>)
    ensures
        op.name_spec() == "p.id_html"@,
{
    PeerMultiCallOp { name: "p.id_html", phantom: PhantomData }
}

/// Whether the connection is encrypted.
pub fn is_encrypted() -> (op: PeerMultiCallOp<bool>)
    ensures
        op.name_spec() == "p.is_encrypted"@,
{
    PeerMultiCallOp { name: "p.is_encrypted", phantom: PhantomData }
}

/// Whether the peer opened the connection.
pub fn is_incoming() -> (op: PeerMultiCallOp<bool>)
    ensures
        op.name_spec() == "p.is_incoming"@,
{
    PeerMultiCallOp { name: "p.is_incoming", phantom: PhantomData }
}

/// Whether the connection is obfuscated.
pub fn is_obfuscated() -> (op: PeerMultiCallOp<bool>)
    ensures
        op.name_spec() == "p.is_obfuscated"@,
{
    PeerMultiCallOp { name: "p.is_obfuscated", phantom: PhantomData }
}

/// Whether the peer is preferred.
pub fn is_preferred() -> (op: PeerMultiCallOp<bool>)
    ensures
        op.name_spec() == "p.is_preferred"@,
{
    PeerMultiCallOp { name: "p.is_preferred", phantom: PhantomData }
}

/// Whether the peer is unwanted.
pub fn is_unwanted() -> (op: PeerMultiCallOp<bool>)
    ensures
        op.name_spec() == "p.is_unwanted"@,
{
    PeerMultiCallOp { name: "p.is_unwanted", phantom: PhantomData }
}

/// The estimated download rate of the peer from the whole swarm.
pub fn peer_rate() -> (op: PeerMultiCallOp<i64>)
    ensures
        op.name_spec() == "p.peer_rate"@,
{
    PeerMultiCallOp { name: "p.peer_rate", phantom: PhantomData }
}

/// The estimated download total of the peer from the whole swarm.
pub fn peer_total() -> (op: PeerMultiCallOp<i64>)
    ensures
        op.name_spec() == "p.peer_total"@,
{
    PeerMultiCallOp { name: "p.peer_total", phantom: PhantomData }
}

/// The remote port of the connection.
pub fn port() -> (op: PeerMultiCallOp<i64>)
    ensures
        op.name_spec() == "p.port"@,
{
    PeerMultiCallOp { name: "p.port", phantom: PhantomData }
}

/// Whether the peer is snubbed.
pub fn snubbed() -> (op: PeerMultiCallOp<bool>)
    ensures
        op.name_spec() == "p.snubbed"@,
{
    PeerMultiCallOp { name: "p.snubbed", phantom: PhantomData }
}

/// The upload rate to the peer, in bytes per second.
pub fn up_rate() -> (op: PeerMultiCallOp<i64>)
    ensures
        op.name_spec() == "p.up_rate"@,
{
    PeerMultiCallOp { name: "p.up_rate", phantom: PhantomData }
}

/// The total of bytes uploaded to the peer.
pub fn up_total() -> (op: PeerMultiCallOp<i64>)
    ensures
        op.name_spec() == "p.up_total"@,
{
    PeerMultiCallOp { name: "p.up_total", phantom: PhantomData }
}

/// A query across the peers of a download, with rows of the type `R`.
///
/// Only `p.*` accessors can become its columns, and the declared
/// types of its columns are always those of `R`.
#[derive(Debug)]
pub struct MultiBuilder<R: Row> {
    inner: crate::multicall::MultiBuilder,
    row: PhantomData<R>,
}

impl MultiBuilder<()> {
    /// Starts a query over the peers of the download with the infohash
    /// `download_sha1` on `server`.
    pub fn new(server: &Server, download_sha1: &str) -> (b: Self)
        ensures
            b.query_spec().target_server() == *server,
            b.query_spec().procedure() == "p.multicall"@,
            b.query_spec().target() == download_sha1@,
            b.query_spec().filter() == ""@,
            b.query_spec().column_args() == Seq::<Seq<char>>::empty(),
            b.query_spec().column_types() == Seq::<ScalarType>::empty(),
    {
        let inner = crate::multicall::MultiBuilder::new(server, "p.multicall", download_sha1, "");
        MultiBuilder { inner, row: PhantomData }
    }
}

impl<R: Row> MultiBuilder<R> {
    #[verifier::type_invariant]
    spec fn declares_its_row(self) -> bool {
        self.inner.column_types() == R::types()
    }

    /// The query that was built so far.
    pub closed spec fn query_spec(&self) -> crate::multicall::MultiBuilder {
        self.inner
    }

    /// Adds the accessor `getter` as the last column. The columns that were
    /// there stay, in their order, and so does the scope; the row type grows
    /// by the native type of the accessor's result.
    pub fn call<T: TryFromValue>(self, getter: PeerMultiCallOp<T>) -> (b: MultiBuilder<R::Longer>) where
        R: Append<T>,

        ensures
            adds_column(self.query_spec(), b.query_spec(), getter.name_spec(), T::scalar_type()),
            b.query_spec().column_types() == R::Longer::types(),
    {
        proof {
            use_type_invariant(&self);
            R::lemma_longer();
        }
        let inner = self.inner.call(getter.name(), getter.result_type());
        MultiBuilder { inner, row: PhantomData }
    }

    /// The query that was built so far. The declared types of its columns
    /// are those of the row type.
    pub fn query(&self) -> (q: &crate::multicall::MultiBuilder)
        ensures
            *q == self.query_spec(),
            q.column_types() == R::types(),
    {
        proof {
            use_type_invariant(self);
        }
        &self.inner
    }

    /// The one call that carries the query.
    pub fn as_request(&self) -> (req: MethodCall)
        ensures
            req.is_call(
                self.query_spec().procedure(),
                seq![self.query_spec().target(), self.query_spec().filter()]
                    + self.query_spec().column_args(),
            ),
    {
        self.inner.as_request()
    }
}

impl<R: Invocable> MultiBuilder<R> {
    /// Finishes the query with what the transport came back with: a failed
    /// call is handed on as it is; a reply becomes one tuple per object, with
    /// one value per column, or the error of the first value or row that does
    /// not fit.
    pub fn invoke(&self, outcome: Result<RemoteValue, xmlrpc::Error>) -> (r: Result<
        Vec<R>,
        RtorrentError,
    >)
        ensures
            match outcome {
                Err(e) => r == Err::<Vec<R>, RtorrentError>(RtorrentError::XmlRpc(e)),
                Ok(reply) => match typed_reply::<R>(reply) {
                    Ok(rows) => r matches Ok(decoded) && decoded@ == rows,
                    Err(e) => r == Err::<Vec<R>, RtorrentError>(e),
                },
            },
    {
        invoke_typed::<R>(outcome)
    }
}

} // verus!
