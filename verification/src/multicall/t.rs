//! Multicalls over the trackers of a download, through `t.multicall`.
//!
//! A query starts without columns. Each `call` adds one accessor of the
//! catalog below as the last column, and the type of the builder records the
//! native type of each column: `invoke` comes back with one tuple of
//! exactly these types per object.

use std::marker::PhantomData;
use vstd::prelude::*;
use crate::error::RtorrentError;
use crate::multicall::laws::adds_column;
use crate::multicall::typed::{invoke_typed, typed_reply, Append, Invocable, Row};
use crate::request::MethodCall;
use crate::server::Server;
use crate::value::{RemoteValue, ScalarType};
use crate::value_conversion::TryFromValue;

verus! {

/// A `t.*` accessor that can be a column of a query over trackers, with a result
/// of the native type `T`.
#[derive(Debug)]
pub struct TrackerMultiCallOp<T> {
    name: &'static str,
    phantom: PhantomData<T>,
}

impl<T: TryFromValue> TrackerMultiCallOp<T> {
    /// The name of the accessor on the wire.
    pub closed spec fn name_spec(&self) -> Seq<char> {
        self.name@
    }

    /// The name of the accessor on the wire.
    pub fn name(&self) -> (s: &'static str)
        ensures
            s@ == self.name_spec(),
    {
        self.name
    }

    /// The scalar type of the accessor's result.
    pub fn result_type(&self) -> (t: ScalarType)
        ensures
            t == T::scalar_type(),
    {
        T::type_tag()
    }
}

/// The URL of the tracker.
pub fn url() -> (op: TrackerMultiCallOp<String>)
    ensures
        op.name_spec() == "t.url"@,
{
    TrackerMultiCallOp { name: "t.url", phantom: PhantomData }
}

/// When rtorrent last tried to reach the tracker.
pub fn activity_time_last() -> (op: TrackerMultiCallOp<i64>)
    ensures
        op.name_spec() == "t.activity_time_last"@,
{
    TrackerMultiCallOp { name: "t.activity_time_last", phantom: PhantomData }
}

/// When rtorrent will next try to reach the tracker.
pub fn activity_time_next() -> (op: TrackerMultiCallOp<i64>)
    ensures
        op.name_spec() == "t.activity_time_next"@,
{
    TrackerMultiCallOp { name: "t.activity_time_next", phantom: PhantomData }
}

/// The group of the tracker.
pub fn group() -> (op: TrackerMultiCallOp<i64>)
    ensures
        op.name_spec() == "t.group"@,
{
    TrackerMultiCallOp { name: "t.group", phantom: PhantomData }
}

/// The identifier of the tracker.
pub fn id() -> (op: TrackerMultiCallOp<String>)
    ensures
        op.name_spec() == "t.id"@,
{
    TrackerMultiCallOp { name: "t.id", phantom: PhantomData }
}

/// The number of peers that the last scrape returned.
pub fn latest_sum_peers() -> (op: TrackerMultiCallOp<i64>)
    ensures
        op.name_spec() == "t.latest_sum_peers"@,
{
    TrackerMultiCallOp { name: "t.latest_sum_peers", phantom: PhantomData }
}

/// A query across the trackers of a download, with rows of the type `R`.
///
/// Only `t.*` accessors can become its columns, and the declared
/// types of its columns are always those of `R`.
#[derive(Debug)]
pub struct MultiBuilder<R: Row> {
    inner: crate::multicall::MultiBuilder,
    row: PhantomData<R>,
}

impl MultiBuilder<()> {
    /// Starts a query over the trackers of the download with the infohash
    /// `download_sha1` on `server`.
    pub fn new(server: &Server, download_sha1: &str) -> (b: Self)
        ensures
            b.query_spec().target_server() == *server,
            b.query_spec().procedure() == "t.multicall"@,
            b.query_spec().target() == download_sha1@,
            b.query_spec().filter() == ""@,
            b.query_spec().column_args() == Seq::<Seq<char>>::empty(),
            b.query_spec().column_types() == Seq::<ScalarType>::empty(),
    {
        let inner = crate::multicall::MultiBuilder::new(server, "t.multicall", download_sha1, "");
        MultiBuilder { inner, row: PhantomData }
    }
}

impl<R: Row> MultiBuilder<R> {
    #[verifier::type_invariant]
    spec fn declares_its_row(self) -> bool {
        self.inner.column_types() == R::types()
    }

    /// The query that was built so far.
    pub closed spec fn query_spec(&self) -> crate::multicall::MultiBuilder {
        self.inner
    }

    /// Adds the accessor `getter` as the last column. The columns that were
    /// there stay, in their order, and so does the scope; the row type grows
    /// by the native type of the accessor's result.
    pub fn call<T: TryFromValue>(self, getter: TrackerMultiCallOp<T>) -> (b: MultiBuilder<R::Longer>) where
        R: Append<T>,

        ensures
            adds_column(self.query_spec(), b.query_spec(), getter.name_spec(), T::scalar_type()),
            b.query_spec().column_types() == R::Longer::types(),
    {
        proof {
            use_type_invariant(&self);
            R::lemma_longer();
        }
        let inner = self.inner.call(getter.name(), getter.result_type());
        MultiBuilder { inner, row: PhantomData }
    }

    /// The query that was built so far. The declared types of its columns
    /// are those of the row type.
    pub fn query(&self) -> (q: &crate::multicall::MultiBuilder)
        ensures
            *q == self.query_spec(),
            q.column_types() == R::types(),
    {
        proof {
            use_type_invariant(self);
        }
        &self.inner
    }

    /// The one call that carries the query.
    pub fn as_request(&self) -> (req: MethodCall)
        ensures
            req.is_call(
                self.query_spec().procedure(),
                seq![self.query_spec().target(), self.query_spec().filter()]
                    + self.query_spec().column_args(),
            ),
    {
        self.inner.as_request()
    }
}

impl<R: Invocable> MultiBuilder<R> {
    /// Finishes the query with what the transport came back with: a failed
    /// call is handed on as it is; a reply becomes one tuple per object, with
    /// one value per column, or the error of the first value or row that does
    /// not fit.
    pub fn invoke(&self, outcome: Result<RemoteValue, xmlrpc::Error>) -> (r: Result<
        Vec<R>,
        RtorrentError,
    >)
        ensures
            match outcome {
                Err(e) => r == Err::<Vec<R>, RtorrentError>(RtorrentError::XmlRpc(e)),
                Ok(reply) => match typed_reply::<R>(reply) {
                    Ok(rows) => r matches Ok(decoded) && decoded@ == rows,
                    Err(e) => r == Err::<Vec<R>, RtorrentError>(e),
                },
            },
    {
        invoke_typed::<R>(outcome)
    }
}

} // verus!
