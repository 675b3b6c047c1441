//! Downloads: the torrents that an instance has loaded.

use vstd::prelude::*;
use crate::error::RtorrentError;
use crate::file::File;
use crate::multicall::p;
use crate::multicall::typed::typed_reply;
use crate::peer::Peer;
use crate::request::{getter_request, setter_request, MethodCall};
use crate::server::Server;
use crate::tracker::Tracker;
use crate::value::{RemoteValue, ScalarType};
use crate::value_conversion::{string, string_spec};

verus! {

/// A loaded torrent, named by the instance that holds it and by its
/// infohash.
#[derive(Debug, PartialEq, Eq)]
pub struct Download {
    sha1_hex: String,
    server: Server,
}

impl Clone for Download {
    fn clone(&self) -> (r: Self)
        ensures
            r == *self,
    {
        Download { sha1_hex: self.sha1_hex.clone(), server: self.server.clone() }
    }
}

/// The number of handles that a count from the server stands for: a count
/// below zero stands for none.
pub open spec fn handle_count(num: int) -> nat {
    if num < 0 {
        0
    } else {
        num as nat
    }
}

impl Download {
    /// The instance that holds the download.
    pub closed spec fn home(&self) -> Server {
        self.server
    }

    /// The infohash of the download, in hex. It is also the key that
    /// addresses the download on the wire.
    pub closed spec fn hash(&self) -> Seq<char> {
        self.sha1_hex@
    }

    /// The download that a wire value names: the value must be a string, the
    /// infohash.
    pub fn from_value(server: &Server, val: &RemoteValue) -> (r: Result<Self, RtorrentError>)
        ensures
            match string_spec(*val) {
                Ok(s) => r matches Ok(d) && d.home() == *server && d.hash() == s@,
                Err(e) => r == Err::<Self, RtorrentError>(e),
            },
    {
        match string(val) {
            Ok(s) => Ok(Self::from_hash(server, s)),
            Err(e) => Err(e),
        }
    }

    /// The download with the infohash `hash` on `server`. Nothing is asked of
    /// the server: the infohash need not exist there.
    pub fn from_hash(server: &Server, hash: &str) -> (d: Self)
        ensures
            d.home() == *server,
            d.hash() == hash@,
    {
        Download { server: server.clone(), sha1_hex: hash.to_owned() }
    }

    /// The infohash of the download, in hex.
    pub fn sha1_hex(&self) -> (s: &str)
        ensures
            s@ == self.hash(),
    {
        self.sha1_hex.as_str()
    }

    /// The instance that holds the download.
    pub fn server(&self) -> (s: &Server)
        ensures
            *s == self.home(),
    {
        &self.server
    }

    /// The URL or socket path of the instance that holds the download.
    pub fn endpoint(&self) -> (e: &str)
        ensures
            e@ == self.home().address(),
    {
        self.server.endpoint()
    }

    /// The key that addresses the download on the wire: its infohash.
    pub fn key(&self) -> (k: String)
        ensures
            k@ == self.hash(),
    {
        self.sha1_hex.clone()
    }

    /// The key as the wire string that stands for the download in a call.
    pub fn to_value(&self) -> (v: RemoteValue)
        ensures
            v.is_text(self.hash()),
    {
        RemoteValue::String(self.sha1_hex.clone())
    }

    /// The call that reads the property `api` of the download: the accessor with
    /// the key of the download as its only argument.
    pub fn getter(&self, api: &str) -> (r: MethodCall)
        ensures
            r.is_call(api@, seq![self.hash()]),
    {
        getter_request(api, self.to_value())
    }

    /// The call that sets the property `api` of the download: the accessor
    /// followed by `.set`, with the key of the download and then the new value
    /// as its arguments.
    pub fn setter(&self, api: &str, value: RemoteValue) -> (r: MethodCall)
        ensures
            r.method@ == api@ + ".set"@,
            r.args@.len() == 2,
            r.args@[0].is_text(self.hash()),
            r.args@[1] == value,
    {
        setter_request(api, self.to_value(), value)
    }

    /// The query that asks for the identifier of every peer of the download.
    pub fn peers_query(&self) -> (q: p::MultiBuilder<(String,)>)
        ensures
            q.query_spec().target_server() == self.home(),
            q.query_spec().procedure() == "p.multicall"@,
            q.query_spec().target() == self.hash(),
            q.query_spec().filter() == ""@,
            q.query_spec().column_args() == seq!["p.id"@ + "="@],
            q.query_spec().column_types() == seq![ScalarType::String],
    {
        let empty = p::MultiBuilder::new(&self.server, self.sha1_hex.as_str());
        let q = empty.call(p::id());
        proof {
            assert(q.query_spec().column_args() =~= seq!["p.id"@ + "="@]);
            assert(q.query_spec().column_types() =~= seq![ScalarType::String]);
        }
        q
    }

    /// The peers of the download, from what the transport came back with for
    /// `peers_query`: one peer per row, in the order of the rows, named by the
    /// identifier in the row.
    pub fn peers(&self, outcome: Result<RemoteValue, xmlrpc::Error>) -> (r: Result<
        Vec<Peer>,
        RtorrentError,
    >)
        ensures
            match outcome {
                Err(e) => r == Err::<Vec<Peer>, RtorrentError>(RtorrentError::XmlRpc(e)),
                Ok(reply) => match typed_reply::<(String,)>(reply) {
                    Err(e) => r == Err::<Vec<Peer>, RtorrentError>(e),
                    Ok(rows) => r matches Ok(peers) && peers@.len() == rows.len() && forall|
                        i: int,
                    |
                        0 <= i < rows.len() ==> (#[trigger] peers@[i]).parent() == *self
                            && peers@[i].peer_hash() == rows[i].0@,
                },
            },
    {
        let query = self.peers_query();
        let rows = match query.invoke(outcome) {
            Ok(rows) => rows,
            Err(e) => { return Err(e); },
        };
        let mut peers: Vec<Peer> = Vec::new();
        let mut i: usize = 0;
        while i < rows.len()
            invariant
                i <= rows@.len(),
                peers@.len() == i,
                forall|h: int|
                    0 <= h < i ==> (#[trigger] peers@[h]).parent() == *self && peers@[h].peer_hash()
                        == rows@[h].0@,
            decreases rows@.len() - i,
        {
            peers.push(Peer::new(self.clone(), rows[i].0.as_str()));
            i += 1;
        }
        Ok(peers)
    }

    /// The files of the download, given their number `num` as the server
    /// reported it: the files with the indices from zero up to `num`.
    pub fn files(&self, num: i64) -> (r: Vec<File>)
        ensures
            r@.len() == handle_count(num as int),
            forall|i: int|
                0 <= i < r@.len() ==> (#[trigger] r@[i]).parent() == *self && r@[i].position() == i,
    {
        let mut files: Vec<File> = Vec::new();
        let mut i: i64 = 0;
        while i < num
            invariant
                0 <= i,
                i == 0 || i <= num,
                files@.len() == i,
                forall|h: int|
                    0 <= h < files@.len() ==> (#[trigger] files@[h]).parent() == *self
                        && files@[h].position() == h,
            decreases num - i,
        {
            files.push(File::new(self.clone(), i));
            i += 1;
        }
        files
    }

    /// The trackers of the download, given their number `num` as the server
    /// reported it: the trackers with the indices from zero up to `num`.
    pub fn trackers(&self, num: i64) -> (r: Vec<Tracker>)
        ensures
            r@.len() == handle_count(num as int),
            forall|i: int|
                0 <= i < r@.len() ==> (#[trigger] r@[i]).parent() == *self && r@[i].position() == i,
    {
        let mut trackers: Vec<Tracker> = Vec::new();
        let mut i: i64 = 0;
        while i < num
            invariant
                0 <= i,
                i == 0 || i <= num,
                trackers@.len() == i,
                forall|h: int|
                    0 <= h < trackers@.len() ==> (#[trigger] trackers@[h]).parent() == *self
                        && trackers@[h].position() == h,
            decreases num - i,
        {
            trackers.push(Tracker::new(self.clone(), i));
            i += 1;
        }
        trackers
    }
}

} // verus!
