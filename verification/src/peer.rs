//! The peers of a download.

use vstd::prelude::*;
use vstd::string::*;
use crate::download::Download;
use crate::request::{getter_request, setter_request, MethodCall};
use crate::value::RemoteValue;

verus! {

/// One peer in the swarm of a download, named by the download and the
/// identifier that rtorrent gave the peer.
#[derive(Debug, PartialEq, Eq)]
pub struct Peer {
    peer_sha1_hex: String,
    download: Download,
}

impl Clone for Peer {
    fn clone(&self) -> (r: Self)
        ensures
            r == *self,
    {
        Peer { peer_sha1_hex: self.peer_sha1_hex.clone(), download: self.download.clone() }
    }
}

impl Peer {
    /// The download the peer belongs to.
    pub closed spec fn parent(&self) -> Download {
        self.download
    }

    /// The identifier of the peer.
    pub closed spec fn peer_hash(&self) -> Seq<char> {
        self.peer_sha1_hex@
    }

    /// The key that addresses the peer on the wire: the infohash of the
    /// download, `:p`, and the identifier of the peer.
    pub open spec fn key_spec(&self) -> Seq<char> {
        self.parent().hash() + ":p"@ + self.peer_hash()
    }

    /// The peer of `download` with the identifier `peerhash`.
    pub fn new(download: Download, peerhash: &str) -> (p: Self)
        ensures
            p.parent() == download,
            p.peer_hash() == peerhash@,
    {
        Peer { download, peer_sha1_hex: peerhash.to_owned() }
    }

    /// The download the peer belongs to.
    pub fn download(&self) -> (d: &Download)
        ensures
            *d == self.parent(),
    {
        &self.download
    }

    /// The identifier of the peer.
    pub fn peer_sha1_hex(&self) -> (s: &str)
        ensures
            s@ == self.peer_hash(),
    {
        self.peer_sha1_hex.as_str()
    }

    /// The key that addresses the peer on the wire.
    pub fn key(&self) -> (k: String)
        ensures
            k@ == self.key_spec(),
    {
        let mut k = self.download.sha1_hex().to_owned();
        k.append(":p");
        k.append(self.peer_sha1_hex.as_str());
        k
    }

    /// The key as the wire string that stands for the peer in a call.
    pub fn to_value(&self) -> (v: RemoteValue)
        ensures
            v.is_text(self.key_spec()),
    {
        RemoteValue::String(self.key())
    }

    /// The call that reads the property `api` of the peer: the accessor with
    /// the key of the peer as its only argument.
    pub fn getter(&self, api: &str) -> (r: MethodCall)
        ensures
            r.is_call(api@, seq![self.key_spec()]),
    {
        getter_request(api, self.to_value())
    }

    /// The call that sets the property `api` of the peer: the accessor
    /// followed by `.set`, with the key of the peer and then the new value
    /// as its arguments.
    pub fn setter(&self, api: &str, value: RemoteValue) -> (r: MethodCall)
        ensures
            r.method@ == api@ + ".set"@,
            r.args@.len() == 2,
            r.args@[0].is_text(self.key_spec()),
            r.args@[1] == value,
    {
        setter_request(api, self.to_value(), value)
    }
}

} // verus!
