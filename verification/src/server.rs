//! The rtorrent instance that calls are made against.

use vstd::prelude::*;
use crate::download::Download;
use crate::error::RtorrentError;
use crate::request::MethodCall;
use crate::scgi::UnixSocketTransport;
use crate::text::{has_prefix, starts_with};
use crate::value::RemoteValue;
use crate::value_conversion::{list, list_spec, string_spec};

verus! {

/// How an instance is reached: over HTTP at a URL, or through a local socket.
#[derive(Debug, PartialEq, Eq)]
pub enum Endpoint {
    Http(String),
    Scgi(UnixSocketTransport),
}

/// A logical rtorrent instance.
#[derive(Debug, PartialEq, Eq)]
pub struct Server {
    endpoint: Endpoint,
}

impl Clone for Endpoint {
    fn clone(&self) -> (r: Self)
        ensures
            r == *self,
    {
        match self {
            Endpoint::Http(url) => Endpoint::Http(url.clone()),
            Endpoint::Scgi(transport) => Endpoint::Scgi(transport.clone()),
        }
    }
}

impl Clone for Server {
    fn clone(&self) -> (r: Self)
        ensures
            r == *self,
    {
        Server { endpoint: self.endpoint.clone() }
    }
}

/// The infohashes that the items of a download list spell, in order: each
/// item must be a string, and the error is that of the first one that is
/// not.
pub open spec fn decode_hashes(items: Seq<RemoteValue>) -> Result<Seq<Seq<char>>, RtorrentError>
    decreases items.len(),
{
    if items.len() == 0 {
        Ok(Seq::empty())
    } else {
        match decode_hashes(items.drop_last()) {
            Err(e) => Err(e),
            Ok(front) => match string_spec(items.last()) {
                Err(e) => Err(e),
                Ok(hash) => Ok(front.push(hash@)),
            },
        }
    }
}

/// Once an item has failed, the list fails with that error however many
/// items follow.
pub proof fn lemma_hashes_error_stays(items: Seq<RemoteValue>, n: int)
    requires
        0 <= n <= items.len(),
        decode_hashes(items.take(n)) is Err,
    ensures
        decode_hashes(items) == decode_hashes(items.take(n)),
    decreases items.len() - n,
{
    if n == items.len() {
        assert(items.take(n) =~= items);
    } else {
        assert(items.take(n + 1).drop_last() =~= items.take(n));
        lemma_hashes_error_stays(items, n + 1);
    }
}

/// A download list decodes exactly if each of its items is a string; the
/// result then holds the text of each item at its place, and otherwise the
/// error is that of the first item that is no string.
pub proof fn lemma_decode_hashes(items: Seq<RemoteValue>)
    ensures
        decode_hashes(items) is Ok <==> forall|i: int|
            0 <= i < items.len() ==> (#[trigger] items[i]) is String,
        decode_hashes(items) matches Ok(out) ==> out.len() == items.len() && forall|i: int|
            0 <= i < items.len() ==> (#[trigger] items[i]).is_text(out[i]),
        decode_hashes(items) matches Err(e) ==> exists|i: int|
            0 <= i < items.len() && string_spec(#[trigger] items[i]) == Err::<
                String,
                RtorrentError,
            >(e) && forall|h: int| 0 <= h < i ==> (#[trigger] items[h]) is String,
    decreases items.len(),
{
    if items.len() > 0 {
        let front = items.drop_last();
        let last: int = items.len() - 1;
        lemma_decode_hashes(front);
        assert forall|i: int| 0 <= i < last implies front[i] == items[i] by {}
        match decode_hashes(front) {
            Ok(out) => {
                assert forall|i: int| 0 <= i < last implies (#[trigger] items[i]).is_text(
                    out[i],
                ) by {
                    assert(front[i].is_text(out[i]));
                }
                assert forall|i: int| 0 <= i < last implies (#[trigger] items[i]) is String by {
                    assert(front[i] is String);
                }
                match string_spec(items.last()) {
                    Ok(hash) => {},
                    Err(e) => {
                        assert(string_spec(items[last]) == Err::<String, RtorrentError>(e));
                    },
                }
            },
            Err(e) => {
                let i = choose|i: int|
                    0 <= i < front.len() && string_spec(#[trigger] front[i]) == Err::<
                        String,
                        RtorrentError,
                    >(e) && forall|h: int| 0 <= h < i ==> (#[trigger] front[h]) is String;
                assert(string_spec(items[i]) == Err::<String, RtorrentError>(e));
                assert forall|h: int| 0 <= h < i implies (#[trigger] items[h]) is String by {
                    assert(front[h] is String);
                }
                assert(!(items[i] is String));
            },
        }
    }
}

impl Server {
    /// Whether the instance is reached over HTTP.
    pub closed spec fn is_http(&self) -> bool {
        self.endpoint is Http
    }

    /// The URL, or the path of the socket, that the instance was named by.
    pub closed spec fn address(&self) -> Seq<char> {
        match self.endpoint {
            Endpoint::Http(url) => url@,
            Endpoint::Scgi(transport) => transport.path(),
        }
    }

    /// Names an instance. An address that begins with `http://` is a URL;
    /// any other is the path of a local socket.
    pub fn new(endpoint: &str) -> (s: Self)
        ensures
            s.address() == endpoint@,
            s.is_http() == has_prefix(endpoint@, "http://"@),
    {
        Server {
            endpoint: if starts_with(endpoint, "http://") {
                Endpoint::Http(endpoint.to_owned())
            } else {
                Endpoint::Scgi(UnixSocketTransport::new(endpoint))
            },
        }
    }

    /// How the instance is reached.
    pub fn transport(&self) -> (e: &Endpoint)
        ensures
            e is Http == self.is_http(),
            match *e {
                Endpoint::Http(url) => url@ == self.address(),
                Endpoint::Scgi(transport) => transport.path() == self.address(),
            },
    {
        &self.endpoint
    }

    /// The call that asks for every download of the instance.
    pub fn download_list_request(&self) -> (r: MethodCall)
        ensures
            r.is_call("download_list"@, Seq::empty()),
    {
        MethodCall::new("download_list")
    }

    /// The downloads of the instance, from what the transport came back with
    /// for `download_list_request`: one download per item of the list, in
    /// the order of the list, named by the infohash in the item.
    pub fn download_list(&self, outcome: Result<RemoteValue, xmlrpc::Error>) -> (r: Result<
        Vec<Download>,
        RtorrentError,
    >)
        ensures
            match outcome {
                Err(e) => r == Err::<Vec<Download>, RtorrentError>(RtorrentError::XmlRpc(e)),
                Ok(reply) => match list_spec(reply) {
                    Err(e) => r == Err::<Vec<Download>, RtorrentError>(e),
                    Ok(items) => match decode_hashes(items) {
                        Err(e) => r == Err::<Vec<Download>, RtorrentError>(e),
                        Ok(hashes) => r matches Ok(downloads) && downloads@.len() == hashes.len()
                            && forall|i: int|
                            0 <= i < hashes.len() ==> (#[trigger] downloads@[i]).home() == *self
                                && downloads@[i].hash() == hashes[i],
                    },
                },
            },
    {
        let reply = match outcome {
            Ok(reply) => reply,
            Err(e) => { return Err(RtorrentError::XmlRpc(e)); },
        };
        let items = match list(&reply) {
            Ok(items) => items,
            Err(e) => { return Err(e); },
        };
        let ghost hashes_so_far: Seq<Seq<char>> = Seq::empty();
        let mut downloads: Vec<Download> = Vec::new();
        let mut i: usize = 0;
        while i < items.len()
            invariant
                i <= items@.len(),
                outcome == Ok::<RemoteValue, xmlrpc::Error>(reply),
                reply == RemoteValue::Array(*items),
                decode_hashes(items@.take(i as int)) == Ok::<Seq<Seq<char>>, RtorrentError>(
                    hashes_so_far,
                ),
                hashes_so_far.len() == i,
                downloads@.len() == i,
                forall|h: int|
                    0 <= h < i ==> (#[trigger] downloads@[h]).home() == *self && downloads@[h].hash()
                        == hashes_so_far[h],
            decreases items@.len() - i,
        {
            proof {
                assert(items@.take(i + 1).drop_last() =~= items@.take(i as int));
                assert(items@.take(i + 1).last() == items@[i as int]);
            }
            match Download::from_value(self, &items[i]) {
                Ok(download) => {
                    proof {
                        hashes_so_far = hashes_so_far.push(download.hash());
                    }
                    downloads.push(download);
                },
                Err(e) => {
                    proof {
                        lemma_hashes_error_stays(items@, i + 1);
                    }
                    return Err(e);
                },
            }
            i += 1;
        }
        proof {
            assert(items@.take(i as int) =~= items@);
        }
        Ok(downloads)
    }

    /// The name of the procedure that loads a torrent from a URL or a magnet
    /// link, and starts it if `start` is set.
    pub open spec fn load_url_procedure(start: bool) -> Seq<char> {
        if start {
            "load.start_verbose"@
        } else {
            "load.verbose"@
        }
    }

    /// The name of the procedure that loads a torrent from the contents of
    /// its metafile, and starts it if `start` is set.
    pub open spec fn load_bytes_procedure(start: bool) -> Seq<char> {
        if start {
            "load.raw_start_verbose"@
        } else {
            "load.raw_verbose"@
        }
    }

    /// The call that adds a torrent from a URL or a magnet link: an empty
    /// target, then the link. The reply decodes as an integer.
    pub fn load_torrent_url(&self, link: &str, start: bool) -> (r: MethodCall)
        ensures
            r.is_call(Self::load_url_procedure(start), seq![""@, link@]),
    {
        let load = if start {
            "load.start_verbose"
        } else {
            "load.verbose"
        };
        MethodCall::new(load).arg(RemoteValue::String("".to_owned())).arg(
            RemoteValue::String(link.to_owned()),
        )
    }

    /// The call that adds a torrent from the contents of its metafile: an
    /// empty target, then the contents as binary data. The reply decodes as
    /// an integer.
    pub fn load_torrent_bytes(&self, contents: &[u8], start: bool) -> (r: MethodCall)
        ensures
            r.method@ == Self::load_bytes_procedure(start),
            r.args@.len() == 2,
            r.args@[0].is_text(""@),
            r.args@[1] matches RemoteValue::Base64(data) && data@ == contents@,
    {
        let load = if start {
            "load.raw_start_verbose"
        } else {
            "load.raw_verbose"
        };
        let data = vstd::slice::slice_to_vec(contents);
        MethodCall::new(load).arg(RemoteValue::String("".to_owned())).arg(RemoteValue::Base64(data))
    }

    /// The URL, or the path of the socket.
    pub fn endpoint(&self) -> (e: &str)
        ensures
            e@ == self.address(),
    {
        match &self.endpoint {
            Endpoint::Http(url) => url.as_str(),
            Endpoint::Scgi(transport) => transport.socket(),
        }
    }
}

} // verus!
