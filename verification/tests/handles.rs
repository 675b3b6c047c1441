use rtorrent_xmlrpc_bindings::download::Download;
use rtorrent_xmlrpc_bindings::error::{Expected, Mismatch, RtorrentError};
use rtorrent_xmlrpc_bindings::file::File;
use rtorrent_xmlrpc_bindings::peer::Peer;
use rtorrent_xmlrpc_bindings::request::{getter_request, setter_request, MethodCall};
use rtorrent_xmlrpc_bindings::server::Server;
use rtorrent_xmlrpc_bindings::tracker::Tracker;
use rtorrent_xmlrpc_bindings::value::{RemoteValue, Shape};

struct FaultingTransport;

impl xmlrpc::Transport for FaultingTransport {
    type Stream = std::io::Cursor<Vec<u8>>;

    fn transmit(
        self,
        _request: &xmlrpc::Request<'_>,
    ) -> Result<Self::Stream, Box<dyn std::error::Error + Send + Sync>> {
        Err("socket closed".into())
    }
}

fn closed_socket() -> xmlrpc::Error {
    xmlrpc::Request::new("download_list").call(FaultingTransport).unwrap_err()
}

fn wire(s: &str) -> RemoteValue {
    RemoteValue::String(s.to_string())
}

fn sample() -> Download {
    Download::from_hash(&Server::new("http://1.2.3.4/RPC2"), "ABCD")
}

#[test]
fn addressing_keys() {
    let dl = sample();
    assert_eq!(dl.sha1_hex(), "ABCD");
    assert_eq!(dl.key(), "ABCD");
    assert_eq!(dl.to_value(), wire("ABCD"));
    let file = File::new(dl.clone(), 4);
    assert_eq!(file.key(), "ABCD:f4");
    assert_eq!(file.to_value(), wire("ABCD:f4"));
    let peer = Peer::new(dl.clone(), "beef");
    assert_eq!(peer.key(), "ABCD:pbeef");
    assert_eq!(peer.to_value(), wire("ABCD:pbeef"));
    let tracker = Tracker::new(dl.clone(), 2);
    assert_eq!(tracker.key(), "ABCD:t2");
    assert_eq!(tracker.to_value(), wire("ABCD:t2"));
}

#[test]
fn keys_of_large_and_negative_indices() {
    let dl = sample();
    assert_eq!(File::new(dl.clone(), 0).key(), "ABCD:f0");
    assert_eq!(File::new(dl.clone(), 1234567).key(), "ABCD:f1234567");
    assert_eq!(File::new(dl.clone(), -1).key(), "ABCD:f-1");
    assert_eq!(Tracker::new(dl.clone(), i64::MAX).key(), "ABCD:t9223372036854775807");
    assert_eq!(Tracker::new(dl.clone(), i64::MIN).key(), "ABCD:t-9223372036854775808");
    assert_eq!(Peer::new(dl, "").key(), "ABCD:p");
}

#[test]
fn handles_keep_what_they_were_made_of() {
    let server = Server::new("/var/run/rtorrent.sock");
    let dl = Download::from_hash(&server, "0123456789ABCDEF");
    assert_eq!(dl.server(), &server);
    assert_eq!(dl.endpoint(), "/var/run/rtorrent.sock");
    let file = File::new(dl.clone(), 7);
    assert_eq!(file.download(), &dl);
    assert_eq!(file.index(), 7);
    assert_eq!(file.endpoint(), "/var/run/rtorrent.sock");
    let tracker = Tracker::new(dl.clone(), 3);
    assert_eq!(tracker.download(), &dl);
    assert_eq!(tracker.index(), 3);
    assert_eq!(tracker.endpoint(), "/var/run/rtorrent.sock");
    let peer = Peer::new(dl.clone(), "cafe");
    assert_eq!(peer.download(), &dl);
    assert_eq!(peer.peer_sha1_hex(), "cafe");
    assert_eq!(file.clone(), file);
    assert_eq!(tracker.clone(), tracker);
    assert_eq!(peer.clone(), peer);
}

#[test]
fn download_from_a_wire_value() {
    let server = Server::new("http://1.2.3.4/RPC2");
    let dl = Download::from_value(&server, &wire("FEED")).unwrap();
    assert_eq!(dl, Download::from_hash(&server, "FEED"));
    match Download::from_value(&server, &RemoteValue::Int(3)) {
        Err(RtorrentError::UnexpectedStructure(m)) => {
            assert_eq!(m, Mismatch { received: Shape::Int(3), expected: Expected::String })
        }
        other => panic!("expected a structural error, got {:?}", other),
    }
}

#[test]
fn files_and_trackers_by_count() {
    let dl = sample();
    let files = dl.files(3);
    assert_eq!(files.len(), 3);
    for (i, f) in files.iter().enumerate() {
        assert_eq!(f.index(), i as i64);
        assert_eq!(f.download(), &dl);
    }
    assert_eq!(files[2].key(), "ABCD:f2");
    assert!(dl.files(0).is_empty());
    assert!(dl.files(-4).is_empty());
    let trackers = dl.trackers(2);
    assert_eq!(trackers.len(), 2);
    assert_eq!(trackers[0].key(), "ABCD:t0");
    assert_eq!(trackers[1].key(), "ABCD:t1");
    assert!(dl.trackers(-1).is_empty());
}

#[test]
fn peers_query_asks_for_the_identifiers() {
    let dl = sample();
    let req = dl.peers_query().as_request();
    assert_eq!(
        req,
        MethodCall {
            method: "p.multicall".to_string(),
            args: vec![wire("ABCD"), wire(""), wire("p.id=")],
        }
    );
}

#[test]
fn peers_from_a_reply() {
    let dl = sample();
    let reply = RemoteValue::Array(vec![
        RemoteValue::Array(vec![wire("beef")]),
        RemoteValue::Array(vec![wire("cafe")]),
    ]);
    let peers = dl.peers(Ok(reply)).unwrap();
    assert_eq!(peers.len(), 2);
    assert_eq!(peers[0].key(), "ABCD:pbeef");
    assert_eq!(peers[1].key(), "ABCD:pcafe");
    assert_eq!(peers[0].download(), &dl);
    assert!(dl.peers(Ok(RemoteValue::Array(vec![]))).unwrap().is_empty());
}

#[test]
fn peers_from_a_bad_reply() {
    let dl = sample();
    let reply = RemoteValue::Array(vec![
        RemoteValue::Array(vec![wire("beef")]),
        RemoteValue::Array(vec![RemoteValue::Int(1)]),
    ]);
    match dl.peers(Ok(reply)) {
        Err(RtorrentError::UnexpectedStructure(m)) => {
            assert_eq!(m, Mismatch { received: Shape::Int(1), expected: Expected::String })
        }
        other => panic!("expected a structural error, got {:?}", other),
    }
    assert!(matches!(dl.peers(Err(closed_socket())), Err(RtorrentError::XmlRpc(_))));
}

#[test]
fn download_list_from_a_reply() {
    let server = Server::new("http://1.2.3.4/RPC2");
    let req = server.download_list_request();
    assert_eq!(req, MethodCall { method: "download_list".to_string(), args: vec![] });
    let reply = RemoteValue::Array(vec![wire("AAAA"), wire("BBBB"), wire("CCCC")]);
    let list = server.download_list(Ok(reply)).unwrap();
    assert_eq!(
        list,
        vec![
            Download::from_hash(&server, "AAAA"),
            Download::from_hash(&server, "BBBB"),
            Download::from_hash(&server, "CCCC"),
        ]
    );
    assert!(server.download_list(Ok(RemoteValue::Array(vec![]))).unwrap().is_empty());
}

#[test]
fn download_list_from_a_bad_reply() {
    let server = Server::new("http://1.2.3.4/RPC2");
    let reply = RemoteValue::Array(vec![wire("AAAA"), RemoteValue::Nil, RemoteValue::Int(2)]);
    match server.download_list(Ok(reply)) {
        Err(RtorrentError::UnexpectedStructure(m)) => {
            assert_eq!(m, Mismatch { received: Shape::Nil, expected: Expected::String })
        }
        other => panic!("expected a structural error, got {:?}", other),
    }
    match server.download_list(Ok(wire("AAAA"))) {
        Err(RtorrentError::UnexpectedStructure(m)) => {
            assert_eq!(
                m,
                Mismatch { received: Shape::String("AAAA".to_string()), expected: Expected::Array }
            )
        }
        other => panic!("expected a structural error, got {:?}", other),
    }
    assert!(matches!(server.download_list(Err(closed_socket())), Err(RtorrentError::XmlRpc(_))));
}

#[test]
fn load_requests() {
    let server = Server::new("http://1.2.3.4/RPC2");
    assert_eq!(
        server.load_torrent_url("magnet:?xt=urn:btih:ABCD", false),
        MethodCall {
            method: "load.verbose".to_string(),
            args: vec![wire(""), wire("magnet:?xt=urn:btih:ABCD")],
        }
    );
    assert_eq!(
        server.load_torrent_url("http://host/a.torrent", true),
        MethodCall {
            method: "load.start_verbose".to_string(),
            args: vec![wire(""), wire("http://host/a.torrent")],
        }
    );
    assert_eq!(
        server.load_torrent_bytes(&[100, 56, 58], false),
        MethodCall {
            method: "load.raw_verbose".to_string(),
            args: vec![wire(""), RemoteValue::Base64(vec![100, 56, 58])],
        }
    );
    assert_eq!(
        server.load_torrent_bytes(&[], true),
        MethodCall {
            method: "load.raw_start_verbose".to_string(),
            args: vec![wire(""), RemoteValue::Base64(vec![])],
        }
    );
}

#[test]
fn getters_and_setters_address_the_object() {
    let dl = sample();
    assert_eq!(
        dl.getter("d.name"),
        MethodCall { method: "d.name".to_string(), args: vec![wire("ABCD")] }
    );
    assert_eq!(
        dl.setter("d.directory", wire("/srv/torrents")),
        MethodCall {
            method: "d.directory.set".to_string(),
            args: vec![wire("ABCD"), wire("/srv/torrents")],
        }
    );
    let file = File::new(dl.clone(), 4);
    assert_eq!(
        file.getter("f.size_bytes"),
        MethodCall { method: "f.size_bytes".to_string(), args: vec![wire("ABCD:f4")] }
    );
    assert_eq!(
        file.setter("f.priority", RemoteValue::Int64(2)),
        MethodCall {
            method: "f.priority.set".to_string(),
            args: vec![wire("ABCD:f4"), RemoteValue::Int64(2)],
        }
    );
    let peer = Peer::new(dl.clone(), "beef");
    assert_eq!(
        peer.getter("p.address"),
        MethodCall { method: "p.address".to_string(), args: vec![wire("ABCD:pbeef")] }
    );
    assert_eq!(
        peer.setter("p.banned", RemoteValue::Bool(true)),
        MethodCall {
            method: "p.banned.set".to_string(),
            args: vec![wire("ABCD:pbeef"), RemoteValue::Bool(true)],
        }
    );
    let tracker = Tracker::new(dl, 2);
    assert_eq!(
        tracker.getter("t.url"),
        MethodCall { method: "t.url".to_string(), args: vec![wire("ABCD:t2")] }
    );
    assert_eq!(
        getter_request("system.hostname", wire("")),
        MethodCall { method: "system.hostname".to_string(), args: vec![wire("")] }
    );
    assert_eq!(
        setter_request("t.is_enabled", wire("ABCD:t0"), RemoteValue::Int64(0)).method,
        "t.is_enabled.set"
    );
}

#[test]
fn request_grows_by_its_arguments() {
    let req = MethodCall::new("d.multicall2").arg(wire("")).arg(wire("main")).arg(RemoteValue::Nil);
    assert_eq!(req.method, "d.multicall2");
    assert_eq!(req.args, vec![wire(""), wire("main"), RemoteValue::Nil]);
}
