use rtorrent_xmlrpc_bindings::request::MethodCall;
use rtorrent_xmlrpc_bindings::scgi::UnixSocketTransport;
use rtorrent_xmlrpc_bindings::server::{Endpoint, Server};
use rtorrent_xmlrpc_bindings::text::{signed_to_string, starts_with, unsigned_to_string};
use rtorrent_xmlrpc_bindings::value::RemoteValue;

#[test]
fn decimal_of_unsigned() {
    assert_eq!(unsigned_to_string(0), "0");
    assert_eq!(unsigned_to_string(9), "9");
    assert_eq!(unsigned_to_string(10), "10");
    assert_eq!(unsigned_to_string(1234567890), "1234567890");
    assert_eq!(unsigned_to_string(u64::MAX), "18446744073709551615");
}

#[test]
fn decimal_of_signed() {
    assert_eq!(signed_to_string(0), "0");
    assert_eq!(signed_to_string(4), "4");
    assert_eq!(signed_to_string(-1), "-1");
    assert_eq!(signed_to_string(-120), "-120");
    assert_eq!(signed_to_string(i64::MAX), "9223372036854775807");
    assert_eq!(signed_to_string(i64::MIN), "-9223372036854775808");
    for i in [-1001i64, -10, -9, 5, 99, 100, 65536] {
        assert_eq!(signed_to_string(i), format!("{}", i));
    }
}

#[test]
fn prefix_test() {
    assert!(starts_with("http://host/RPC2", "http://"));
    assert!(starts_with("http://", "http://"));
    assert!(!starts_with("http:/", "http://"));
    assert!(!starts_with("https://host", "http://"));
    assert!(!starts_with("/var/run/rtorrent.sock", "http://"));
    assert!(starts_with("anything", ""));
    assert!(!starts_with("", "a"));
    assert!(starts_with("\u{e9}t\u{e9}", "\u{e9}t"));
}

#[test]
fn scgi_headers_for_a_body() {
    assert_eq!(
        UnixSocketTransport::scgi_headers(0),
        "69:CONTENT_LENGTH\x000\x00SCGI\x001\x00REQUEST_METHOD\x00POST\x00SERVER_PROTOCOL\x00HTTP/1.1\x00,"
    );
    assert_eq!(
        UnixSocketTransport::scgi_headers(123),
        "71:CONTENT_LENGTH\x00123\x00SCGI\x001\x00REQUEST_METHOD\x00POST\x00SERVER_PROTOCOL\x00HTTP/1.1\x00,"
    );
}

#[test]
fn scgi_headers_count_their_own_length() {
    for size in [0usize, 7, 99, 100, 4096, usize::MAX] {
        let h = UnixSocketTransport::scgi_headers(size);
        let colon = h.find(':').unwrap();
        let declared: usize = h[..colon].parse().unwrap();
        assert!(h.ends_with(','));
        assert_eq!(declared, h.len() - colon - 2);
        let fields: Vec<&str> = h[colon + 1..h.len() - 1].split('\0').collect();
        assert_eq!(
            fields,
            vec![
                "CONTENT_LENGTH",
                format!("{}", size).as_str(),
                "SCGI",
                "1",
                "REQUEST_METHOD",
                "POST",
                "SERVER_PROTOCOL",
                "HTTP/1.1",
                ""
            ]
        );
    }
}

#[test]
fn header_cut_finds_the_first_blank_line() {
    let reply = b"Status: 200 OK\r\nContent-Type: text/xml\r\n\r\n<xml/>\r\n\r\nrest";
    let cut = UnixSocketTransport::header_cut(reply).unwrap();
    assert_eq!(cut, 42);
    assert_eq!(&reply[cut..], b"<xml/>\r\n\r\nrest");
    assert_eq!(UnixSocketTransport::header_cut(b"\r\n\r\n"), Some(4));
    assert_eq!(UnixSocketTransport::header_cut(b"\r\n\r\nbody"), Some(4));
}

#[test]
fn header_cut_without_a_blank_line() {
    assert_eq!(UnixSocketTransport::header_cut(b""), None);
    assert_eq!(UnixSocketTransport::header_cut(b"\r\n\r"), None);
    assert_eq!(UnixSocketTransport::header_cut(b"Status: 200 OK\r\nbody"), None);
    assert_eq!(UnixSocketTransport::header_cut(b"a\n\r\n\rb"), None);
}

#[test]
fn strip_headers_keeps_the_body() {
    let reply = b"Status: 200 OK\r\n\r\n<methodResponse/>";
    assert_eq!(
        UnixSocketTransport::strip_headers(reply),
        Some(b"<methodResponse/>".to_vec())
    );
    assert_eq!(UnixSocketTransport::strip_headers(b"X: y\r\n\r\n"), Some(vec![]));
    assert_eq!(UnixSocketTransport::strip_headers(b"no headers at all"), None);
}

#[test]
fn transport_keeps_its_socket() {
    let t = UnixSocketTransport::new("/var/run/rtorrent.sock");
    assert_eq!(t.socket(), "/var/run/rtorrent.sock");
    assert_eq!(t.clone(), t);
}

#[test]
fn server_tells_urls_from_sockets() {
    let http = Server::new("http://1.2.3.4/RPC2");
    assert_eq!(http.endpoint(), "http://1.2.3.4/RPC2");
    assert!(matches!(http.transport(), Endpoint::Http(url) if url == "http://1.2.3.4/RPC2"));
    let scgi = Server::new("/var/run/rtorrent.sock");
    assert_eq!(scgi.endpoint(), "/var/run/rtorrent.sock");
    assert!(
        matches!(scgi.transport(), Endpoint::Scgi(t) if t.socket() == "/var/run/rtorrent.sock")
    );
    let tls = Server::new("https://1.2.3.4/RPC2");
    assert!(matches!(tls.transport(), Endpoint::Scgi(_)));
    assert_eq!(http.clone(), http);
}

#[test]
fn frame_puts_the_headers_before_the_body() {
    let body = b"<methodCall/>";
    let mut expected = UnixSocketTransport::scgi_headers(body.len()).into_bytes();
    expected.extend_from_slice(body);
    assert_eq!(UnixSocketTransport::frame(body), expected);
    assert_eq!(
        UnixSocketTransport::frame(b""),
        b"69:CONTENT_LENGTH\x000\x00SCGI\x001\x00REQUEST_METHOD\x00POST\x00SERVER_PROTOCOL\x00HTTP/1.1\x00,"
            .to_vec()
    );
    assert_eq!(
        UnixSocketTransport::frame(b"abc"),
        b"69:CONTENT_LENGTH\x003\x00SCGI\x001\x00REQUEST_METHOD\x00POST\x00SERVER_PROTOCOL\x00HTTP/1.1\x00,abc"
            .to_vec()
    );
}

#[test]
fn payload_frames_the_request_as_xml() {
    let call = MethodCall::new("d.multicall2")
        .arg(RemoteValue::String(String::new()))
        .arg(RemoteValue::String("default".to_string()))
        .arg(RemoteValue::String("d.name=".to_string()));
    let request = xmlrpc::Request::new("d.multicall2").arg("").arg("default").arg("d.name=");
    let mut xml = Vec::new();
    request.write_as_xml(&mut xml).unwrap();
    assert!(!xml.is_empty());
    assert!(call.can_write());
    let payload = UnixSocketTransport::payload(&call);
    assert_eq!(payload, UnixSocketTransport::frame(&xml));
    assert_eq!(UnixSocketTransport::try_payload(&call), Some(payload.clone()));
    assert!(payload.ends_with(b"</methodCall>"));
    let text = String::from_utf8(payload).unwrap();
    assert!(text.contains("<methodName>d.multicall2</methodName>"));
    assert!(text.contains("<string>d.name=</string>"));
    assert!(text.contains(&format!("CONTENT_LENGTH\0{}\0", xml.len())));
}

#[test]
fn payload_writes_each_variant_that_can_be_written() {
    let call = MethodCall::new("load.raw_verbose")
        .arg(RemoteValue::Int(-7))
        .arg(RemoteValue::Int64(9_000_000_000))
        .arg(RemoteValue::Bool(true))
        .arg(RemoteValue::String("a<b".to_string()))
        .arg(RemoteValue::Base64(vec![100, 56, 58]))
        .arg(RemoteValue::Nil);
    let request = xmlrpc::Request::new("load.raw_verbose")
        .arg(-7i32)
        .arg(9_000_000_000i64)
        .arg(true)
        .arg("a<b")
        .arg(vec![100u8, 56, 58])
        .arg(xmlrpc::Value::Nil);
    let mut xml = Vec::new();
    request.write_as_xml(&mut xml).unwrap();
    assert!(call.can_write());
    assert_eq!(UnixSocketTransport::payload(&call), UnixSocketTransport::frame(&xml));
    let text = String::from_utf8(xml).unwrap();
    assert!(text.contains("<i4>-7</i4>"));
    assert!(text.contains("<i8>9000000000</i8>"));
    assert!(text.contains("<boolean>1</boolean>"));
    assert!(text.contains("<nil/>"));
}

#[test]
fn requests_that_cannot_be_written_are_told_apart() {
    assert!(MethodCall::new("system.hostname").can_write());
    let date = MethodCall::new("x").arg(RemoteValue::DateTime("2024-W01-1T00:00:00".to_string()));
    assert!(!date.can_write());
    assert_eq!(UnixSocketTransport::try_payload(&date), None);
    let double = MethodCall::new("x")
        .arg(RemoteValue::String("ok".to_string()))
        .arg(RemoteValue::Double(0x3ff8_0000_0000_0000));
    assert!(!double.can_write());
    assert_eq!(UnixSocketTransport::try_payload(&double), None);
    let array = MethodCall::new("x").arg(RemoteValue::Array(vec![]));
    assert!(!array.can_write());
    let members = MethodCall::new("x").arg(RemoteValue::Struct(vec![]));
    assert!(!members.can_write());
}
