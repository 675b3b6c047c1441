use rtorrent_xmlrpc_bindings::error::{Expected, Mismatch, RtorrentError};
use rtorrent_xmlrpc_bindings::multicall::{d, f, p, t, MultiBuilder};
use rtorrent_xmlrpc_bindings::request::MethodCall;
use rtorrent_xmlrpc_bindings::server::Server;
use rtorrent_xmlrpc_bindings::multicall::typed::{decode_typed, invoke_typed};
use rtorrent_xmlrpc_bindings::value::{RemoteValue, ScalarType, ScalarValue, Shape};
use rtorrent_xmlrpc_bindings::value_conversion::FixedPoint;

struct RefusingTransport;

impl xmlrpc::Transport for RefusingTransport {
    type Stream = std::io::Cursor<Vec<u8>>;

    fn transmit(
        self,
        _request: &xmlrpc::Request<'_>,
    ) -> Result<Self::Stream, Box<dyn std::error::Error + Send + Sync>> {
        Err("connection refused".into())
    }
}

fn refused_call() -> xmlrpc::Error {
    xmlrpc::Request::new("d.multicall2").call(RefusingTransport).unwrap_err()
}

fn text(s: &str) -> RemoteValue {
    RemoteValue::String(s.to_string())
}

fn row(cells: Vec<RemoteValue>) -> RemoteValue {
    RemoteValue::Array(cells)
}

fn structural<T>(r: Result<T, RtorrentError>) -> Mismatch {
    match r {
        Err(RtorrentError::UnexpectedStructure(m)) => m,
        Err(RtorrentError::XmlRpc(_)) => panic!("a transport error where a structural one was due"),
        Ok(_) => panic!("rows where an error was due"),
    }
}

fn texts(req: &MethodCall) -> Vec<String> {
    req.args
        .iter()
        .map(|a| match a {
            RemoteValue::String(s) => s.clone(),
            other => panic!("argument is no string: {:?}", other),
        })
        .collect()
}

#[test]
fn arity_counts_the_calls() {
    let server = Server::new("http://1.2.3.4/RPC2");
    let mut b = MultiBuilder::new(&server, "d.multicall2", "", "default");
    assert_eq!(b.arity(), 0);
    let getters = ["d.name", "d.ratio", "d.size_bytes", "d.hash", "d.complete"];
    let types = [
        ScalarType::String,
        ScalarType::FixedPointFraction,
        ScalarType::Integer,
        ScalarType::String,
        ScalarType::Boolean,
    ];
    for k in 0..getters.len() {
        b = b.call(getters[k], types[k]);
        assert_eq!(b.arity(), k + 1);
        let req = b.as_request();
        assert_eq!(req.method, "d.multicall2");
        let mut expected = vec!["".to_string(), "default".to_string()];
        for g in &getters[..k + 1] {
            expected.push(format!("{}=", g));
        }
        assert_eq!(texts(&req), expected);
    }
}

#[test]
fn push_arg_puts_the_column_last() {
    let server = Server::new("http://1.2.3.4/RPC2");
    let mut b = MultiBuilder::new(&server, "p.multicall", "ABCD", "")
        .call("p.id", ScalarType::String)
        .call("p.port", ScalarType::Integer);
    let before = texts(&b.as_request());
    b.push_arg("p.banned=".to_string(), ScalarType::Boolean);
    assert_eq!(b.arity(), 3);
    let after = texts(&b.as_request());
    assert_eq!(after.len(), before.len() + 1);
    assert_eq!(&after[..before.len()], &before[..]);
    assert_eq!(after, vec!["ABCD", "", "p.id=", "p.port=", "p.banned="]);
    assert_eq!(b.as_request().method, "p.multicall");
    assert_eq!(b.server(), &server);
}

#[test]
fn request_of_a_query_without_columns() {
    let server = Server::new("/tmp/rtorrent.sock");
    let b = MultiBuilder::new(&server, "f.multicall", "ABCD", "*.iso");
    let req = b.as_request();
    assert_eq!(req.method, "f.multicall");
    assert_eq!(texts(&req), vec!["ABCD".to_string(), "*.iso".to_string()]);
    assert_eq!(b.server(), &server);
}

#[test]
fn request_names_procedure_target_filter_and_columns() {
    let server = Server::new("http://1.2.3.4/RPC2");
    let req = d::MultiBuilder::new(&server, "default")
        .call(d::name())
        .call(d::ratio())
        .call(d::size_bytes())
        .as_request();
    assert_eq!(req.method, "d.multicall2");
    assert_eq!(texts(&req), vec!["", "default", "d.name=", "d.ratio=", "d.size_bytes="]);

    let req = f::MultiBuilder::new(&server, "ABCD", None).call(f::path()).as_request();
    assert_eq!(req.method, "f.multicall");
    assert_eq!(texts(&req), vec!["ABCD", "", "f.path="]);
    let req = f::MultiBuilder::new(&server, "ABCD", Some("*.iso"))
        .call(f::size_bytes())
        .call(f::priority())
        .as_request();
    assert_eq!(texts(&req), vec!["ABCD", "*.iso", "f.size_bytes=", "f.priority="]);

    let req = p::MultiBuilder::new(&server, "ABCD").call(p::id()).call(p::address()).as_request();
    assert_eq!(req.method, "p.multicall");
    assert_eq!(texts(&req), vec!["ABCD", "", "p.id=", "p.address="]);
    let req = p::MultiBuilder::new(&server, "ABCD").call(p::down_rate()).as_request();
    assert_eq!(texts(&req), vec!["ABCD", "", "p.down_rate="]);

    let req = t::MultiBuilder::new(&server, "ABCD").call(t::url()).as_request();
    assert_eq!(req.method, "t.multicall");
    assert_eq!(texts(&req), vec!["ABCD", "", "t.url="]);

    let req = d::MultiBuilder::new(&server, "main").as_request();
    assert_eq!(texts(&req), vec!["", "main"]);
}

#[test]
fn typed_query_declares_the_types_of_its_row() {
    let server = Server::new("http://1.2.3.4/RPC2");
    let b = d::MultiBuilder::new(&server, "default");
    assert_eq!(b.query().arity(), 0);
    let b = b.call(d::name());
    assert_eq!(b.query().arity(), 1);
    let b = b.call(d::ratio()).call(d::complete()).call(d::size_bytes());
    assert_eq!(b.query().arity(), 4);
    assert_eq!(b.query().server(), &server);
    let untyped = MultiBuilder::new(&server, "d.multicall2", "", "default")
        .call("d.name", ScalarType::String)
        .call("d.ratio", ScalarType::FixedPointFraction)
        .call("d.complete", ScalarType::Boolean)
        .call("d.size_bytes", ScalarType::Integer);
    assert_eq!(b.as_request(), untyped.as_request());
}

#[test]
fn catalog_names_and_types() {
    assert_eq!(d::ratio().name(), "d.ratio");
    assert_eq!(d::ratio().result_type(), ScalarType::FixedPointFraction);
    assert_eq!(d::hash().name(), "d.hash");
    assert_eq!(d::hash().result_type(), ScalarType::String);
    assert_eq!(d::down_rate().name(), "d.down.rate");
    assert_eq!(d::is_active().result_type(), ScalarType::Boolean);
    assert_eq!(f::size_bytes().name(), "f.size_bytes");
    assert_eq!(f::size_bytes().result_type(), ScalarType::Integer);
    assert_eq!(f::frozen_path().name(), "f.frozen_path");
    assert_eq!(f::frozen_path().result_type(), ScalarType::String);
    assert_eq!(p::down_rate().name(), "p.down_rate");
    assert_eq!(p::down_rate().result_type(), ScalarType::Integer);
    assert_eq!(p::banned().name(), "p.banned");
    assert_eq!(p::banned().result_type(), ScalarType::Boolean);
    assert_eq!(p::id().name(), "p.id");
    assert_eq!(t::url().name(), "t.url");
    assert_eq!(t::url().result_type(), ScalarType::String);
    assert_eq!(t::latest_sum_peers().name(), "t.latest_sum_peers");
    assert_eq!(t::group().result_type(), ScalarType::Integer);
}

#[test]
fn three_rows_of_integer_and_string() {
    let server = Server::new("http://1.2.3.4/RPC2");
    let b = d::MultiBuilder::new(&server, "default").call(d::size_bytes()).call(d::name());
    let reply = RemoteValue::Array(vec![
        row(vec![RemoteValue::Int(10), text("first")]),
        row(vec![RemoteValue::Int64(20_000_000_000), text("second")]),
        row(vec![RemoteValue::Int(-3), text("")]),
    ]);
    let rows: Vec<(i64, String)> = b.invoke(Ok(reply)).unwrap();
    assert_eq!(
        rows,
        vec![
            (10, "first".to_string()),
            (20_000_000_000, "second".to_string()),
            (-3, String::new()),
        ]
    );
}

#[test]
fn three_rows_of_integer_and_string_as_scalars() {
    let server = Server::new("http://1.2.3.4/RPC2");
    let b = MultiBuilder::new(&server, "d.multicall2", "", "default")
        .call("d.size_bytes", ScalarType::Integer)
        .call("d.name", ScalarType::String);
    let reply = RemoteValue::Array(vec![
        row(vec![RemoteValue::Int(10), text("first")]),
        row(vec![RemoteValue::Int64(20_000_000_000), text("second")]),
        row(vec![RemoteValue::Int(-3), text("")]),
    ]);
    let rows = b.invoke(Ok(reply)).unwrap();
    assert_eq!(
        rows,
        vec![
            vec![ScalarValue::Integer(10), ScalarValue::Text("first".to_string())],
            vec![ScalarValue::Integer(20_000_000_000), ScalarValue::Text("second".to_string())],
            vec![ScalarValue::Integer(-3), ScalarValue::Text(String::new())],
        ]
    );
}

#[test]
fn empty_reply_gives_no_rows() {
    let server = Server::new("http://1.2.3.4/RPC2");
    let one = t::MultiBuilder::new(&server, "ABCD").call(t::url());
    assert_eq!(one.invoke(Ok(RemoteValue::Array(vec![]))).unwrap(), Vec::<(String,)>::new());
    let three =
        p::MultiBuilder::new(&server, "ABCD").call(p::id()).call(p::port()).call(p::snubbed());
    assert_eq!(
        three.invoke(Ok(RemoteValue::Array(vec![]))).unwrap(),
        Vec::<(String, i64, bool)>::new()
    );
    let none = MultiBuilder::new(&server, "d.multicall2", "", "");
    assert_eq!(none.decode(&RemoteValue::Array(vec![])).unwrap(), Vec::<Vec<ScalarValue>>::new());
    let five = MultiBuilder::new(&server, "d.multicall2", "", "")
        .call("d.a", ScalarType::Integer)
        .call("d.b", ScalarType::Integer)
        .call("d.c", ScalarType::Void)
        .call("d.d", ScalarType::String)
        .call("d.e", ScalarType::Boolean);
    assert_eq!(five.decode(&RemoteValue::Array(vec![])).unwrap(), Vec::<Vec<ScalarValue>>::new());
}

#[test]
fn row_with_too_many_values_fails_the_query() {
    let server = Server::new("http://1.2.3.4/RPC2");
    let b = d::MultiBuilder::new(&server, "default").call(d::size_bytes()).call(d::name());
    let reply = || {
        RemoteValue::Array(vec![
            row(vec![RemoteValue::Int(10), text("first")]),
            row(vec![RemoteValue::Int(20), text("second"), RemoteValue::Int(1)]),
            row(vec![RemoteValue::Int(30), text("third")]),
        ])
    };
    let m = structural(b.invoke(Ok(reply())));
    assert_eq!(m, Mismatch { received: Shape::Array(3), expected: Expected::Columns(2) });
    let m = structural(b.query().invoke(Ok(reply())));
    assert_eq!(m, Mismatch { received: Shape::Array(3), expected: Expected::Columns(2) });
}

#[test]
fn row_with_too_few_values_fails_the_query() {
    let server = Server::new("http://1.2.3.4/RPC2");
    let b = d::MultiBuilder::new(&server, "default").call(d::size_bytes()).call(d::name());
    let reply = RemoteValue::Array(vec![row(vec![RemoteValue::Int(10)])]);
    let m = structural(b.invoke(Ok(reply)));
    assert_eq!(m, Mismatch { received: Shape::Array(1), expected: Expected::Columns(2) });
}

#[test]
fn row_that_is_no_array_fails_the_query() {
    let server = Server::new("http://1.2.3.4/RPC2");
    let b = t::MultiBuilder::new(&server, "ABCD").call(t::url());
    let reply = RemoteValue::Array(vec![row(vec![text("http://a")]), text("http://b")]);
    let m = structural(b.invoke(Ok(reply)));
    assert_eq!(
        m,
        Mismatch { received: Shape::String("http://b".to_string()), expected: Expected::Array }
    );
}

#[test]
fn reply_that_is_no_array_fails_the_query() {
    let server = Server::new("http://1.2.3.4/RPC2");
    let b = t::MultiBuilder::new(&server, "ABCD").call(t::url());
    let m = structural(b.invoke(Ok(RemoteValue::Int(0))));
    assert_eq!(m, Mismatch { received: Shape::Int(0), expected: Expected::Array });
    let m = structural(b.query().invoke(Ok(RemoteValue::Nil)));
    assert_eq!(m, Mismatch { received: Shape::Nil, expected: Expected::Array });
}

#[test]
fn first_value_that_does_not_fit_is_reported() {
    let server = Server::new("http://1.2.3.4/RPC2");
    let b = p::MultiBuilder::new(&server, "ABCD").call(p::id()).call(p::port()).call(p::banned());
    let reply = || {
        RemoteValue::Array(vec![
            row(vec![text("peer1"), RemoteValue::Int(6881), RemoteValue::Int(0)]),
            row(vec![text("peer2"), RemoteValue::Nil, text("no bool")]),
            row(vec![RemoteValue::Int(5), RemoteValue::Int(1), RemoteValue::Int(1)]),
        ])
    };
    let m = structural(b.invoke(Ok(reply())));
    assert_eq!(m, Mismatch { received: Shape::Nil, expected: Expected::Integer });
    let m = structural(b.query().invoke(Ok(reply())));
    assert_eq!(m, Mismatch { received: Shape::Nil, expected: Expected::Integer });
}

#[test]
fn columns_decode_by_their_declared_types() {
    let server = Server::new("http://1.2.3.4/RPC2");
    let b = d::MultiBuilder::new(&server, "main")
        .call(d::name())
        .call(d::ratio())
        .call(d::complete())
        .call(d::size_bytes());
    let reply = || {
        RemoteValue::Array(vec![row(vec![
            text("ubuntu.iso"),
            RemoteValue::Int64(1500),
            RemoteValue::Int64(1),
            RemoteValue::Int64(4_000_000_000),
        ])])
    };
    let rows = b.invoke(Ok(reply())).unwrap();
    assert_eq!(
        rows,
        vec![("ubuntu.iso".to_string(), FixedPoint { thousandths: 1500 }, true, 4_000_000_000)]
    );
    let scalars = b.query().invoke(Ok(reply())).unwrap();
    assert_eq!(
        scalars,
        vec![vec![
            ScalarValue::Text("ubuntu.iso".to_string()),
            ScalarValue::Fraction(1500),
            ScalarValue::Boolean(true),
            ScalarValue::Integer(4_000_000_000),
        ]]
    );
    let types: Vec<ScalarType> = scalars[0].iter().map(|v| v.scalar_type()).collect();
    assert_eq!(
        types,
        vec![
            ScalarType::String,
            ScalarType::FixedPointFraction,
            ScalarType::Boolean,
            ScalarType::Integer
        ]
    );
}

#[test]
fn nine_columns_in_one_row() {
    let server = Server::new("http://1.2.3.4/RPC2");
    let b = d::MultiBuilder::new(&server, "main")
        .call(d::hash())
        .call(d::name())
        .call(d::ratio())
        .call(d::complete())
        .call(d::size_bytes())
        .call(d::left_bytes())
        .call(d::is_active())
        .call(d::directory())
        .call(d::up_total());
    assert_eq!(b.query().arity(), 9);
    let reply = RemoteValue::Array(vec![row(vec![
        text("ABCD"),
        text("ubuntu.iso"),
        RemoteValue::Int(250),
        RemoteValue::Int(0),
        RemoteValue::Int64(1000),
        RemoteValue::Int64(750),
        RemoteValue::Bool(true),
        text("/srv"),
        RemoteValue::Int(12),
    ])]);
    let rows = b.invoke(Ok(reply)).unwrap();
    assert_eq!(
        rows,
        vec![(
            "ABCD".to_string(),
            "ubuntu.iso".to_string(),
            FixedPoint { thousandths: 250 },
            false,
            1000,
            750,
            true,
            "/srv".to_string(),
            12
        )]
    );
}

#[test]
fn rows_decode_into_any_row_type() {
    let reply = RemoteValue::Array(vec![
        row(vec![RemoteValue::Int(1), RemoteValue::Nil]),
        row(vec![RemoteValue::Int(0), RemoteValue::Int(0)]),
    ]);
    let rows: Vec<(bool, ())> = decode_typed(&reply).unwrap();
    assert_eq!(rows, vec![(true, ()), (false, ())]);
    let m = structural(decode_typed::<(bool,)>(&reply));
    assert_eq!(m, Mismatch { received: Shape::Array(2), expected: Expected::Columns(1) });
    let m = structural(decode_typed::<(i64, String)>(&reply));
    assert_eq!(m, Mismatch { received: Shape::Nil, expected: Expected::String });
    let none: Vec<()> = decode_typed(&RemoteValue::Array(vec![row(vec![])])).unwrap();
    assert_eq!(none.len(), 1);
    assert!(matches!(invoke_typed::<(i64,)>(Err(refused_call())), Err(RtorrentError::XmlRpc(_))));
}

#[test]
fn invoke_twice_gives_the_same_rows() {
    let server = Server::new("http://1.2.3.4/RPC2");
    let b = f::MultiBuilder::new(&server, "ABCD", None).call(f::path()).call(f::size_bytes());
    let reply = || RemoteValue::Array(vec![row(vec![text("a/b.txt"), RemoteValue::Int(12)])]);
    let first = b.invoke(Ok(reply())).unwrap();
    let second = b.invoke(Ok(reply())).unwrap();
    assert_eq!(first, second);
    assert_eq!(first, vec![("a/b.txt".to_string(), 12)]);
}

#[test]
fn failed_call_is_handed_on() {
    let server = Server::new("http://1.2.3.4/RPC2");
    let b = d::MultiBuilder::new(&server, "default").call(d::name());
    let expected = refused_call().to_string();
    match b.invoke(Err(refused_call())) {
        Err(RtorrentError::XmlRpc(e)) => assert_eq!(e.to_string(), expected),
        other => panic!("expected the transport's error, got {:?}", other),
    }
    match b.query().invoke(Err(refused_call())) {
        Err(RtorrentError::XmlRpc(e)) => assert_eq!(e.to_string(), expected),
        other => panic!("expected the transport's error, got {:?}", other),
    }
}

#[test]
fn message_of_a_failed_call_names_the_cause() {
    let cause = refused_call().to_string();
    assert!(cause.contains("connection refused"));
    let e = RtorrentError::from(refused_call());
    assert!(matches!(e, RtorrentError::XmlRpc(_)));
    assert_eq!(e.message(), format!("XML-RPC: {}", cause));
}
