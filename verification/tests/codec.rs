use rtorrent_xmlrpc_bindings::error::{Expected, Mismatch, RtorrentError};
use rtorrent_xmlrpc_bindings::value::{RemoteValue, ScalarType, ScalarValue, Shape};
use rtorrent_xmlrpc_bindings::value_conversion::{
    complete, decode, encode, list, string, FixedPoint, TryFromValue,
};

fn mismatch<T>(r: Result<T, RtorrentError>) -> Mismatch {
    match r {
        Err(RtorrentError::UnexpectedStructure(m)) => m,
        Err(RtorrentError::XmlRpc(_)) => panic!("a transport error where a structural one was due"),
        Ok(_) => panic!("a value where an error was due"),
    }
}

#[test]
fn integer_accepts_both_widths() {
    assert_eq!(i64::try_from_value(&RemoteValue::Int(-5)).unwrap(), -5);
    assert_eq!(i64::try_from_value(&RemoteValue::Int(i32::MAX)).unwrap(), 2147483647);
    assert_eq!(
        i64::try_from_value(&RemoteValue::Int64(9_000_000_000)).unwrap(),
        9_000_000_000
    );
    assert_eq!(i64::try_from_value(&RemoteValue::Int64(i64::MIN)).unwrap(), i64::MIN);
}

#[test]
fn integer_rejects_other_shapes() {
    let m = mismatch(i64::try_from_value(&RemoteValue::Bool(true)));
    assert_eq!(m, Mismatch { received: Shape::Bool(true), expected: Expected::Integer });
    let m = mismatch(i64::try_from_value(&RemoteValue::String("12".to_string())));
    assert_eq!(
        m,
        Mismatch { received: Shape::String("12".to_string()), expected: Expected::Integer }
    );
    let m = mismatch(i64::try_from_value(&RemoteValue::Nil));
    assert_eq!(m.received, Shape::Nil);
    let m = mismatch(i64::try_from_value(&RemoteValue::Double(0x3ff8_0000_0000_0000)));
    assert_eq!(m.received, Shape::Double(0x3ff8_0000_0000_0000));
}

#[test]
fn fraction_counts_thousandths() {
    let f = FixedPoint::try_from_value(&RemoteValue::Int64(1500)).unwrap();
    assert_eq!(f, FixedPoint { thousandths: 1500 });
    let f = FixedPoint::try_from_value(&RemoteValue::Int(-250)).unwrap();
    assert_eq!(f.thousandths, -250);
    let m = mismatch(FixedPoint::try_from_value(&RemoteValue::String("1.5".to_string())));
    assert_eq!(
        m,
        Mismatch { received: Shape::String("1.5".to_string()), expected: Expected::Integer }
    );
}

#[test]
fn fraction_round_trip_is_within_epsilon() {
    let cases: [f64; 5] = [1.5, 0.0, 0.001, 2.25, 1234.567];
    for v in cases {
        let wire = (v * 1000.0).round() as i64;
        let f = FixedPoint::try_from_value(&RemoteValue::Int64(wire)).unwrap();
        assert_eq!(f.thousandths, wire);
        let back = f.thousandths as f64 / 1000.0;
        assert!((back - v).abs() < 1e-9);
    }
    let f = FixedPoint::try_from_value(&RemoteValue::Int64(1500)).unwrap();
    assert_eq!(f.thousandths as f64 / 1000.0, 1.5);
}

#[test]
fn boolean_decode() {
    assert_eq!(bool::try_from_value(&RemoteValue::Int(0)).unwrap(), false);
    assert_eq!(bool::try_from_value(&RemoteValue::Int(7)).unwrap(), true);
    assert_eq!(bool::try_from_value(&RemoteValue::Int64(0)).unwrap(), false);
    assert_eq!(bool::try_from_value(&RemoteValue::Int64(-1)).unwrap(), true);
    assert_eq!(bool::try_from_value(&RemoteValue::Bool(true)).unwrap(), true);
    assert_eq!(bool::try_from_value(&RemoteValue::Bool(false)).unwrap(), false);
    let m = mismatch(bool::try_from_value(&RemoteValue::String("true".to_string())));
    assert_eq!(
        m,
        Mismatch { received: Shape::String("true".to_string()), expected: Expected::Boolean }
    );
}

#[test]
fn string_decode() {
    let v = RemoteValue::String("d.name".to_string());
    assert_eq!(string(&v).unwrap(), "d.name");
    assert_eq!(String::try_from_value(&v).unwrap(), "d.name".to_string());
    let m = mismatch(String::try_from_value(&RemoteValue::Base64(vec![104, 105])));
    assert_eq!(m, Mismatch { received: Shape::Base64(2), expected: Expected::String });
    let m = mismatch(string(&RemoteValue::Int(1)).map(|s| s.to_string()));
    assert_eq!(m, Mismatch { received: Shape::Int(1), expected: Expected::String });
}

#[test]
fn void_decode() {
    assert!(<()>::try_from_value(&RemoteValue::Int(0)).is_ok());
    assert!(<()>::try_from_value(&RemoteValue::Nil).is_ok());
    let m = mismatch(<()>::try_from_value(&RemoteValue::Int(1)));
    assert_eq!(m, Mismatch { received: Shape::Int(1), expected: Expected::Void });
    let m = mismatch(<()>::try_from_value(&RemoteValue::String(String::new())));
    assert_eq!(m, Mismatch { received: Shape::String(String::new()), expected: Expected::Void });
    assert!(<()>::try_from_value(&RemoteValue::Int64(0)).is_ok());
    let m = mismatch(<()>::try_from_value(&RemoteValue::Int64(-1)));
    assert_eq!(m, Mismatch { received: Shape::Int64(-1), expected: Expected::Void });
    let m = mismatch(<()>::try_from_value(&RemoteValue::Bool(false)));
    assert_eq!(m, Mismatch { received: Shape::Bool(false), expected: Expected::Void });
}

#[test]
fn list_decode() {
    let v = RemoteValue::Array(vec![RemoteValue::Int(1), RemoteValue::Nil]);
    let items = list(&v).unwrap();
    assert_eq!(items.len(), 2);
    assert_eq!(items[0], RemoteValue::Int(1));
    assert_eq!(items[1], RemoteValue::Nil);
    let m = mismatch(list(&RemoteValue::Struct(vec![])).map(|a| a.len()));
    assert_eq!(m, Mismatch { received: Shape::Struct(0), expected: Expected::Array });
    let m = mismatch(list(&RemoteValue::DateTime("20240101T00:00:00".to_string())).map(|a| a.len()));
    assert_eq!(m.received, Shape::DateTime("20240101T00:00:00".to_string()));
}

#[test]
fn decode_by_type() {
    assert_eq!(
        decode(ScalarType::Integer, &RemoteValue::Int(3)).unwrap(),
        ScalarValue::Integer(3)
    );
    assert_eq!(
        decode(ScalarType::FixedPointFraction, &RemoteValue::Int64(1500)).unwrap(),
        ScalarValue::Fraction(1500)
    );
    assert_eq!(
        decode(ScalarType::Boolean, &RemoteValue::Int(2)).unwrap(),
        ScalarValue::Boolean(true)
    );
    assert_eq!(
        decode(ScalarType::String, &RemoteValue::String("x".to_string())).unwrap(),
        ScalarValue::Text("x".to_string())
    );
    assert_eq!(decode(ScalarType::Void, &RemoteValue::Nil).unwrap(), ScalarValue::Void);
    let m = mismatch(decode(ScalarType::String, &RemoteValue::Int(3)));
    assert_eq!(m, Mismatch { received: Shape::Int(3), expected: Expected::String });
}

#[test]
fn decoded_scalar_has_the_type_asked_for() {
    let types = [
        ScalarType::Integer,
        ScalarType::FixedPointFraction,
        ScalarType::Boolean,
        ScalarType::String,
        ScalarType::Void,
    ];
    let values = [
        RemoteValue::Int(0),
        RemoteValue::Int64(12),
        RemoteValue::Bool(true),
        RemoteValue::String("s".to_string()),
        RemoteValue::Nil,
    ];
    for ty in types {
        for v in &values {
            if let Ok(s) = decode(ty, v) {
                assert_eq!(s.scalar_type(), ty);
            }
        }
    }
}

#[test]
fn native_types_stand_for_scalar_types() {
    assert_eq!(i64::type_tag(), ScalarType::Integer);
    assert_eq!(FixedPoint::type_tag(), ScalarType::FixedPointFraction);
    assert_eq!(bool::type_tag(), ScalarType::Boolean);
    assert_eq!(String::type_tag(), ScalarType::String);
    assert_eq!(<()>::type_tag(), ScalarType::Void);
}

#[test]
fn encode_then_decode() {
    let scalars = [
        ScalarValue::Integer(-42),
        ScalarValue::Boolean(true),
        ScalarValue::Text("/tmp/dir".to_string()),
    ];
    for s in &scalars {
        let wire = encode(s).unwrap();
        assert_eq!(&decode(s.scalar_type(), &wire).unwrap(), s);
    }
    assert_eq!(encode(&ScalarValue::Integer(5)), Some(RemoteValue::Int64(5)));
    assert_eq!(encode(&ScalarValue::Boolean(false)), Some(RemoteValue::Bool(false)));
    assert_eq!(encode(&ScalarValue::Fraction(1500)), None);
    assert_eq!(encode(&ScalarValue::Void), None);
}

#[test]
fn shape_of_each_variant() {
    assert_eq!(RemoteValue::Int(4).shape(), Shape::Int(4));
    assert_eq!(RemoteValue::Int64(4).shape(), Shape::Int64(4));
    assert_eq!(RemoteValue::Bool(false).shape(), Shape::Bool(false));
    assert_eq!(RemoteValue::String("a".to_string()).shape(), Shape::String("a".to_string()));
    assert_eq!(RemoteValue::Double(7).shape(), Shape::Double(7));
    assert_eq!(
        RemoteValue::DateTime("20240101T00:00:00".to_string()).shape(),
        Shape::DateTime("20240101T00:00:00".to_string())
    );
    assert_eq!(RemoteValue::Base64(vec![1, 2, 3]).shape(), Shape::Base64(3));
    assert_eq!(
        RemoteValue::Struct(vec![("k".to_string(), RemoteValue::Nil)]).shape(),
        Shape::Struct(1)
    );
    assert_eq!(
        RemoteValue::Array(vec![RemoteValue::Nil, RemoteValue::Nil]).shape(),
        Shape::Array(2)
    );
    assert_eq!(RemoteValue::Nil.shape(), Shape::Nil);
}

#[test]
fn scalars_hand_out_their_payload() {
    assert_eq!(ScalarValue::Integer(5).as_integer(), Some(5));
    assert_eq!(ScalarValue::Fraction(5).as_integer(), None);
    assert_eq!(ScalarValue::Fraction(1500).as_thousandths(), Some(1500));
    assert_eq!(ScalarValue::Integer(1500).as_thousandths(), None);
    assert_eq!(ScalarValue::Boolean(true).as_boolean(), Some(true));
    assert_eq!(ScalarValue::Void.as_boolean(), None);
    assert_eq!(ScalarValue::Text("x".to_string()).as_text(), Some("x"));
    assert_eq!(ScalarValue::Integer(1).as_text(), None);
}

#[test]
fn complete_decodes_a_reply() {
    let n: i64 = complete(Ok(RemoteValue::Int(0))).unwrap();
    assert_eq!(n, 0);
    let s: String = complete(Ok(RemoteValue::String("host".to_string()))).unwrap();
    assert_eq!(s, "host");
    let m = mismatch(complete::<i64>(Ok(RemoteValue::Nil)));
    assert_eq!(m, Mismatch { received: Shape::Nil, expected: Expected::Integer });
}

#[test]
fn descriptions_say_what_came_and_what_was_due() {
    let m = Mismatch { received: Shape::Int(1), expected: Expected::Void };
    assert_eq!(m.describe(), "Got Int(1), expected int(0) or nil");
    let m = Mismatch { received: Shape::Int64(-9000000000), expected: Expected::String };
    assert_eq!(m.describe(), "Got Int64(-9000000000), expected string");
    let m = Mismatch { received: Shape::Array(3), expected: Expected::Columns(2) };
    assert_eq!(m.describe(), "Got Array of 3, expected row of 2 columns");
    let m = Mismatch { received: Shape::Bool(false), expected: Expected::Integer };
    assert_eq!(m.describe(), "Got Bool(false), expected integer");
    let m = Mismatch { received: Shape::Nil, expected: Expected::Boolean };
    assert_eq!(m.describe(), "Got Nil, expected bool or integer type");
    let m = Mismatch { received: Shape::Struct(2), expected: Expected::Array };
    assert_eq!(m.describe(), "Got Struct of 2, expected array");
    let m = Mismatch { received: Shape::Base64(20), expected: Expected::String };
    assert_eq!(m.describe(), "Got Base64 of 20, expected string");
    let m = Mismatch { received: Shape::Double(4609434218613702656), expected: Expected::Integer };
    assert_eq!(m.describe(), "Got Double(bits 4609434218613702656), expected integer");
    let m = Mismatch {
        received: Shape::DateTime("20240101T00:00:00".to_string()),
        expected: Expected::Integer,
    };
    assert_eq!(m.describe(), "Got DateTime(20240101T00:00:00), expected integer");
    let e = RtorrentError::UnexpectedStructure(Mismatch {
        received: Shape::String("abc".to_string()),
        expected: Expected::Integer,
    });
    assert_eq!(e.message(), "Unexpected XML structure: Got String(abc), expected integer");
}
