//! Wire values and the native scalars they decode into.

use vstd::prelude::*;

verus! {

/// A value as it travels over XML-RPC.
///
/// A `Double` holds the IEEE 754 bit pattern of the number, a `DateTime` its
/// ISO 8601 text, and a `Struct` its members in key order.
#[derive(Debug, PartialEq, Eq)]
pub enum RemoteValue {
    Int(i32),
    Int64(i64),
    Bool(bool),
    String(String),
    Double(u64),
    DateTime(String),
    Base64(Vec<u8>),
    Struct(Vec<(String, RemoteValue)>),
    Array(Vec<RemoteValue>),
    Nil,
}

/// What a structural error carries of the value that was received: a scalar
/// whole, a container by its variant and the number of things it holds.
#[derive(Debug, PartialEq, Eq)]
pub enum Shape {
    Int(i32),
    Int64(i64),
    Bool(bool),
    String(String),
    Double(u64),
    DateTime(String),
    Base64(usize),
    Struct(usize),
    Array(usize),
    Nil,
}

/// The scalar types a remote accessor can be declared with.
#[derive(Clone, Copy, Debug, PartialEq, Eq, Structural)]
pub enum ScalarType {
    Integer,
    FixedPointFraction,
    Boolean,
    String,
    Void,
}

/// A decoded scalar. A `Fraction` holds the number of thousandths that were
/// on the wire: the fraction itself is that number divided by 1000.
#[derive(Debug, PartialEq, Eq)]
pub enum ScalarValue {
    Integer(i64),
    Fraction(i64),
    Boolean(bool),
    Text(String),
    Void,
}

impl Clone for Shape {
    fn clone(&self) -> (r: Self)
        ensures
            r == *self,
    {
        match self {
            Shape::Int(i) => Shape::Int(*i),
            Shape::Int64(i) => Shape::Int64(*i),
            Shape::Bool(b) => Shape::Bool(*b),
            Shape::String(s) => Shape::String(s.clone()),
            Shape::Double(bits) => Shape::Double(*bits),
            Shape::DateTime(text) => Shape::DateTime(text.clone()),
            Shape::Base64(n) => Shape::Base64(*n),
            Shape::Struct(n) => Shape::Struct(*n),
            Shape::Array(n) => Shape::Array(*n),
            Shape::Nil => Shape::Nil,
        }
    }
}

impl Clone for ScalarValue {
    fn clone(&self) -> (r: Self)
        ensures
            r == *self,
    {
        match self {
            ScalarValue::Integer(i) => ScalarValue::Integer(*i),
            ScalarValue::Fraction(t) => ScalarValue::Fraction(*t),
            ScalarValue::Boolean(b) => ScalarValue::Boolean(*b),
            ScalarValue::Text(s) => ScalarValue::Text(s.clone()),
            ScalarValue::Void => ScalarValue::Void,
        }
    }
}

impl RemoteValue {
    /// The shape of this value.
    pub open spec fn shape_spec(&self) -> Shape {
        match *self {
            RemoteValue::Int(i) => Shape::Int(i),
            RemoteValue::Int64(i) => Shape::Int64(i),
            RemoteValue::Bool(b) => Shape::Bool(b),
            RemoteValue::String(s) => Shape::String(s),
            RemoteValue::Double(bits) => Shape::Double(bits),
            RemoteValue::DateTime(text) => Shape::DateTime(text),
            RemoteValue::Base64(data) => Shape::Base64(data@.len() as usize),
            RemoteValue::Struct(members) => Shape::Struct(members@.len() as usize),
            RemoteValue::Array(a) => Shape::Array(a@.len() as usize),
            RemoteValue::Nil => Shape::Nil,
        }
    }

    /// Whether this value is the wire string with the characters `text`.
    pub open spec fn is_text(&self, text: Seq<char>) -> bool {
        self matches RemoteValue::String(s) && s@ == text
    }

    #[verifier::when_used_as_spec(shape_spec)]
    pub fn shape(&self) -> (s: Shape)
        ensures
            s == self.shape_spec(),
    {
        match self {
            RemoteValue::Int(i) => Shape::Int(*i),
            RemoteValue::Int64(i) => Shape::Int64(*i),
            RemoteValue::Bool(b) => Shape::Bool(*b),
            RemoteValue::String(s) => Shape::String(s.clone()),
            RemoteValue::Double(bits) => Shape::Double(*bits),
            RemoteValue::DateTime(text) => Shape::DateTime(text.clone()),
            RemoteValue::Base64(data) => Shape::Base64(data.len()),
            RemoteValue::Struct(members) => Shape::Struct(members.len()),
            RemoteValue::Array(a) => Shape::Array(a.len()),
            RemoteValue::Nil => Shape::Nil,
        }
    }
}

impl ScalarValue {
    /// The scalar type this value belongs to.
    pub open spec fn scalar_type_spec(&self) -> ScalarType {
        match *self {
            ScalarValue::Integer(_) => ScalarType::Integer,
            ScalarValue::Fraction(_) => ScalarType::FixedPointFraction,
            ScalarValue::Boolean(_) => ScalarType::Boolean,
            ScalarValue::Text(_) => ScalarType::String,
            ScalarValue::Void => ScalarType::Void,
        }
    }

    /// The integer, if this is one.
    pub fn as_integer(&self) -> (r: Option<i64>)
        ensures
            r == (match *self {
                ScalarValue::Integer(i) => Some(i),
                _ => None,
            }),
    {
        match self {
            ScalarValue::Integer(i) => Some(*i),
            _ => None,
        }
    }

    /// The number of thousandths, if this is a fraction.
    pub fn as_thousandths(&self) -> (r: Option<i64>)
        ensures
            r == (match *self {
                ScalarValue::Fraction(t) => Some(t),
                _ => None,
            }),
    {
        match self {
            ScalarValue::Fraction(t) => Some(*t),
            _ => None,
        }
    }

    /// The boolean, if this is one.
    pub fn as_boolean(&self) -> (r: Option<bool>)
        ensures
            r == (match *self {
                ScalarValue::Boolean(b) => Some(b),
                _ => None,
            }),
    {
        match self {
            ScalarValue::Boolean(b) => Some(*b),
            _ => None,
        }
    }

    /// The text, if this is a string.
    pub fn as_text(&self) -> (r: Option<&str>)
        ensures
            match *self {
                ScalarValue::Text(s) => r matches Some(t) && t@ == s@,
                _ => r is None,
            },
    {
        match self {
            ScalarValue::Text(s) => Some(s.as_str()),
            _ => None,
        }
    }

    #[verifier::when_used_as_spec(scalar_type_spec)]
    pub fn scalar_type(&self) -> (t: ScalarType)
        ensures
            t == self.scalar_type_spec(),
    {
        match self {
            ScalarValue::Integer(_) => ScalarType::Integer,
            ScalarValue::Fraction(_) => ScalarType::FixedPointFraction,
            ScalarValue::Boolean(_) => ScalarType::Boolean,
            ScalarValue::Text(_) => ScalarType::String,
            ScalarValue::Void => ScalarType::Void,
        }
    }
}

} // verus!
