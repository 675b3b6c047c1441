//! The unified error type.

use vstd::prelude::*;
use vstd::string::*;
use crate::text::{decimal, digits, signed_to_string, unsigned_to_string};
use crate::value::Shape;

verus! {

/// The error of the XML-RPC client: a transport failure, a malformed reply or
/// a fault reported by the server. Its inside is not inspected here.
#[verifier::external_type_specification]
#[verifier::external_body]
pub struct ExXmlRpcError(xmlrpc::Error);

/// What a decoder was looking for when it met a value of another shape.
#[derive(Clone, Copy, Debug, PartialEq, Eq, Structural)]
pub enum Expected {
    /// An integer, of 32 or of 64 bits.
    Integer,
    /// A boolean, or an integer standing for one.
    Boolean,
    /// A string.
    String,
    /// The integer zero, of 32 or of 64 bits, or nil.
    Void,
    /// An array.
    Array,
    /// A row with this many columns.
    Columns(usize),
}

/// A received value that did not have the expected shape.
#[derive(Debug, PartialEq, Eq)]
pub struct Mismatch {
    pub received: Shape,
    pub expected: Expected,
}

impl Clone for Mismatch {
    fn clone(&self) -> (r: Self)
        ensures
            r == *self,
    {
        Mismatch { received: self.received.clone(), expected: self.expected }
    }
}

/// Every failure this crate reports.
#[derive(Debug)]
pub enum RtorrentError {
    /// The call itself failed; the cause is handed on untouched.
    XmlRpc(xmlrpc::Error),
    /// The reply arrived but did not have the shape that was asked for.
    UnexpectedStructure(Mismatch),
}

/// How a received shape is spelled in a description.
pub open spec fn shape_text(shape: Shape) -> Seq<char> {
    match shape {
        Shape::Int(i) => "Int("@ + decimal(i as int) + ")"@,
        Shape::Int64(i) => "Int64("@ + decimal(i as int) + ")"@,
        Shape::Bool(b) => if b {
            "Bool(true)"@
        } else {
            "Bool(false)"@
        },
        Shape::String(s) => "String("@ + s@ + ")"@,
        Shape::Double(bits) => "Double(bits "@ + digits(bits as nat) + ")"@,
        Shape::DateTime(text) => "DateTime("@ + text@ + ")"@,
        Shape::Base64(n) => "Base64 of "@ + digits(n as nat),
        Shape::Struct(n) => "Struct of "@ + digits(n as nat),
        Shape::Array(n) => "Array of "@ + digits(n as nat),
        Shape::Nil => "Nil"@,
    }
}

/// How an expectation is spelled in a description.
pub open spec fn expected_text(expected: Expected) -> Seq<char> {
    match expected {
        Expected::Integer => "integer"@,
        Expected::Boolean => "bool or integer type"@,
        Expected::String => "string"@,
        Expected::Void => "int(0) or nil"@,
        Expected::Array => "array"@,
        Expected::Columns(k) => "row of "@ + digits(k as nat) + " columns"@,
    }
}

impl Shape {
    /// Spells the shape for a description.
    pub fn text(&self) -> (s: String)
        ensures
            s@ == shape_text(*self),
    {
        match self {
            Shape::Int(i) => {
                let number = signed_to_string(*i as i64);
                String::from_str("Int(").concat(number.as_str()).concat(")")
            },
            Shape::Int64(i) => {
                let number = signed_to_string(*i);
                String::from_str("Int64(").concat(number.as_str()).concat(")")
            },
            Shape::Bool(b) => if *b {
                String::from_str("Bool(true)")
            } else {
                String::from_str("Bool(false)")
            },
            Shape::String(s) => String::from_str("String(").concat(s.as_str()).concat(")"),
            Shape::Double(bits) => {
                let number = unsigned_to_string(*bits);
                String::from_str("Double(bits ").concat(number.as_str()).concat(")")
            },
            Shape::DateTime(text) => String::from_str("DateTime(").concat(text.as_str()).concat(
                ")",
            ),
            Shape::Base64(n) => {
                let number = unsigned_to_string(*n as u64);
                String::from_str("Base64 of ").concat(number.as_str())
            },
            Shape::Struct(n) => {
                let number = unsigned_to_string(*n as u64);
                String::from_str("Struct of ").concat(number.as_str())
            },
            Shape::Array(n) => {
                let number = unsigned_to_string(*n as u64);
                String::from_str("Array of ").concat(number.as_str())
            },
            Shape::Nil => String::from_str("Nil"),
        }
    }
}

impl Expected {
    /// Spells the expectation for a description.
    pub fn text(&self) -> (s: String)
        ensures
            s@ == expected_text(*self),
    {
        match self {
            Expected::Integer => String::from_str("integer"),
            Expected::Boolean => String::from_str("bool or integer type"),
            Expected::String => String::from_str("string"),
            Expected::Void => String::from_str("int(0) or nil"),
            Expected::Array => String::from_str("array"),
            Expected::Columns(k) => {
                let number = unsigned_to_string(*k as u64);
                String::from_str("row of ").concat(number.as_str()).concat(" columns")
            },
        }
    }
}

impl Mismatch {
    /// What was received and what was expected, in words.
    pub open spec fn description(&self) -> Seq<char> {
        "Got "@ + shape_text(self.received) + ", expected "@ + expected_text(self.expected)
    }

    /// Says in words what was received and what was expected.
    pub fn describe(&self) -> (s: String)
        ensures
            s@ == self.description(),
    {
        let received = self.received.text();
        let expected = self.expected.text();
        String::from_str("Got ").concat(received.as_str()).concat(", expected ").concat(
            expected.as_str(),
        )
    }
}

/// Calls `to_string` on an `xmlrpc::Error`, which renders the error through
/// its `Display` impl. Nothing is claimed of the text that comes back.
#[verifier::external_body]
fn transport_text(e: &xmlrpc::Error) -> (s: String) {
    e.to_string()
}

impl RtorrentError {
    /// The structural error for a value of shape `received` where `expected`
    /// was asked for.
    pub open spec fn unexpected(received: Shape, expected: Expected) -> RtorrentError {
        RtorrentError::UnexpectedStructure(Mismatch { received, expected })
    }

    /// What a message starts with: the kind of the failure.
    pub open spec fn message_prefix(&self) -> Seq<char> {
        match *self {
            RtorrentError::XmlRpc(_) => "XML-RPC: "@,
            RtorrentError::UnexpectedStructure(_) => "Unexpected XML structure: "@,
        }
    }

    /// The failure in words: its kind, then for a structural error the
    /// description of the mismatch, for a failed call what the client says
    /// of it.
    pub fn message(&self) -> (s: String)
        ensures
            crate::text::has_prefix(s@, self.message_prefix()),
            match *self {
                RtorrentError::UnexpectedStructure(m) => s@ == self.message_prefix()
                    + m.description(),
                RtorrentError::XmlRpc(_) => true,
            },
    {
        match self {
            RtorrentError::XmlRpc(e) => {
                let cause = transport_text(e);
                let s = String::from_str("XML-RPC: ").concat(cause.as_str());
                assert(s@.subrange(0, "XML-RPC: "@.len() as int) =~= "XML-RPC: "@);
                s
            },
            RtorrentError::UnexpectedStructure(m) => {
                let detail = m.describe();
                let s = String::from_str("Unexpected XML structure: ").concat(detail.as_str());
                assert(s@.subrange(0, "Unexpected XML structure: "@.len() as int)
                    =~= "Unexpected XML structure: "@);
                s
            },
        }
    }
}

impl From<xmlrpc::Error> for RtorrentError {
    fn from(x: xmlrpc::Error) -> (r: Self) {
        RtorrentError::XmlRpc(x)
    }
}

impl vstd::std_specs::convert::FromSpecImpl<xmlrpc::Error> for RtorrentError {
    open spec fn obeys_from_spec() -> bool {
        true
    }

    open spec fn from_spec(x: xmlrpc::Error) -> Self {
        RtorrentError::XmlRpc(x)
    }
}

} // verus!
