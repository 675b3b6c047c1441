//! Decoding wire values into native scalars, and encoding the scalars that
//! can be sent.

use vstd::prelude::*;
use crate::error::{Expected, Mismatch, RtorrentError};
use crate::value::{RemoteValue, ScalarType, ScalarValue};

verus! {

/// A fixed-point decimal with three places, held as its number of
/// thousandths: the value is `thousandths / 1000`.
#[derive(Clone, Copy, Debug, PartialEq, Eq, Structural)]
pub struct FixedPoint {
    pub thousandths: i64,
}

/// The integer a wire value stands for: both integer widths are accepted,
/// every other shape is a structural error.
pub open spec fn integer_spec(val: RemoteValue) -> Result<i64, RtorrentError> {
    match val {
        RemoteValue::Int(i) => Ok(i as i64),
        RemoteValue::Int64(i) => Ok(i),
        _ => Err(RtorrentError::unexpected(val.shape_spec(), Expected::Integer)),
    }
}

/// The fixed-point fraction a wire value stands for: the integer on the wire
/// counts thousandths.
pub open spec fn fraction_spec(val: RemoteValue) -> Result<FixedPoint, RtorrentError> {
    match integer_spec(val) {
        Ok(i) => Ok(FixedPoint { thousandths: i }),
        Err(e) => Err(e),
    }
}

/// The boolean a wire value stands for: a boolean is itself, an integer is
/// true unless it is zero, every other shape is a structural error.
pub open spec fn boolean_spec(val: RemoteValue) -> Result<bool, RtorrentError> {
    match val {
        RemoteValue::Int(i) => Ok(i != 0),
        RemoteValue::Int64(i) => Ok(i != 0),
        RemoteValue::Bool(b) => Ok(b),
        _ => Err(RtorrentError::unexpected(val.shape_spec(), Expected::Boolean)),
    }
}

/// The string a wire value stands for: only a wire string is accepted.
pub open spec fn string_spec(val: RemoteValue) -> Result<String, RtorrentError> {
    match val {
        RemoteValue::String(s) => Ok(s),
        _ => Err(RtorrentError::unexpected(val.shape_spec(), Expected::String)),
    }
}

/// Whether a wire value says "no content": the integer zero, in either
/// width, and nil do; every other shape, a nonzero integer among them, is a
/// structural error.
pub open spec fn void_spec(val: RemoteValue) -> Result<(), RtorrentError> {
    match val {
        RemoteValue::Int(i) if i == 0 => Ok(()),
        RemoteValue::Int64(i) if i == 0 => Ok(()),
        RemoteValue::Nil => Ok(()),
        _ => Err(RtorrentError::unexpected(val.shape_spec(), Expected::Void)),
    }
}

/// The elements of a wire array; every other shape is a structural error.
pub open spec fn list_spec(val: RemoteValue) -> Result<Seq<RemoteValue>, RtorrentError> {
    match val {
        RemoteValue::Array(a) => Ok(a@),
        _ => Err(RtorrentError::unexpected(val.shape_spec(), Expected::Array)),
    }
}

/// The scalar of type `ty` that a wire value stands for.
pub open spec fn decode_spec(ty: ScalarType, val: RemoteValue) -> Result<ScalarValue, RtorrentError> {
    match ty {
        ScalarType::Integer => match integer_spec(val) {
            Ok(i) => Ok(ScalarValue::Integer(i)),
            Err(e) => Err(e),
        },
        ScalarType::FixedPointFraction => match fraction_spec(val) {
            Ok(f) => Ok(ScalarValue::Fraction(f.thousandths)),
            Err(e) => Err(e),
        },
        ScalarType::Boolean => match boolean_spec(val) {
            Ok(b) => Ok(ScalarValue::Boolean(b)),
            Err(e) => Err(e),
        },
        ScalarType::String => match string_spec(val) {
            Ok(s) => Ok(ScalarValue::Text(s)),
            Err(e) => Err(e),
        },
        ScalarType::Void => match void_spec(val) {
            Ok(_) => Ok(ScalarValue::Void),
            Err(e) => Err(e),
        },
    }
}

/// A native type that a wire value can be decoded into: the static side of
/// a scalar type.
pub trait TryFromValue: Sized {
    /// The scalar type that this native type stands for.
    spec fn scalar_type() -> ScalarType;

    /// This value as a scalar of that type.
    spec fn scalar(self) -> ScalarValue;

    /// What `val` decodes to.
    spec fn decoded(val: RemoteValue) -> Result<Self, RtorrentError>;

    /// The scalar type that this native type stands for.
    fn type_tag() -> (t: ScalarType)
        ensures
            t == Self::scalar_type(),
    ;

    /// Decodes `val` into this native type.
    fn try_from_value(val: &RemoteValue) -> (r: Result<Self, RtorrentError>)
        ensures
            r == Self::decoded(*val),
    ;

    /// Decoding into the native type and decoding under its scalar type
    /// agree: they fail together, with the same error, and succeed with the
    /// same scalar.
    proof fn lemma_decoded_agrees(val: RemoteValue)
        ensures
            decode_spec(Self::scalar_type(), val) == match Self::decoded(val) {
                Ok(native) => Ok::<ScalarValue, RtorrentError>(native.scalar()),
                Err(e) => Err::<ScalarValue, RtorrentError>(e),
            },
    ;
}

impl TryFromValue for i64 {
    open spec fn scalar_type() -> ScalarType {
        ScalarType::Integer
    }

    open spec fn scalar(self) -> ScalarValue {
        ScalarValue::Integer(self)
    }

    open spec fn decoded(val: RemoteValue) -> Result<Self, RtorrentError> {
        integer_spec(val)
    }

    fn type_tag() -> (t: ScalarType) {
        ScalarType::Integer
    }

    fn try_from_value(val: &RemoteValue) -> (r: Result<Self, RtorrentError>) {
        match val {
            RemoteValue::Int(i) => Ok(*i as i64),
            RemoteValue::Int64(i) => Ok(*i),
            _ => Err(
                RtorrentError::UnexpectedStructure(
                    Mismatch { received: val.shape(), expected: Expected::Integer },
                ),
            ),
        }
    }

    proof fn lemma_decoded_agrees(val: RemoteValue) {
    }
}

impl TryFromValue for FixedPoint {
    open spec fn scalar_type() -> ScalarType {
        ScalarType::FixedPointFraction
    }

    open spec fn scalar(self) -> ScalarValue {
        ScalarValue::Fraction(self.thousandths)
    }

    open spec fn decoded(val: RemoteValue) -> Result<Self, RtorrentError> {
        fraction_spec(val)
    }

    fn type_tag() -> (t: ScalarType) {
        ScalarType::FixedPointFraction
    }

    fn try_from_value(val: &RemoteValue) -> (r: Result<Self, RtorrentError>) {
        match i64::try_from_value(val) {
            Ok(i) => Ok(FixedPoint { thousandths: i }),
            Err(e) => Err(e),
        }
    }

    proof fn lemma_decoded_agrees(val: RemoteValue) {
    }
}

impl TryFromValue for bool {
    open spec fn scalar_type() -> ScalarType {
        ScalarType::Boolean
    }

    open spec fn scalar(self) -> ScalarValue {
        ScalarValue::Boolean(self)
    }

    open spec fn decoded(val: RemoteValue) -> Result<Self, RtorrentError> {
        boolean_spec(val)
    }

    fn type_tag() -> (t: ScalarType) {
        ScalarType::Boolean
    }

    fn try_from_value(val: &RemoteValue) -> (r: Result<Self, RtorrentError>) {
        match val {
            RemoteValue::Int(i) => Ok(*i != 0),
            RemoteValue::Int64(i) => Ok(*i != 0),
            RemoteValue::Bool(b) => Ok(*b),
            _ => Err(
                RtorrentError::UnexpectedStructure(
                    Mismatch { received: val.shape(), expected: Expected::Boolean },
                ),
            ),
        }
    }

    proof fn lemma_decoded_agrees(val: RemoteValue) {
    }
}

/// Finishes a call with what the transport came back with: a failed call is
/// handed on as it is, a reply is decoded into `T`.
pub fn complete<T: TryFromValue>(outcome: Result<RemoteValue, xmlrpc::Error>) -> (r: Result<
    T,
    RtorrentError,
>)
    ensures
        r == match outcome {
            Err(e) => Err::<T, RtorrentError>(RtorrentError::XmlRpc(e)),
            Ok(reply) => T::decoded(reply),
        },
{
    match outcome {
        Err(e) => Err(RtorrentError::XmlRpc(e)),
        Ok(reply) => T::try_from_value(&reply),
    }
}

/// Borrows the text of a wire string.
pub fn string(val: &RemoteValue) -> (r: Result<&str, RtorrentError>)
    ensures
        match string_spec(*val) {
            Ok(s) => r matches Ok(t) && t@ == s@,
            Err(e) => r == Err::<&str, RtorrentError>(e),
        },
{
    match val {
        RemoteValue::String(s) => Ok(s.as_str()),
        _ => Err(
            RtorrentError::UnexpectedStructure(
                Mismatch { received: val.shape(), expected: Expected::String },
            ),
        ),
    }
}

impl TryFromValue for String {
    open spec fn scalar_type() -> ScalarType {
        ScalarType::String
    }

    open spec fn scalar(self) -> ScalarValue {
        ScalarValue::Text(self)
    }

    open spec fn decoded(val: RemoteValue) -> Result<Self, RtorrentError> {
        string_spec(val)
    }

    fn type_tag() -> (t: ScalarType) {
        ScalarType::String
    }

    fn try_from_value(val: &RemoteValue) -> (r: Result<Self, RtorrentError>) {
        match val {
            RemoteValue::String(s) => Ok(s.clone()),
            _ => Err(
                RtorrentError::UnexpectedStructure(
                    Mismatch { received: val.shape(), expected: Expected::String },
                ),
            ),
        }
    }

    proof fn lemma_decoded_agrees(val: RemoteValue) {
    }
}

impl TryFromValue for () {
    open spec fn scalar_type() -> ScalarType {
        ScalarType::Void
    }

    open spec fn scalar(self) -> ScalarValue {
        ScalarValue::Void
    }

    open spec fn decoded(val: RemoteValue) -> Result<Self, RtorrentError> {
        void_spec(val)
    }

    fn type_tag() -> (t: ScalarType) {
        ScalarType::Void
    }

    fn try_from_value(val: &RemoteValue) -> (r: Result<Self, RtorrentError>) {
        match val {
            RemoteValue::Int(i) if *i == 0 => Ok(()),
            RemoteValue::Int64(i) if *i == 0 => Ok(()),
            RemoteValue::Nil => Ok(()),
            _ => Err(
                RtorrentError::UnexpectedStructure(
                    Mismatch { received: val.shape(), expected: Expected::Void },
                ),
            ),
        }
    }

    proof fn lemma_decoded_agrees(val: RemoteValue) {
    }
}

/// Borrows the elements of a wire array.
pub fn list(val: &RemoteValue) -> (r: Result<&Vec<RemoteValue>, RtorrentError>)
    ensures
        match list_spec(*val) {
            Ok(elements) => r matches Ok(a) && a@ == elements && *val == RemoteValue::Array(*a),
            Err(e) => r == Err::<&Vec<RemoteValue>, RtorrentError>(e),
        },
{
    match val {
        RemoteValue::Array(a) => Ok(a),
        _ => Err(
            RtorrentError::UnexpectedStructure(
                Mismatch { received: val.shape(), expected: Expected::Array },
            ),
        ),
    }
}

/// Decodes `val` as the scalar type `ty`.
pub fn decode(ty: ScalarType, val: &RemoteValue) -> (r: Result<ScalarValue, RtorrentError>)
    ensures
        r == decode_spec(ty, *val),
{
    match ty {
        ScalarType::Integer => match i64::try_from_value(val) {
            Ok(i) => Ok(ScalarValue::Integer(i)),
            Err(e) => Err(e),
        },
        ScalarType::FixedPointFraction => match FixedPoint::try_from_value(val) {
            Ok(f) => Ok(ScalarValue::Fraction(f.thousandths)),
            Err(e) => Err(e),
        },
        ScalarType::Boolean => match bool::try_from_value(val) {
            Ok(b) => Ok(ScalarValue::Boolean(b)),
            Err(e) => Err(e),
        },
        ScalarType::String => match String::try_from_value(val) {
            Ok(s) => Ok(ScalarValue::Text(s)),
            Err(e) => Err(e),
        },
        ScalarType::Void => match <()>::try_from_value(val) {
            Ok(_) => Ok(ScalarValue::Void),
            Err(e) => Err(e),
        },
    }
}

/// The wire value that carries a scalar to the server, for the scalars that
/// can be sent: integers travel in 64 bits, booleans and strings as
/// themselves.
pub open spec fn encodes_to(scalar: ScalarValue, wire: RemoteValue) -> bool {
    match scalar {
        ScalarValue::Integer(i) => wire == RemoteValue::Int64(i),
        ScalarValue::Boolean(b) => wire == RemoteValue::Bool(b),
        ScalarValue::Text(s) => wire == RemoteValue::String(s),
        _ => false,
    }
}

/// Whether a scalar can be sent: no fraction and no void can.
pub open spec fn encodable(scalar: ScalarValue) -> bool {
    scalar is Integer || scalar is Boolean || scalar is Text
}

/// Encodes a scalar for the wire; `None` for a scalar that cannot be sent.
pub fn encode(scalar: &ScalarValue) -> (r: Option<RemoteValue>)
    ensures
        encodable(*scalar) <==> r is Some,
        r matches Some(wire) ==> encodes_to(*scalar, wire),
{
    match scalar {
        ScalarValue::Integer(i) => Some(RemoteValue::Int64(*i)),
        ScalarValue::Boolean(b) => Some(RemoteValue::Bool(*b)),
        ScalarValue::Text(s) => Some(RemoteValue::String(s.clone())),
        _ => None,
    }
}

/// The wire integer that counts the thousandths of a fraction decodes to
/// that fraction, in either width.
pub proof fn lemma_fraction_round_trip(f: FixedPoint)
    ensures
        fraction_spec(RemoteValue::Int64(f.thousandths)) == Ok::<FixedPoint, RtorrentError>(f),
        i32::MIN <= f.thousandths <= i32::MAX ==> fraction_spec(
            RemoteValue::Int(f.thousandths as i32),
        ) == Ok::<FixedPoint, RtorrentError>(f),
{
}

/// A scalar that was encoded decodes to itself under its own type.
pub proof fn lemma_encode_decode(scalar: ScalarValue, wire: RemoteValue)
    requires
        encodes_to(scalar, wire),
    ensures
        decode_spec(scalar.scalar_type_spec(), wire) == Ok::<ScalarValue, RtorrentError>(scalar),
{
}

} // verus!
