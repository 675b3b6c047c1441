//! Rows as tuples of native values: the static side of a batch query.
//!
//! A row type is a tuple with one native type per column. Decoding a reply
//! into a row type checks the shape of each row against the arity of the
//! tuple and decodes each value into the native type at its place. It agrees
//! with decoding under the scalar types that the native types stand for.

use vstd::prelude::*;
use crate::error::{Expected, Mismatch, RtorrentError};
use crate::multicall::laws::lemma_decode_cells;
use crate::multicall::{decode_cells, decode_reply, decode_row, decode_rows};
use crate::value::{RemoteValue, ScalarType, ScalarValue, Shape};
use crate::value_conversion::{list, list_spec, TryFromValue};

verus! {

/// A tuple of native values, one per column of a query.
pub trait Row: Sized {
    /// The scalar types of the columns, in order.
    spec fn types() -> Seq<ScalarType>;

    /// The values of the row as scalars, in column order.
    spec fn scalars(self) -> Seq<ScalarValue>;

    /// The row that the values `cells` decode to: each value is decoded into
    /// the native type at its place, and the error is that of the first value
    /// that does not fit.
    spec fn decoded_cells(cells: Seq<RemoteValue>) -> Result<Self, RtorrentError>;

    /// The number of columns.
    fn arity() -> (n: usize)
        ensures
            n == Self::types().len(),
    ;

    /// Decodes the values of one row, which holds one value per column.
    fn from_cells(cells: &Vec<RemoteValue>) -> (r: Result<Self, RtorrentError>)
        requires
            cells@.len() == Self::types().len(),
        ensures
            r == Self::decoded_cells(cells@),
    ;

    /// Decoding into the tuple and decoding under the scalar types of its
    /// columns agree: they fail together, with the same error, and succeed
    /// with the same scalars.
    proof fn lemma_cells_agree(cells: Seq<RemoteValue>)
        requires
            cells.len() == Self::types().len(),
        ensures
            decode_cells(Self::types(), cells) == match Self::decoded_cells(cells) {
                Ok(row) => Ok::<Seq<ScalarValue>, RtorrentError>(row.scalars()),
                Err(e) => Err::<Seq<ScalarValue>, RtorrentError>(e),
            },
    ;
}

/// A row type with at least one column: what a query that can be invoked
/// comes back with.
pub trait Invocable: Row {}

/// A row type that can take one more column, of the native type `T`, behind
/// those it has.
pub trait Append<T: TryFromValue>: Row {
    /// The row type with the new column last.
    type Longer: Invocable;

    /// The longer row type has the same columns in the same order, and the
    /// new one behind them.
    proof fn lemma_longer()
        ensures
            Self::Longer::types() == Self::types().push(T::scalar_type()),
    ;
}

impl Row for () {
    open spec fn types() -> Seq<ScalarType> {
        Seq::empty()
    }

    open spec fn scalars(self) -> Seq<ScalarValue> {
        Seq::empty()
    }

    open spec fn decoded_cells(cells: Seq<RemoteValue>) -> Result<Self, RtorrentError> {
        Ok(())
    }

    fn arity() -> (n: usize) {
        0
    }

    fn from_cells(cells: &Vec<RemoteValue>) -> (r: Result<Self, RtorrentError>) {
        Ok(())
    }

    proof fn lemma_cells_agree(cells: Seq<RemoteValue>) {
    }
}

impl<T: TryFromValue> Append<T> for () {
    type Longer = (T,);

    proof fn lemma_longer() {
        assert(<(T,) as Row>::types() =~= <() as Row>::types().push(
            T::scalar_type(),
        ));
    }
}

impl<A: TryFromValue> Row for (A,) {
    open spec fn types() -> Seq<ScalarType> {
        seq![A::scalar_type()]
    }

    open spec fn scalars(self) -> Seq<ScalarValue> {
        seq![self.0.scalar()]
    }

    open spec fn decoded_cells(cells: Seq<RemoteValue>) -> Result<Self, RtorrentError> {
        match A::decoded(cells[0]) {
            Err(e) => Err(e),
            Ok(a) => Ok((a,)),
        }
    }

    fn arity() -> (n: usize) {
        1
    }

    fn from_cells(cells: &Vec<RemoteValue>) -> (r: Result<Self, RtorrentError>) {
        let a = match A::try_from_value(&cells[0]) {
            Ok(a) => a,
            Err(e) => { return Err(e); },
        };
        Ok((a,))
    }

    proof fn lemma_cells_agree(cells: Seq<RemoteValue>) {
        A::lemma_decoded_agrees(cells[0]);
        lemma_decode_cells(Self::types(), cells);
        match Self::decoded_cells(cells) {
            Ok(row) => {
                assert(decode_cells(Self::types(), cells) is Ok);
                assert(decode_cells(Self::types(), cells)->Ok_0 =~= row.scalars());
            },
            Err(e) => {
                assert(decode_cells(Self::types(), cells) is Err);
            },
        }
    }
}

impl<A: TryFromValue> Invocable for (A,) {
}

impl<A: TryFromValue, T: TryFromValue> Append<T> for (A,) {
    type Longer = (A, T);

    proof fn lemma_longer() {
        assert(<(A, T) as Row>::types() =~= <(A,) as Row>::types().push(
            T::scalar_type(),
        ));
    }
}

impl<A: TryFromValue, B: TryFromValue> Row for (A, B) {
    open spec fn types() -> Seq<ScalarType> {
        seq![A::scalar_type(), B::scalar_type()]
    }

    open spec fn scalars(self) -> Seq<ScalarValue> {
        seq![self.0.scalar(), self.1.scalar()]
    }

    open spec fn decoded_cells(cells: Seq<RemoteValue>) -> Result<Self, RtorrentError> {
        match A::decoded(cells[0]) {
            Err(e) => Err(e),
            Ok(a) => match B::decoded(cells[1]) {
                Err(e) => Err(e),
                Ok(b) => Ok((a, b)),
            },
        }
    }

    fn arity() -> (n: usize) {
        2
    }

    fn from_cells(cells: &Vec<RemoteValue>) -> (r: Result<Self, RtorrentError>) {
        let a = match A::try_from_value(&cells[0]) {
            Ok(a) => a,
            Err(e) => { return Err(e); },
        };
        let b = match B::try_from_value(&cells[1]) {
            Ok(b) => b,
            Err(e) => { return Err(e); },
        };
        Ok((a, b))
    }

    proof fn lemma_cells_agree(cells: Seq<RemoteValue>) {
        A::lemma_decoded_agrees(cells[0]);
        B::lemma_decoded_agrees(cells[1]);
        lemma_decode_cells(Self::types(), cells);
        match Self::decoded_cells(cells) {
            Ok(row) => {
                assert(decode_cells(Self::types(), cells) is Ok);
                assert(decode_cells(Self::types(), cells)->Ok_0 =~= row.scalars());
            },
            Err(e) => {
                assert(decode_cells(Self::types(), cells) is Err);
            },
        }
    }
}

impl<A: TryFromValue, B: TryFromValue> Invocable for (A, B) {
}

impl<A: TryFromValue, B: TryFromValue, T: TryFromValue> Append<T> for (A, B) {
    type Longer = (A, B, T);

    proof fn lemma_longer() {
        assert(<(A, B, T) as Row>::types() =~= <(A, B) as Row>::types().push(
            T::scalar_type(),
        ));
    }
}

impl<A: TryFromValue, B: TryFromValue, C: TryFromValue> Row for (A, B, C) {
    open spec fn types() -> Seq<ScalarType> {
        seq![A::scalar_type(), B::scalar_type(), C::scalar_type()]
    }

    open spec fn scalars(self) -> Seq<ScalarValue> {
        seq![self.0.scalar(), self.1.scalar(), self.2.scalar()]
    }

    open spec fn decoded_cells(cells: Seq<RemoteValue>) -> Result<Self, RtorrentError> {
        match A::decoded(cells[0]) {
            Err(e) => Err(e),
            Ok(a) => match B::decoded(cells[1]) {
                Err(e) => Err(e),
                Ok(b) => match C::decoded(cells[2]) {
                    Err(e) => Err(e),
                    Ok(c) => Ok((a, b, c)),
                },
            },
        }
    }

    fn arity() -> (n: usize) {
        3
    }

    fn from_cells(cells: &Vec<RemoteValue>) -> (r: Result<Self, RtorrentError>) {
        let a = match A::try_from_value(&cells[0]) {
            Ok(a) => a,
            Err(e) => { return Err(e); },
        };
        let b = match B::try_from_value(&cells[1]) {
            Ok(b) => b,
            Err(e) => { return Err(e); },
        };
        let c = match C::try_from_value(&cells[2]) {
            Ok(c) => c,
            Err(e) => { return Err(e); },
        };
        Ok((a, b, c))
    }

    proof fn lemma_cells_agree(cells: Seq<RemoteValue>) {
        A::lemma_decoded_agrees(cells[0]);
        B::lemma_decoded_agrees(cells[1]);
        C::lemma_decoded_agrees(cells[2]);
        lemma_decode_cells(Self::types(), cells);
        match Self::decoded_cells(cells) {
            Ok(row) => {
                assert(decode_cells(Self::types(), cells) is Ok);
                assert(decode_cells(Self::types(), cells)->Ok_0 =~= row.scalars());
            },
            Err(e) => {
                assert(decode_cells(Self::types(), cells) is Err);
            },
        }
    }
}

impl<A: TryFromValue, B: TryFromValue, C: TryFromValue> Invocable for (A, B, C) {
}

impl<A: TryFromValue, B: TryFromValue, C: TryFromValue, T: TryFromValue> Append<T> for (A, B, C) {
    type Longer = (A, B, C, T);

    proof fn lemma_longer() {
        assert(<(A, B, C, T) as Row>::types() =~= <(A, B, C) as Row>::types().push(
            T::scalar_type(),
        ));
    }
}

impl<A: TryFromValue, B: TryFromValue, C: TryFromValue, D: TryFromValue> Row for (A, B, C, D) {
    open spec fn types() -> Seq<ScalarType> {
        seq![A::scalar_type(), B::scalar_type(), C::scalar_type(), D::scalar_type()]
    }

    open spec fn scalars(self) -> Seq<ScalarValue> {
        seq![self.0.scalar(), self.1.scalar(), self.2.scalar(), self.3.scalar()]
    }

    open spec fn decoded_cells(cells: Seq<RemoteValue>) -> Result<Self, RtorrentError> {
        match A::decoded(cells[0]) {
            Err(e) => Err(e),
            Ok(a) => match B::decoded(cells[1]) {
                Err(e) => Err(e),
                Ok(b) => match C::decoded(cells[2]) {
                    Err(e) => Err(e),
                    Ok(c) => match D::decoded(cells[3]) {
                        Err(e) => Err(e),
                        Ok(d) => Ok((a, b, c, d)),
                    },
                },
            },
        }
    }

    fn arity() -> (n: usize) {
        4
    }

    fn from_cells(cells: &Vec<RemoteValue>) -> (r: Result<Self, RtorrentError>) {
        let a = match A::try_from_value(&cells[0]) {
            Ok(a) => a,
            Err(e) => { return Err(e); },
        };
        let b = match B::try_from_value(&cells[1]) {
            Ok(b) => b,
            Err(e) => { return Err(e); },
        };
        let c = match C::try_from_value(&cells[2]) {
            Ok(c) => c,
            Err(e) => { return Err(e); },
        };
        let d = match D::try_from_value(&cells[3]) {
            Ok(d) => d,
            Err(e) => { return Err(e); },
        };
        Ok((a, b, c, d))
    }

    proof fn lemma_cells_agree(cells: Seq<RemoteValue>) {
        A::lemma_decoded_agrees(cells[0]);
        B::lemma_decoded_agrees(cells[1]);
        C::lemma_decoded_agrees(cells[2]);
        D::lemma_decoded_agrees(cells[3]);
        lemma_decode_cells(Self::types(), cells);
        match Self::decoded_cells(cells) {
            Ok(row) => {
                assert(decode_cells(Self::types(), cells) is Ok);
                assert(decode_cells(Self::types(), cells)->Ok_0 =~= row.scalars());
            },
            Err(e) => {
                assert(decode_cells(Self::types(), cells) is Err);
            },
        }
    }
}

impl<A: TryFromValue, B: TryFromValue, C: TryFromValue, D: TryFromValue> Invocable for (A, B, C, D) {
}

impl<A: TryFromValue, B: TryFromValue, C: TryFromValue, D: TryFromValue, T: TryFromValue> Append<T> for (A, B, C, D) {
    type Longer = (A, B, C, D, T);

    proof fn lemma_longer() {
        assert(<(A, B, C, D, T) as Row>::types() =~= <(A, B, C, D) as Row>::types().push(
            T::scalar_type(),
        ));
    }
}

impl<A: TryFromValue, B: TryFromValue, C: TryFromValue, D: TryFromValue, E: TryFromValue> Row for (A, B, C, D, E) {
    open spec fn types() -> Seq<ScalarType> {
        seq![A::scalar_type(), B::scalar_type(), C::scalar_type(), D::scalar_type(), E::scalar_type()]
    }

    open spec fn scalars(self) -> Seq<ScalarValue> {
        seq![self.0.scalar(), self.1.scalar(), self.2.scalar(), self.3.scalar(), self.4.scalar()]
    }

    open spec fn decoded_cells(cells: Seq<RemoteValue>) -> Result<Self, RtorrentError> {
        match A::decoded(cells[0]) {
            Err(e) => Err(e),
            Ok(a) => match B::decoded(cells[1]) {
                Err(e) => Err(e),
                Ok(b) => match C::decoded(cells[2]) {
                    Err(e) => Err(e),
                    Ok(c) => match D::decoded(cells[3]) {
                        Err(e) => Err(e),
                        Ok(d) => match E::decoded(cells[4]) {
                            Err(e) => Err(e),
                            Ok(e) => Ok((a, b, c, d, e)),
                        },
                    },
                },
            },
        }
    }

    fn arity() -> (n: usize) {
        5
    }

    fn from_cells(cells: &Vec<RemoteValue>) -> (r: Result<Self, RtorrentError>) {
        let a = match A::try_from_value(&cells[0]) {
            Ok(a) => a,
            Err(e) => { return Err(e); },
        };
        let b = match B::try_from_value(&cells[1]) {
            Ok(b) => b,
            Err(e) => { return Err(e); },
        };
        let c = match C::try_from_value(&cells[2]) {
            Ok(c) => c,
            Err(e) => { return Err(e); },
        };
        let d = match D::try_from_value(&cells[3]) {
            Ok(d) => d,
            Err(e) => { return Err(e); },
        };
        let e = match E::try_from_value(&cells[4]) {
            Ok(e) => e,
            Err(e) => { return Err(e); },
        };
        Ok((a, b, c, d, e))
    }

    proof fn lemma_cells_agree(cells: Seq<RemoteValue>) {
        A::lemma_decoded_agrees(cells[0]);
        B::lemma_decoded_agrees(cells[1]);
        C::lemma_decoded_agrees(cells[2]);
        D::lemma_decoded_agrees(cells[3]);
        E::lemma_decoded_agrees(cells[4]);
        lemma_decode_cells(Self::types(), cells);
        match Self::decoded_cells(cells) {
            Ok(row) => {
                assert(decode_cells(Self::types(), cells) is Ok);
                assert(decode_cells(Self::types(), cells)->Ok_0 =~= row.scalars());
            },
            Err(e) => {
                assert(decode_cells(Self::types(), cells) is Err);
            },
        }
    }
}

impl<A: TryFromValue, B: TryFromValue, C: TryFromValue, D: TryFromValue, E: TryFromValue> Invocable for (A, B, C, D, E) {
}

impl<A: TryFromValue, B: TryFromValue, C: TryFromValue, D: TryFromValue, E: TryFromValue, T: TryFromValue> Append<T> for (A, B, C, D, E) {
    type Longer = (A, B, C, D, E, T);

    proof fn lemma_longer() {
        assert(<(A, B, C, D, E, T) as Row>::types() =~= <(A, B, C, D, E) as Row>::types().push(
            T::scalar_type(),
        ));
    }
}

impl<A: TryFromValue, B: TryFromValue, C: TryFromValue, D: TryFromValue, E: TryFromValue, F: TryFromValue> Row for (A, B, C, D, E, F) {
    open spec fn types() -> Seq<ScalarType> {
        seq![A::scalar_type(), B::scalar_type(), C::scalar_type(), D::scalar_type(), E::scalar_type(), F::scalar_type()]
    }

    open spec fn scalars(self) -> Seq<ScalarValue> {
        seq![self.0.scalar(), self.1.scalar(), self.2.scalar(), self.3.scalar(), self.4.scalar(), self.5.scalar()]
    }

    open spec fn decoded_cells(cells: Seq<RemoteValue>) -> Result<Self, RtorrentError> {
        match A::decoded(cells[0]) {
            Err(e) => Err(e),
            Ok(a) => match B::decoded(cells[1]) {
                Err(e) => Err(e),
                Ok(b) => match C::decoded(cells[2]) {
                    Err(e) => Err(e),
                    Ok(c) => match D::decoded(cells[3]) {
                        Err(e) => Err(e),
                        Ok(d) => match E::decoded(cells[4]) {
                            Err(e) => Err(e),
                            Ok(e) => match F::decoded(cells[5]) {
                                Err(e) => Err(e),
                                Ok(f) => Ok((a, b, c, d, e, f)),
                            },
                        },
                    },
                },
            },
        }
    }

    fn arity() -> (n: usize) {
        6
    }

    fn from_cells(cells: &Vec<RemoteValue>) -> (r: Result<Self, RtorrentError>) {
        let a = match A::try_from_value(&cells[0]) {
            Ok(a) => a,
            Err(e) => { return Err(e); },
        };
        let b = match B::try_from_value(&cells[1]) {
            Ok(b) => b,
            Err(e) => { return Err(e); },
        };
        let c = match C::try_from_value(&cells[2]) {
            Ok(c) => c,
            Err(e) => { return Err(e); },
        };
        let d = match D::try_from_value(&cells[3]) {
            Ok(d) => d,
            Err(e) => { return Err(e); },
        };
        let e = match E::try_from_value(&cells[4]) {
            Ok(e) => e,
            Err(e) => { return Err(e); },
        };
        let f = match F::try_from_value(&cells[5]) {
            Ok(f) => f,
            Err(e) => { return Err(e); },
        };
        Ok((a, b, c, d, e, f))
    }

    proof fn lemma_cells_agree(cells: Seq<RemoteValue>) {
        A::lemma_decoded_agrees(cells[0]);
        B::lemma_decoded_agrees(cells[1]);
        C::lemma_decoded_agrees(cells[2]);
        D::lemma_decoded_agrees(cells[3]);
        E::lemma_decoded_agrees(cells[4]);
        F::lemma_decoded_agrees(cells[5]);
        lemma_decode_cells(Self::types(), cells);
        match Self::decoded_cells(cells) {
            Ok(row) => {
                assert(decode_cells(Self::types(), cells) is Ok);
                assert(decode_cells(Self::types(), cells)->Ok_0 =~= row.scalars());
            },
            Err(e) => {
                assert(decode_cells(Self::types(), cells) is Err);
            },
        }
    }
}

impl<A: TryFromValue, B: TryFromValue, C: TryFromValue, D: TryFromValue, E: TryFromValue, F: TryFromValue> Invocable for (A, B, C, D, E, F) {
}

impl<A: TryFromValue, B: TryFromValue, C: TryFromValue, D: TryFromValue, E: TryFromValue, F: TryFromValue, T: TryFromValue> Append<T> for (A, B, C, D, E, F) {
    type Longer = (A, B, C, D, E, F, T);

    proof fn lemma_longer() {
        assert(<(A, B, C, D, E, F, T) as Row>::types() =~= <(A, B, C, D, E, F) as Row>::types().push(
            T::scalar_type(),
        ));
    }
}

impl<A: TryFromValue, B: TryFromValue, C: TryFromValue, D: TryFromValue, E: TryFromValue, F: TryFromValue, G: TryFromValue> Row for (A, B, C, D, E, F, G) {
    open spec fn types() -> Seq<ScalarType> {
        seq![A::scalar_type(), B::scalar_type(), C::scalar_type(), D::scalar_type(), E::scalar_type(), F::scalar_type(), G::scalar_type()]
    }

    open spec fn scalars(self) -> Seq<ScalarValue> {
        seq![self.0.scalar(), self.1.scalar(), self.2.scalar(), self.3.scalar(), self.4.scalar(), self.5.scalar(), self.6.scalar()]
    }

    open spec fn decoded_cells(cells: Seq<RemoteValue>) -> Result<Self, RtorrentError> {
        match A::decoded(cells[0]) {
            Err(e) => Err(e),
            Ok(a) => match B::decoded(cells[1]) {
                Err(e) => Err(e),
                Ok(b) => match C::decoded(cells[2]) {
                    Err(e) => Err(e),
                    Ok(c) => match D::decoded(cells[3]) {
                        Err(e) => Err(e),
                        Ok(d) => match E::decoded(cells[4]) {
                            Err(e) => Err(e),
                            Ok(e) => match F::decoded(cells[5]) {
                                Err(e) => Err(e),
                                Ok(f) => match G::decoded(cells[6]) {
                                    Err(e) => Err(e),
                                    Ok(g) => Ok((a, b, c, d, e, f, g)),
                                },
                            },
                        },
                    },
                },
            },
        }
    }

    fn arity() -> (n: usize) {
        7
    }

    fn from_cells(cells: &Vec<RemoteValue>) -> (r: Result<Self, RtorrentError>) {
        let a = match A::try_from_value(&cells[0]) {
            Ok(a) => a,
            Err(e) => { return Err(e); },
        };
        let b = match B::try_from_value(&cells[1]) {
            Ok(b) => b,
            Err(e) => { return Err(e); },
        };
        let c = match C::try_from_value(&cells[2]) {
            Ok(c) => c,
            Err(e) => { return Err(e); },
        };
        let d = match D::try_from_value(&cells[3]) {
            Ok(d) => d,
            Err(e) => { return Err(e); },
        };
        let e = match E::try_from_value(&cells[4]) {
            Ok(e) => e,
            Err(e) => { return Err(e); },
        };
        let f = match F::try_from_value(&cells[5]) {
            Ok(f) => f,
            Err(e) => { return Err(e); },
        };
        let g = match G::try_from_value(&cells[6]) {
            Ok(g) => g,
            Err(e) => { return Err(e); },
        };
        Ok((a, b, c, d, e, f, g))
    }

    proof fn lemma_cells_agree(cells: Seq<RemoteValue>) {
        A::lemma_decoded_agrees(cells[0]);
        B::lemma_decoded_agrees(cells[1]);
        C::lemma_decoded_agrees(cells[2]);
        D::lemma_decoded_agrees(cells[3]);
        E::lemma_decoded_agrees(cells[4]);
        F::lemma_decoded_agrees(cells[5]);
        G::lemma_decoded_agrees(cells[6]);
        lemma_decode_cells(Self::types(), cells);
        match Self::decoded_cells(cells) {
            Ok(row) => {
                assert(decode_cells(Self::types(), cells) is Ok);
                assert(decode_cells(Self::types(), cells)->Ok_0 =~= row.scalars());
            },
            Err(e) => {
                assert(decode_cells(Self::types(), cells) is Err);
            },
        }
    }
}

impl<A: TryFromValue, B: TryFromValue, C: TryFromValue, D: TryFromValue, E: TryFromValue, F: TryFromValue, G: TryFromValue> Invocable for (A, B, C, D, E, F, G) {
}

impl<A: TryFromValue, B: TryFromValue, C: TryFromValue, D: TryFromValue, E: TryFromValue, F: TryFromValue, G: TryFromValue, T: TryFromValue> Append<T> for (A, B, C, D, E, F, G) {
    type Longer = (A, B, C, D, E, F, G, T);

    proof fn lemma_longer() {
        assert(<(A, B, C, D, E, F, G, T) as Row>::types() =~= <(A, B, C, D, E, F, G) as Row>::types().push(
            T::scalar_type(),
        ));
    }
}

impl<A: TryFromValue, B: TryFromValue, C: TryFromValue, D: TryFromValue, E: TryFromValue, F: TryFromValue, G: TryFromValue, H: TryFromValue> Row for (A, B, C, D, E, F, G, H) {
    open spec fn types() -> Seq<ScalarType> {
        seq![A::scalar_type(), B::scalar_type(), C::scalar_type(), D::scalar_type(), E::scalar_type(), F::scalar_type(), G::scalar_type(), H::scalar_type()]
    }

    open spec fn scalars(self) -> Seq<ScalarValue> {
        seq![self.0.scalar(), self.1.scalar(), self.2.scalar(), self.3.scalar(), self.4.scalar(), self.5.scalar(), self.6.scalar(), self.7.scalar()]
    }

    open spec fn decoded_cells(cells: Seq<RemoteValue>) -> Result<Self, RtorrentError> {
        match A::decoded(cells[0]) {
            Err(e) => Err(e),
            Ok(a) => match B::decoded(cells[1]) {
                Err(e) => Err(e),
                Ok(b) => match C::decoded(cells[2]) {
                    Err(e) => Err(e),
                    Ok(c) => match D::decoded(cells[3]) {
                        Err(e) => Err(e),
                        Ok(d) => match E::decoded(cells[4]) {
                            Err(e) => Err(e),
                            Ok(e) => match F::decoded(cells[5]) {
                                Err(e) => Err(e),
                                Ok(f) => match G::decoded(cells[6]) {
                                    Err(e) => Err(e),
                                    Ok(g) => match H::decoded(cells[7]) {
                                        Err(e) => Err(e),
                                        Ok(h) => Ok((a, b, c, d, e, f, g, h)),
                                    },
                                },
                            },
                        },
                    },
                },
            },
        }
    }

    fn arity() -> (n: usize) {
        8
    }

    fn from_cells(cells: &Vec<RemoteValue>) -> (r: Result<Self, RtorrentError>) {
        let a = match A::try_from_value(&cells[0]) {
            Ok(a) => a,
            Err(e) => { return Err(e); },
        };
        let b = match B::try_from_value(&cells[1]) {
            Ok(b) => b,
            Err(e) => { return Err(e); },
        };
        let c = match C::try_from_value(&cells[2]) {
            Ok(c) => c,
            Err(e) => { return Err(e); },
        };
        let d = match D::try_from_value(&cells[3]) {
            Ok(d) => d,
            Err(e) => { return Err(e); },
        };
        let e = match E::try_from_value(&cells[4]) {
            Ok(e) => e,
            Err(e) => { return Err(e); },
        };
        let f = match F::try_from_value(&cells[5]) {
            Ok(f) => f,
            Err(e) => { return Err(e); },
        };
        let g = match G::try_from_value(&cells[6]) {
            Ok(g) => g,
            Err(e) => { return Err(e); },
        };
        let h = match H::try_from_value(&cells[7]) {
            Ok(h) => h,
            Err(e) => { return Err(e); },
        };
        Ok((a, b, c, d, e, f, g, h))
    }

    proof fn lemma_cells_agree(cells: Seq<RemoteValue>) {
        A::lemma_decoded_agrees(cells[0]);
        B::lemma_decoded_agrees(cells[1]);
        C::lemma_decoded_agrees(cells[2]);
        D::lemma_decoded_agrees(cells[3]);
        E::lemma_decoded_agrees(cells[4]);
        F::lemma_decoded_agrees(cells[5]);
        G::lemma_decoded_agrees(cells[6]);
        H::lemma_decoded_agrees(cells[7]);
        lemma_decode_cells(Self::types(), cells);
        match Self::decoded_cells(cells) {
            Ok(row) => {
                assert(decode_cells(Self::types(), cells) is Ok);
                assert(decode_cells(Self::types(), cells)->Ok_0 =~= row.scalars());
            },
            Err(e) => {
                assert(decode_cells(Self::types(), cells) is Err);
            },
        }
    }
}

impl<A: TryFromValue, B: TryFromValue, C: TryFromValue, D: TryFromValue, E: TryFromValue, F: TryFromValue, G: TryFromValue, H: TryFromValue> Invocable for (A, B, C, D, E, F, G, H) {
}

impl<A: TryFromValue, B: TryFromValue, C: TryFromValue, D: TryFromValue, E: TryFromValue, F: TryFromValue, G: TryFromValue, H: TryFromValue, T: TryFromValue> Append<T> for (A, B, C, D, E, F, G, H) {
    type Longer = (A, B, C, D, E, F, G, H, T);

    proof fn lemma_longer() {
        assert(<(A, B, C, D, E, F, G, H, T) as Row>::types() =~= <(A, B, C, D, E, F, G, H) as Row>::types().push(
            T::scalar_type(),
        ));
    }
}

impl<A: TryFromValue, B: TryFromValue, C: TryFromValue, D: TryFromValue, E: TryFromValue, F: TryFromValue, G: TryFromValue, H: TryFromValue, I: TryFromValue> Row for (A, B, C, D, E, F, G, H, I) {
    open spec fn types() -> Seq<ScalarType> {
        seq![A::scalar_type(), B::scalar_type(), C::scalar_type(), D::scalar_type(), E::scalar_type(), F::scalar_type(), G::scalar_type(), H::scalar_type(), I::scalar_type()]
    }

    open spec fn scalars(self) -> Seq<ScalarValue> {
        seq![self.0.scalar(), self.1.scalar(), self.2.scalar(), self.3.scalar(), self.4.scalar(), self.5.scalar(), self.6.scalar(), self.7.scalar(), self.8.scalar()]
    }

    open spec fn decoded_cells(cells: Seq<RemoteValue>) -> Result<Self, RtorrentError> {
        match A::decoded(cells[0]) {
            Err(e) => Err(e),
            Ok(a) => match B::decoded(cells[1]) {
                Err(e) => Err(e),
                Ok(b) => match C::decoded(cells[2]) {
                    Err(e) => Err(e),
                    Ok(c) => match D::decoded(cells[3]) {
                        Err(e) => Err(e),
                        Ok(d) => match E::decoded(cells[4]) {
                            Err(e) => Err(e),
                            Ok(e) => match F::decoded(cells[5]) {
                                Err(e) => Err(e),
                                Ok(f) => match G::decoded(cells[6]) {
                                    Err(e) => Err(e),
                                    Ok(g) => match H::decoded(cells[7]) {
                                        Err(e) => Err(e),
                                        Ok(h) => match I::decoded(cells[8]) {
                                            Err(e) => Err(e),
                                            Ok(i) => Ok((a, b, c, d, e, f, g, h, i)),
                                        },
                                    },
                                },
                            },
                        },
                    },
                },
            },
        }
    }

    fn arity() -> (n: usize) {
        9
    }

    fn from_cells(cells: &Vec<RemoteValue>) -> (r: Result<Self, RtorrentError>) {
        let a = match A::try_from_value(&cells[0]) {
            Ok(a) => a,
            Err(e) => { return Err(e); },
        };
        let b = match B::try_from_value(&cells[1]) {
            Ok(b) => b,
            Err(e) => { return Err(e); },
        };
        let c = match C::try_from_value(&cells[2]) {
            Ok(c) => c,
            Err(e) => { return Err(e); },
        };
        let d = match D::try_from_value(&cells[3]) {
            Ok(d) => d,
            Err(e) => { return Err(e); },
        };
        let e = match E::try_from_value(&cells[4]) {
            Ok(e) => e,
            Err(e) => { return Err(e); },
        };
        let f = match F::try_from_value(&cells[5]) {
            Ok(f) => f,
            Err(e) => { return Err(e); },
        };
        let g = match G::try_from_value(&cells[6]) {
            Ok(g) => g,
            Err(e) => { return Err(e); },
        };
        let h = match H::try_from_value(&cells[7]) {
            Ok(h) => h,
            Err(e) => { return Err(e); },
        };
        let i = match I::try_from_value(&cells[8]) {
            Ok(i) => i,
            Err(e) => { return Err(e); },
        };
        Ok((a, b, c, d, e, f, g, h, i))
    }

    proof fn lemma_cells_agree(cells: Seq<RemoteValue>) {
        A::lemma_decoded_agrees(cells[0]);
        B::lemma_decoded_agrees(cells[1]);
        C::lemma_decoded_agrees(cells[2]);
        D::lemma_decoded_agrees(cells[3]);
        E::lemma_decoded_agrees(cells[4]);
        F::lemma_decoded_agrees(cells[5]);
        G::lemma_decoded_agrees(cells[6]);
        H::lemma_decoded_agrees(cells[7]);
        I::lemma_decoded_agrees(cells[8]);
        lemma_decode_cells(Self::types(), cells);
        match Self::decoded_cells(cells) {
            Ok(row) => {
                assert(decode_cells(Self::types(), cells) is Ok);
                assert(decode_cells(Self::types(), cells)->Ok_0 =~= row.scalars());
            },
            Err(e) => {
                assert(decode_cells(Self::types(), cells) is Err);
            },
        }
    }
}

impl<A: TryFromValue, B: TryFromValue, C: TryFromValue, D: TryFromValue, E: TryFromValue, F: TryFromValue, G: TryFromValue, H: TryFromValue, I: TryFromValue> Invocable for (A, B, C, D, E, F, G, H, I) {
}

/// One row of a reply as a tuple: the row must be an array with exactly one
/// value per column of the tuple, and each value must fit its column.
pub open spec fn typed_row<R: Row>(row: RemoteValue) -> Result<R, RtorrentError> {
    match row {
        RemoteValue::Array(cells) => if cells@.len() == R::types().len() {
            R::decoded_cells(cells@)
        } else {
            Err(
                RtorrentError::unexpected(
                    Shape::Array(cells@.len() as usize),
                    Expected::Columns(R::types().len() as usize),
                ),
            )
        },
        _ => Err(RtorrentError::unexpected(row.shape_spec(), Expected::Array)),
    }
}

/// The rows of a reply as tuples, in the order in which they came: the error
/// of the first row that fails, if there is one.
pub open spec fn typed_rows<R: Row>(rows: Seq<RemoteValue>) -> Result<Seq<R>, RtorrentError>
    decreases rows.len(),
{
    if rows.len() == 0 {
        Ok(Seq::empty())
    } else {
        match typed_rows::<R>(rows.drop_last()) {
            Err(e) => Err(e),
            Ok(front) => match typed_row::<R>(rows.last()) {
                Err(e) => Err(e),
                Ok(row) => Ok(front.push(row)),
            },
        }
    }
}

/// A whole reply as tuples: it must be an array, of rows.
pub open spec fn typed_reply<R: Row>(reply: RemoteValue) -> Result<Seq<R>, RtorrentError> {
    match list_spec(reply) {
        Ok(rows) => typed_rows::<R>(rows),
        Err(e) => Err(e),
    }
}

/// The scalars of each row of a typed result.
pub open spec fn scalars_of<R: Row>(rows: Seq<R>) -> Seq<Seq<ScalarValue>> {
    Seq::new(rows.len(), |i: int| rows[i].scalars())
}

/// Once a row has failed, the reply fails with that error however many rows
/// follow.
pub proof fn lemma_typed_error_stays<R: Row>(rows: Seq<RemoteValue>, n: int)
    requires
        0 <= n <= rows.len(),
        typed_rows::<R>(rows.take(n)) is Err,
    ensures
        typed_rows::<R>(rows) == typed_rows::<R>(rows.take(n)),
    decreases rows.len() - n,
{
    if n == rows.len() {
        assert(rows.take(n) =~= rows);
    } else {
        assert(rows.take(n + 1).drop_last() =~= rows.take(n));
        lemma_typed_error_stays::<R>(rows, n + 1);
    }
}

/// The rows of a reply decode into tuples together exactly if each one
/// decodes; the result then holds one tuple per row of the reply, in the
/// same order, and otherwise the error is that of the first row that does
/// not decode: no row is handed out beside an error.
pub proof fn lemma_typed_rows<R: Row>(rows: Seq<RemoteValue>)
    ensures
        typed_rows::<R>(rows) is Ok <==> forall|i: int|
            0 <= i < rows.len() ==> typed_row::<R>(#[trigger] rows[i]) is Ok,
        typed_rows::<R>(rows) matches Ok(out) ==> out.len() == rows.len() && forall|i: int|
            0 <= i < rows.len() ==> typed_row::<R>(#[trigger] rows[i]) == Ok::<R, RtorrentError>(
                out[i],
            ),
        typed_rows::<R>(rows) matches Err(e) ==> exists|i: int|
            0 <= i < rows.len() && typed_row::<R>(#[trigger] rows[i]) == Err::<R, RtorrentError>(e)
                && forall|h: int| 0 <= h < i ==> typed_row::<R>(#[trigger] rows[h]) is Ok,
    decreases rows.len(),
{
    if rows.len() > 0 {
        let front = rows.drop_last();
        let last: int = rows.len() - 1;
        lemma_typed_rows::<R>(front);
        assert forall|i: int| 0 <= i < last implies front[i] == rows[i] by {}
        match typed_rows::<R>(front) {
            Ok(out) => {
                assert forall|i: int| 0 <= i < last implies typed_row::<R>(#[trigger] rows[i])
                    == Ok::<R, RtorrentError>(out[i]) by {
                    assert(typed_row::<R>(front[i]) == Ok::<R, RtorrentError>(out[i]));
                }
                match typed_row::<R>(rows.last()) {
                    Ok(row) => {},
                    Err(e) => {
                        assert(typed_row::<R>(rows[last]) == Err::<R, RtorrentError>(e));
                    },
                }
            },
            Err(e) => {
                let i = choose|i: int|
                    0 <= i < front.len() && typed_row::<R>(#[trigger] front[i]) == Err::<
                        R,
                        RtorrentError,
                    >(e) && forall|h: int| 0 <= h < i ==> typed_row::<R>(#[trigger] front[h]) is Ok;
                assert(typed_row::<R>(rows[i]) == Err::<R, RtorrentError>(e));
                assert forall|h: int| 0 <= h < i implies typed_row::<R>(#[trigger] rows[h]) is Ok by {
                    assert(typed_row::<R>(front[h]) is Ok);
                }
            },
        }
    }
}

/// Decodes one row of a reply into a tuple.
pub fn decode_typed_row<R: Row>(row: &RemoteValue) -> (r: Result<R, RtorrentError>)
    ensures
        r == typed_row::<R>(*row),
{
    let cells = match list(row) {
        Ok(cells) => cells,
        Err(e) => { return Err(e); },
    };
    let arity: usize = R::arity();
    if cells.len() != arity {
        return Err(
            RtorrentError::UnexpectedStructure(
                Mismatch { received: Shape::Array(cells.len()), expected: Expected::Columns(arity) },
            ),
        );
    }
    R::from_cells(cells)
}

/// Decodes a reply into tuples: one per row, in the order of the rows, or
/// the error of the first value or row that does not fit.
pub fn decode_typed<R: Row>(reply: &RemoteValue) -> (r: Result<Vec<R>, RtorrentError>)
    ensures
        match typed_reply::<R>(*reply) {
            Ok(rows) => r matches Ok(decoded) && decoded@ == rows,
            Err(e) => r == Err::<Vec<R>, RtorrentError>(e),
        },
{
    let rows = match list(reply) {
        Ok(rows) => rows,
        Err(e) => { return Err(e); },
    };
    let mut decoded: Vec<R> = Vec::new();
    let mut i: usize = 0;
    while i < rows.len()
        invariant
            *reply == RemoteValue::Array(*rows),
            i <= rows@.len(),
            typed_rows::<R>(rows@.take(i as int)) == Ok::<Seq<R>, RtorrentError>(decoded@),
        decreases rows@.len() - i,
    {
        proof {
            assert(rows@.take(i + 1).drop_last() =~= rows@.take(i as int));
            assert(rows@.take(i + 1).last() == rows@[i as int]);
        }
        match decode_typed_row::<R>(&rows[i]) {
            Ok(row) => {
                decoded.push(row);
            },
            Err(e) => {
                proof {
                    lemma_typed_error_stays::<R>(rows@, i + 1);
                }
                return Err(e);
            },
        }
        i += 1;
    }
    proof {
        assert(rows@.take(i as int) =~= rows@);
    }
    Ok(decoded)
}

/// Finishes a query with what the transport came back with, as tuples: a
/// failed call is handed on as it is, a reply is decoded.
pub fn invoke_typed<R: Row>(outcome: Result<RemoteValue, xmlrpc::Error>) -> (r: Result<
    Vec<R>,
    RtorrentError,
>)
    ensures
        match outcome {
            Err(e) => r == Err::<Vec<R>, RtorrentError>(RtorrentError::XmlRpc(e)),
            Ok(reply) => match typed_reply::<R>(reply) {
                Ok(rows) => r matches Ok(decoded) && decoded@ == rows,
                Err(e) => r == Err::<Vec<R>, RtorrentError>(e),
            },
        },
{
    match outcome {
        Err(e) => Err(RtorrentError::XmlRpc(e)),
        Ok(reply) => decode_typed::<R>(&reply),
    }
}

/// A row decodes into a tuple exactly as it decodes under the scalar types
/// of the tuple's columns.
pub proof fn lemma_typed_row_agrees<R: Row>(row: RemoteValue)
    ensures
        decode_row(R::types(), row) == match typed_row::<R>(row) {
            Ok(typed) => Ok::<Seq<ScalarValue>, RtorrentError>(typed.scalars()),
            Err(e) => Err::<Seq<ScalarValue>, RtorrentError>(e),
        },
{
    if let RemoteValue::Array(cells) = row {
        if cells@.len() == R::types().len() {
            R::lemma_cells_agree(cells@);
        }
    }
}

/// The rows of a reply decode into tuples exactly as they decode under the
/// scalar types of the tuple's columns.
pub proof fn lemma_typed_rows_agree<R: Row>(rows: Seq<RemoteValue>)
    ensures
        decode_rows(R::types(), rows) == match typed_rows::<R>(rows) {
            Ok(typed) => Ok::<Seq<Seq<ScalarValue>>, RtorrentError>(scalars_of(typed)),
            Err(e) => Err::<Seq<Seq<ScalarValue>>, RtorrentError>(e),
        },
    decreases rows.len(),
{
    if rows.len() == 0 {
        assert(scalars_of(Seq::<R>::empty()) =~= Seq::<Seq<ScalarValue>>::empty());
    } else {
        lemma_typed_rows_agree::<R>(rows.drop_last());
        lemma_typed_row_agrees::<R>(rows.last());
        match typed_rows::<R>(rows.drop_last()) {
            Ok(front) => match typed_row::<R>(rows.last()) {
                Ok(row) => {
                    assert(scalars_of(front.push(row)) =~= scalars_of(front).push(row.scalars()));
                },
                Err(e) => {},
            },
            Err(e) => {},
        }
    }
}

/// A query whose declared column types are those of the tuple decodes a
/// reply into tuples exactly as it decodes it into scalars: the two results
/// fail together, with the same error, and succeed with the same values.
pub proof fn lemma_typed_reply_agrees<R: Row>(reply: RemoteValue)
    ensures
        decode_reply(R::types(), reply) == match typed_reply::<R>(reply) {
            Ok(typed) => Ok::<Seq<Seq<ScalarValue>>, RtorrentError>(scalars_of(typed)),
            Err(e) => Err::<Seq<Seq<ScalarValue>>, RtorrentError>(e),
        },
{
    if let RemoteValue::Array(rows) = reply {
        lemma_typed_rows_agree::<R>(rows@);
    }
}

} // verus!
