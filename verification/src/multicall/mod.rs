//! Batch queries ("multicalls"): one call that evaluates several accessors
//! on every object of a collection and comes back with one row per object.
//!
//! A query is built column by column. Each column names an accessor and
//! declares the scalar type of its result. The reply is an array of rows;
//! each row is an array with one value per column, in the order in which the
//! columns were added. Decoding is all or nothing: the first value that does
//! not fit fails the whole query.
//!
//! [`MultiBuilder`] is the query itself, for any multicall procedure: its
//! columns are a list, and its rows come back as lists of scalars. The
//! builders of the four collections wrap it and add the static side: they
//! take their columns from a catalog of typed accessors, and the type of the
//! builder grows with each column, so that the rows come back as tuples of
//! native values.
//!
//! * [`d`]: all downloads in a view
//! * [`f`]: all files of a download
//! * [`p`]: all peers of a download
//! * [`t`]: all trackers of a download
//! * [`typed`]: rows as tuples
//! * [`laws`]: what holds of every query and of every reply

pub mod laws;
pub mod d;
pub mod f;
pub mod p;
pub mod t;
pub mod typed;

use vstd::prelude::*;
use crate::error::{Expected, Mismatch, RtorrentError};
use crate::request::MethodCall;
use crate::server::Server;
use crate::value::{RemoteValue, ScalarType, ScalarValue, Shape};
use crate::value_conversion::{decode, decode_spec, list, list_spec};

verus! {

/// The values of one row, decoded by the column types in order: the error
/// of the first value that does not fit, if there is one.
pub open spec fn decode_cells(types: Seq<ScalarType>, cells: Seq<RemoteValue>) -> Result<
    Seq<ScalarValue>,
    RtorrentError,
>
    decreases cells.len(),
{
    if cells.len() == 0 {
        Ok(Seq::empty())
    } else {
        match decode_cells(types.drop_last(), cells.drop_last()) {
            Err(e) => Err(e),
            Ok(front) => match decode_spec(types.last(), cells.last()) {
                Err(e) => Err(e),
                Ok(value) => Ok(front.push(value)),
            },
        }
    }
}

/// One row of a reply: it must be an array with exactly one value per
/// column, and each value must fit its column.
pub open spec fn decode_row(types: Seq<ScalarType>, row: RemoteValue) -> Result<
    Seq<ScalarValue>,
    RtorrentError,
> {
    match row {
        RemoteValue::Array(cells) => if cells@.len() == types.len() {
            decode_cells(types, cells@)
        } else {
            Err(
                RtorrentError::unexpected(
                    Shape::Array(cells@.len() as usize),
                    Expected::Columns(types.len() as usize),
                ),
            )
        },
        _ => Err(RtorrentError::unexpected(row.shape_spec(), Expected::Array)),
    }
}

/// The rows of a reply, in the order in which they came: the error of the
/// first row that fails, if there is one.
pub open spec fn decode_rows(types: Seq<ScalarType>, rows: Seq<RemoteValue>) -> Result<
    Seq<Seq<ScalarValue>>,
    RtorrentError,
>
    decreases rows.len(),
{
    if rows.len() == 0 {
        Ok(Seq::empty())
    } else {
        match decode_rows(types, rows.drop_last()) {
            Err(e) => Err(e),
            Ok(front) => match decode_row(types, rows.last()) {
                Err(e) => Err(e),
                Ok(row) => Ok(front.push(row)),
            },
        }
    }
}

/// A whole reply: it must be an array, of rows.
pub open spec fn decode_reply(types: Seq<ScalarType>, reply: RemoteValue) -> Result<
    Seq<Seq<ScalarValue>>,
    RtorrentError,
> {
    match list_spec(reply) {
        Ok(rows) => decode_rows(types, rows),
        Err(e) => Err(e),
    }
}

/// The rows of a result as sequences.
pub open spec fn rows_view(rows: Vec<Vec<ScalarValue>>) -> Seq<Seq<ScalarValue>> {
    Seq::new(rows@.len(), |i: int| rows@[i]@)
}

/// One column of a query: the argument that asks for the accessor (its name
/// followed by `=`, which marks a "get") and the declared type of the result.
#[derive(Debug)]
struct Column {
    arg: String,
    ty: ScalarType,
}

/// A query of the same accessors across many objects, for any multicall
/// procedure of the server.
#[derive(Debug)]
pub struct MultiBuilder {
    server: Server,
    multicall: String,
    call_target: String,
    call_filter: String,
    columns: Vec<Column>,
}

impl MultiBuilder {
    /// The instance the query is for.
    pub closed spec fn target_server(&self) -> Server {
        self.server
    }

    /// The name of the multicall procedure.
    pub closed spec fn procedure(&self) -> Seq<char> {
        self.multicall@
    }

    /// The key that scopes the collection: empty for downloads, the key of
    /// the download for its files, peers and trackers.
    pub closed spec fn target(&self) -> Seq<char> {
        self.call_target@
    }

    /// The filter on the collection; empty means unfiltered.
    pub closed spec fn filter(&self) -> Seq<char> {
        self.call_filter@
    }

    /// The arguments that ask for the columns, in the order in which the
    /// columns were added.
    pub closed spec fn column_args(&self) -> Seq<Seq<char>> {
        Seq::new(self.columns@.len(), |i: int| self.columns@[i].arg@)
    }

    /// The declared types of the columns, in the order in which the columns
    /// were added.
    pub closed spec fn column_types(&self) -> Seq<ScalarType> {
        Seq::new(self.columns@.len(), |i: int| self.columns@[i].ty)
    }

    /// The number of columns.
    pub open spec fn arity_spec(&self) -> nat {
        self.column_types().len()
    }

    /// There are as many column arguments as column types.
    pub proof fn lemma_columns_agree(&self)
        ensures
            self.column_args().len() == self.column_types().len(),
    {
    }

    /// Starts a query without columns on `server`, through the procedure
    /// `multicall`, scoped by `call_target` and `call_filter`.
    pub fn new(server: &Server, multicall: &str, call_target: &str, call_filter: &str) -> (b: Self)
        ensures
            b.target_server() == *server,
            b.procedure() == multicall@,
            b.target() == call_target@,
            b.filter() == call_filter@,
            b.column_args() == Seq::<Seq<char>>::empty(),
            b.column_types() == Seq::<ScalarType>::empty(),
    {
        let b = MultiBuilder {
            server: server.clone(),
            multicall: multicall.to_owned(),
            call_target: call_target.to_owned(),
            call_filter: call_filter.to_owned(),
            columns: Vec::new(),
        };
        assert(b.column_args() =~= Seq::<Seq<char>>::empty());
        assert(b.column_types() =~= Seq::<ScalarType>::empty());
        b
    }

    /// Puts a column behind those that are there: `arg` is the argument that
    /// asks for the accessor, `ty` the declared type of its result. The
    /// columns that were there stay, in their order, and so does the scope.
    pub fn push_arg(&mut self, arg: String, ty: ScalarType)
        ensures
            final(self).target_server() == old(self).target_server(),
            final(self).procedure() == old(self).procedure(),
            final(self).target() == old(self).target(),
            final(self).filter() == old(self).filter(),
            final(self).column_args() == old(self).column_args().push(arg@),
            final(self).column_types() == old(self).column_types().push(ty),
    {
        self.columns.push(Column { arg, ty });
        assert(self.column_args() =~= old(self).column_args().push(arg@));
        assert(self.column_types() =~= old(self).column_types().push(ty));
    }

    /// Adds a column behind those that are there: the accessor `getter`,
    /// whose result has the type `ty`. Nothing else changes.
    pub fn call(self, getter: &str, ty: ScalarType) -> (b: Self)
        ensures
            b.target_server() == self.target_server(),
            b.procedure() == self.procedure(),
            b.target() == self.target(),
            b.filter() == self.filter(),
            b.column_args() == self.column_args().push(getter@ + "="@),
            b.column_types() == self.column_types().push(ty),
    {
        let mut b = self;
        let mut arg = getter.to_owned();
        arg = arg.concat("=");
        b.push_arg(arg, ty);
        b
    }

    /// The number of columns.
    pub fn arity(&self) -> (n: usize)
        ensures
            n == self.arity_spec(),
    {
        self.columns.len()
    }

    /// The instance the query is for.
    pub fn server(&self) -> (s: &Server)
        ensures
            *s == self.target_server(),
    {
        &self.server
    }

    /// The one call that carries the query: the multicall procedure with the
    /// target, the filter and one argument per column, in column order.
    pub fn as_request(&self) -> (req: MethodCall)
        ensures
            req.is_call(self.procedure(), seq![self.target(), self.filter()] + self.column_args()),
    {
        let mut req = MethodCall::new(self.multicall.as_str());
        req = req.arg(RemoteValue::String(self.call_target.clone()));
        req = req.arg(RemoteValue::String(self.call_filter.clone()));
        let ghost texts = seq![self.target(), self.filter()] + self.column_args();
        let mut i: usize = 0;
        while i < self.columns.len()
            invariant
                i <= self.columns@.len(),
                texts == seq![self.target(), self.filter()] + self.column_args(),
                req.method@ == self.procedure(),
                req.args@.len() == 2 + i,
                forall|j: int| 0 <= j < 2 + i ==> (#[trigger] req.args@[j]).is_text(texts[j]),
            decreases self.columns@.len() - i,
        {
            req = req.arg(RemoteValue::String(self.columns[i].arg.clone()));
            i += 1;
        }
        req
    }

    /// Decodes one row of a reply.
    fn decode_row(&self, row: &RemoteValue) -> (r: Result<Vec<ScalarValue>, RtorrentError>)
        ensures
            match decode_row(self.column_types(), *row) {
                Ok(values) => r matches Ok(decoded) && decoded@ == values,
                Err(e) => r == Err::<Vec<ScalarValue>, RtorrentError>(e),
            },
    {
        let ghost types = self.column_types();
        let cells = match list(row) {
            Ok(cells) => cells,
            Err(e) => { return Err(e); },
        };
        if cells.len() != self.columns.len() {
            return Err(
                RtorrentError::UnexpectedStructure(
                    Mismatch {
                        received: Shape::Array(cells.len()),
                        expected: Expected::Columns(self.columns.len()),
                    },
                ),
            );
        }
        let mut decoded: Vec<ScalarValue> = Vec::new();
        let mut i: usize = 0;
        while i < cells.len()
            invariant
                types == self.column_types(),
                *row == RemoteValue::Array(*cells),
                cells@.len() == self.columns@.len(),
                i <= cells@.len(),
                decode_cells(types.take(i as int), cells@.take(i as int)) == Ok::<
                    Seq<ScalarValue>,
                    RtorrentError,
                >(decoded@),
            decreases cells@.len() - i,
        {
            proof {
                assert(types.take(i + 1).drop_last() =~= types.take(i as int));
                assert(cells@.take(i + 1).drop_last() =~= cells@.take(i as int));
                assert(types.take(i + 1).last() == self.columns@[i as int].ty);
                assert(cells@.take(i + 1).last() == cells@[i as int]);
            }
            match decode(self.columns[i].ty, &cells[i]) {
                Ok(value) => {
                    decoded.push(value);
                },
                Err(e) => {
                    proof {
                        lemma_cells_error_stays(types, cells@, i + 1);
                    }
                    return Err(e);
                },
            }
            i += 1;
        }
        proof {
            assert(types.take(i as int) =~= types);
            assert(cells@.take(i as int) =~= cells@);
        }
        Ok(decoded)
    }

    /// Decodes the reply to this query: one row per object, each with one
    /// value per column, typed as the column was declared.
    pub fn decode(&self, reply: &RemoteValue) -> (r: Result<Vec<Vec<ScalarValue>>, RtorrentError>)
        ensures
            match decode_reply(self.column_types(), *reply) {
                Ok(rows) => r matches Ok(decoded) && rows_view(decoded) == rows,
                Err(e) => r == Err::<Vec<Vec<ScalarValue>>, RtorrentError>(e),
            },
    {
        let ghost types = self.column_types();
        let rows = match list(reply) {
            Ok(rows) => rows,
            Err(e) => { return Err(e); },
        };
        let mut decoded: Vec<Vec<ScalarValue>> = Vec::new();
        let mut i: usize = 0;
        assert(rows_view(decoded) =~= Seq::<Seq<ScalarValue>>::empty());
        while i < rows.len()
            invariant
                types == self.column_types(),
                *reply == RemoteValue::Array(*rows),
                i <= rows@.len(),
                decode_rows(types, rows@.take(i as int)) == Ok::<
                    Seq<Seq<ScalarValue>>,
                    RtorrentError,
                >(rows_view(decoded)),
            decreases rows@.len() - i,
        {
            proof {
                assert(rows@.take(i + 1).drop_last() =~= rows@.take(i as int));
                assert(rows@.take(i + 1).last() == rows@[i as int]);
            }
            match self.decode_row(&rows[i]) {
                Ok(row) => {
                    let ghost before = rows_view(decoded);
                    decoded.push(row);
                    assert(rows_view(decoded) =~= before.push(row@));
                },
                Err(e) => {
                    proof {
                        lemma_rows_error_stays(types, rows@, i + 1);
                    }
                    return Err(e);
                },
            }
            i += 1;
        }
        proof {
            assert(rows@.take(i as int) =~= rows@);
        }
        Ok(decoded)
    }

    /// Finishes the query with what the transport came back with: a failed
    /// call is handed on as it is, a reply is decoded.
    pub fn invoke(&self, outcome: Result<RemoteValue, xmlrpc::Error>) -> (r: Result<
        Vec<Vec<ScalarValue>>,
        RtorrentError,
    >)
        ensures
            match outcome {
                Err(e) => r == Err::<Vec<Vec<ScalarValue>>, RtorrentError>(
                    RtorrentError::XmlRpc(e),
                ),
                Ok(reply) => match decode_reply(self.column_types(), reply) {
                    Ok(rows) => r matches Ok(decoded) && rows_view(decoded) == rows,
                    Err(e) => r == Err::<Vec<Vec<ScalarValue>>, RtorrentError>(e),
                },
            },
    {
        match outcome {
            Err(e) => Err(RtorrentError::XmlRpc(e)),
            Ok(reply) => self.decode(&reply),
        }
    }
}

/// Once a value of a row has failed, the row fails with that error however
/// many values follow.
pub proof fn lemma_cells_error_stays(types: Seq<ScalarType>, cells: Seq<RemoteValue>, n: int)
    requires
        0 <= n <= cells.len(),
        types.len() == cells.len(),
        decode_cells(types.take(n), cells.take(n)) is Err,
    ensures
        decode_cells(types, cells) == decode_cells(types.take(n), cells.take(n)),
    decreases cells.len() - n,
{
    if n == cells.len() {
        assert(types.take(n) =~= types);
        assert(cells.take(n) =~= cells);
    } else {
        assert(types.take(n + 1).drop_last() =~= types.take(n));
        assert(cells.take(n + 1).drop_last() =~= cells.take(n));
        lemma_cells_error_stays(types, cells, n + 1);
    }
}

/// Once a row has failed, the reply fails with that error however many rows
/// follow.
pub proof fn lemma_rows_error_stays(types: Seq<ScalarType>, rows: Seq<RemoteValue>, n: int)
    requires
        0 <= n <= rows.len(),
        decode_rows(types, rows.take(n)) is Err,
    ensures
        decode_rows(types, rows) == decode_rows(types, rows.take(n)),
    decreases rows.len() - n,
{
    if n == rows.len() {
        assert(rows.take(n) =~= rows);
    } else {
        assert(rows.take(n + 1).drop_last() =~= rows.take(n));
        lemma_rows_error_stays(types, rows, n + 1);
    }
}

} // verus!
