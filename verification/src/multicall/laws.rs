//! What holds of every query and of every reply.

use vstd::prelude::*;
use crate::error::RtorrentError;
use crate::multicall::{decode_cells, decode_reply, decode_row, decode_rows, MultiBuilder};
use crate::request::MethodCall;
use crate::value::{RemoteValue, ScalarType, ScalarValue};
use crate::value_conversion::decode_spec;

verus! {

/// Whether `after` is `before` with one more column, for the accessor
/// `getter` with a result of type `ty`: the scope is the same, the columns
/// that were there are there in the same order, and the new one is last.
pub open spec fn adds_column(
    before: MultiBuilder,
    after: MultiBuilder,
    getter: Seq<char>,
    ty: ScalarType,
) -> bool {
    &&& after.target_server() == before.target_server()
    &&& after.procedure() == before.procedure()
    &&& after.target() == before.target()
    &&& after.filter() == before.filter()
    &&& after.column_args() == before.column_args().push(getter + "="@)
    &&& after.column_types() == before.column_types().push(ty)
}

/// A query that grew from an empty one by `k` additions has `k` columns, in
/// the order of the additions, and its scope is that of the empty one.
/// `steps` holds the query before the first addition and after each one.
pub proof fn lemma_columns_follow_calls(
    steps: Seq<MultiBuilder>,
    getters: Seq<Seq<char>>,
    types: Seq<ScalarType>,
)
    requires
        steps.len() == getters.len() + 1,
        types.len() == getters.len(),
        steps[0].column_args().len() == 0,
        steps[0].column_types().len() == 0,
        forall|i: int|
            0 <= i < getters.len() ==> adds_column(
                #[trigger] steps[i],
                steps[i + 1],
                getters[i],
                types[i],
            ),
    ensures
        steps.last().arity_spec() == getters.len(),
        steps.last().column_types() == types,
        steps.last().column_args() == Seq::new(getters.len(), |i: int| getters[i] + "="@),
        steps.last().procedure() == steps[0].procedure(),
        steps.last().target() == steps[0].target(),
        steps.last().filter() == steps[0].filter(),
    decreases getters.len(),
{
    let k: int = getters.len() as int;
    if k == 0 {
        assert(steps.last().column_types() =~= types);
        assert(steps.last().column_args() =~= Seq::new(
            getters.len(),
            |i: int| getters[i] + "="@,
        ));
    } else {
        let front_steps = steps.drop_last();
        let front_getters = getters.drop_last();
        let front_types = types.drop_last();
        assert forall|i: int| 0 <= i < front_getters.len() implies adds_column(
            #[trigger] front_steps[i],
            front_steps[i + 1],
            front_getters[i],
            front_types[i],
        ) by {
            assert(adds_column(steps[i], steps[i + 1], getters[i], types[i]));
        }
        lemma_columns_follow_calls(front_steps, front_getters, front_types);
        assert(front_steps.last() == steps[k - 1]);
        assert(adds_column(steps[k - 1], steps[k], getters[k - 1], types[k - 1]));
        assert(steps.last().column_types() =~= types);
        assert(steps.last().column_args() =~= Seq::new(
            getters.len(),
            |i: int| getters[i] + "="@,
        ));
    }
}

/// In the request of a query the target comes first, the filter second, and
/// then one argument per column, in column order: the accessor's name
/// followed by `=`.
pub proof fn lemma_request_keeps_order(builder: MultiBuilder, req: MethodCall, i: int)
    requires
        req.is_call(
            builder.procedure(),
            seq![builder.target(), builder.filter()] + builder.column_args(),
        ),
        0 <= i < builder.arity_spec(),
    ensures
        req.method@ == builder.procedure(),
        req.args@.len() == 2 + builder.arity_spec(),
        req.args@[0].is_text(builder.target()),
        req.args@[1].is_text(builder.filter()),
        req.args@[2 + i].is_text(builder.column_args()[i]),
{
    builder.lemma_columns_agree();
    let texts = seq![builder.target(), builder.filter()] + builder.column_args();
    assert(texts[0] == builder.target());
    assert(texts[1] == builder.filter());
    assert(texts[2 + i] == builder.column_args()[i]);
}

/// A value that decodes under a type decodes to a scalar of that type.
pub proof fn lemma_decoded_type(ty: ScalarType, val: RemoteValue)
    ensures
        decode_spec(ty, val) matches Ok(scalar) ==> scalar.scalar_type_spec() == ty,
{
}

/// The values of a row decode together exactly if each one decodes under the
/// type of its column; the result then holds each decoded value at the place
/// of its column, and otherwise the error is that of the first value that
/// does not decode.
pub proof fn lemma_decode_cells(types: Seq<ScalarType>, cells: Seq<RemoteValue>)
    requires
        types.len() == cells.len(),
    ensures
        decode_cells(types, cells) is Ok <==> forall|j: int|
            0 <= j < cells.len() ==> decode_spec(types[j], #[trigger] cells[j]) is Ok,
        decode_cells(types, cells) matches Ok(out) ==> out.len() == cells.len() && forall|j: int|
            0 <= j < cells.len() ==> decode_spec(types[j], #[trigger] cells[j]) == Ok::<
                ScalarValue,
                RtorrentError,
            >(out[j]),
        decode_cells(types, cells) matches Err(e) ==> exists|j: int|
            0 <= j < cells.len() && decode_spec(types[j], #[trigger] cells[j]) == Err::<
                ScalarValue,
                RtorrentError,
            >(e) && forall|h: int| 0 <= h < j ==> decode_spec(types[h], #[trigger] cells[h]) is Ok,
    decreases cells.len(),
{
    if cells.len() > 0 {
        let front_types = types.drop_last();
        let front = cells.drop_last();
        let last: int = cells.len() - 1;
        lemma_decode_cells(front_types, front);
        assert forall|j: int| 0 <= j < last implies front[j] == cells[j] && front_types[j]
            == types[j] by {}
        match decode_cells(front_types, front) {
            Ok(out) => {
                assert forall|j: int| 0 <= j < last implies decode_spec(
                    types[j],
                    #[trigger] cells[j],
                ) == Ok::<ScalarValue, RtorrentError>(out[j]) by {
                    assert(decode_spec(front_types[j], front[j]) == Ok::<
                        ScalarValue,
                        RtorrentError,
                    >(out[j]));
                }
                match decode_spec(types.last(), cells.last()) {
                    Ok(value) => {},
                    Err(e) => {
                        assert(decode_spec(types[last], cells[last]) == Err::<
                            ScalarValue,
                            RtorrentError,
                        >(e));
                    },
                }
            },
            Err(e) => {
                let j = choose|j: int|
                    0 <= j < front.len() && decode_spec(front_types[j], #[trigger] front[j])
                        == Err::<ScalarValue, RtorrentError>(e) && forall|h: int|
                        0 <= h < j ==> decode_spec(front_types[h], #[trigger] front[h]) is Ok;
                assert(decode_spec(types[j], cells[j]) == Err::<ScalarValue, RtorrentError>(e));
                assert forall|h: int| 0 <= h < j implies decode_spec(
                    types[h],
                    #[trigger] cells[h],
                ) is Ok by {
                    assert(decode_spec(front_types[h], front[h]) is Ok);
                }
            },
        }
    }
}

/// The rows of a reply decode together exactly if each one decodes; the
/// result then holds one decoded row per row of the reply, in the same
/// order, and otherwise the error is that of the first row that does not
/// decode: no row is handed out beside an error.
pub proof fn lemma_decode_rows(types: Seq<ScalarType>, rows: Seq<RemoteValue>)
    ensures
        decode_rows(types, rows) is Ok <==> forall|i: int|
            0 <= i < rows.len() ==> decode_row(types, #[trigger] rows[i]) is Ok,
        decode_rows(types, rows) matches Ok(out) ==> out.len() == rows.len() && forall|i: int|
            0 <= i < rows.len() ==> decode_row(types, #[trigger] rows[i]) == Ok::<
                Seq<ScalarValue>,
                RtorrentError,
            >(out[i]),
        decode_rows(types, rows) matches Err(e) ==> exists|i: int|
            0 <= i < rows.len() && decode_row(types, #[trigger] rows[i]) == Err::<
                Seq<ScalarValue>,
                RtorrentError,
            >(e) && forall|h: int| 0 <= h < i ==> decode_row(types, #[trigger] rows[h]) is Ok,
    decreases rows.len(),
{
    if rows.len() > 0 {
        let front = rows.drop_last();
        let last: int = rows.len() - 1;
        lemma_decode_rows(types, front);
        assert forall|i: int| 0 <= i < last implies front[i] == rows[i] by {}
        match decode_rows(types, front) {
            Ok(out) => {
                assert forall|i: int| 0 <= i < last implies decode_row(types, #[trigger] rows[i])
                    == Ok::<Seq<ScalarValue>, RtorrentError>(out[i]) by {
                    assert(decode_row(types, front[i]) == Ok::<Seq<ScalarValue>, RtorrentError>(
                        out[i],
                    ));
                }
                match decode_row(types, rows.last()) {
                    Ok(row) => {},
                    Err(e) => {
                        assert(decode_row(types, rows[last]) == Err::<
                            Seq<ScalarValue>,
                            RtorrentError,
                        >(e));
                    },
                }
            },
            Err(e) => {
                let i = choose|i: int|
                    0 <= i < front.len() && decode_row(types, #[trigger] front[i]) == Err::<
                        Seq<ScalarValue>,
                        RtorrentError,
                    >(e) && forall|h: int| 0 <= h < i ==> decode_row(types, #[trigger] front[h]) is Ok;
                assert(decode_row(types, rows[i]) == Err::<Seq<ScalarValue>, RtorrentError>(e));
                assert forall|h: int| 0 <= h < i implies decode_row(types, #[trigger] rows[h]) is Ok by {
                    assert(decode_row(types, front[h]) is Ok);
                }
            },
        }
    }
}

/// A decoded reply has one row per row of the reply and, in each row, one
/// value per column: the value of the reply at that place, decoded under the
/// type that the column was declared with.
pub proof fn lemma_rows_are_typed(types: Seq<ScalarType>, reply: RemoteValue, i: int, j: int)
    requires
        decode_reply(types, reply) matches Ok(out) && 0 <= i < out.len(),
        0 <= j < types.len(),
    ensures
        decode_reply(types, reply) matches Ok(out) && reply matches RemoteValue::Array(rows)
            && rows@[i] matches RemoteValue::Array(cells) && out.len() == rows@.len()
            && out[i].len() == types.len() && cells@.len() == types.len()
            && decode_spec(types[j], cells@[j]) == Ok::<ScalarValue, RtorrentError>(out[i][j])
            && out[i][j].scalar_type_spec() == types[j],
{
    let rows = reply->Array_0@;
    lemma_decode_rows(types, rows);
    let out = decode_rows(types, rows)->Ok_0;
    assert(decode_row(types, rows[i]) == Ok::<Seq<ScalarValue>, RtorrentError>(out[i]));
    let cells = rows[i]->Array_0@;
    lemma_decode_cells(types, cells);
    assert(decode_spec(types[j], cells[j]) == Ok::<ScalarValue, RtorrentError>(out[i][j]));
    lemma_decoded_type(types[j], cells[j]);
}

/// A reply without rows decodes to no rows, whatever the columns are.
pub proof fn lemma_empty_reply(types: Seq<ScalarType>, reply: RemoteValue)
    requires
        reply matches RemoteValue::Array(rows) && rows@.len() == 0,
    ensures
        decode_reply(types, reply) == Ok::<Seq<Seq<ScalarValue>>, RtorrentError>(Seq::empty()),
{
}

/// A reply in which some row is no array, or has another number of values
/// than the query has columns, fails as a whole with a structural error.
pub proof fn lemma_bad_row_fails_reply(types: Seq<ScalarType>, reply: RemoteValue, i: int)
    requires
        reply matches RemoteValue::Array(rows) && 0 <= i < rows@.len() && !(rows@[i] matches RemoteValue::Array(
            cells,
        ) && cells@.len() == types.len()),
    ensures
        decode_reply(types, reply) matches Err(RtorrentError::UnexpectedStructure(_)),
{
    let rows = reply->Array_0@;
    lemma_decode_rows(types, rows);
    assert(decode_row(types, rows[i]) is Err);
    let e = decode_rows(types, rows)->Err_0;
    let f = choose|f: int|
        0 <= f < rows.len() && decode_row(types, #[trigger] rows[f]) == Err::<
            Seq<ScalarValue>,
            RtorrentError,
        >(e) && forall|h: int| 0 <= h < f ==> decode_row(types, #[trigger] rows[h]) is Ok;
    lemma_row_error_is_structural(types, rows[f]);
}

/// Whatever fails to decode fails with a structural error.
pub proof fn lemma_row_error_is_structural(types: Seq<ScalarType>, row: RemoteValue)
    ensures
        decode_row(types, row) matches Err(e) ==> e is UnexpectedStructure,
{
    if let RemoteValue::Array(cells) = row {
        if cells@.len() == types.len() {
            lemma_decode_cells(types, cells@);
        }
    }
}

} // verus!
