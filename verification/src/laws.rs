//! What holds of every row: the laws that relate the header, the positional
//! document, the associative document and the value converter.

use vstd::prelude::*;
use crate::assemble::{
    associative_document, header_spec, lemma_failure_stays, lemma_positional_len,
    positional_document, positional_prefix,
};
use crate::catalog::{target_of, DecodeTarget, TypeDispatcher};
use crate::convert::{convert_spec, encode_spec};
use crate::identifier::lemma_zero_identifier;
use crate::keyed::{
    distinct_names, has_name, keyed, last_index, lemma_keyed_holds_last, lemma_last_index,
    lemma_value_of_keyed, value_of,
};
use crate::raw::{CellView, DecodedView, RawValueView};
use crate::value::{ErrorView, ValueView};

verus! {

/// The header has one name per column, and a positional document has one value
/// per column.
pub proof fn law_one_slot_per_column(dispatcher: TypeDispatcher, row: Seq<CellView>)
    ensures
        header_spec(row).len() == row.len(),
        positional_document(dispatcher, row) is Ok ==> positional_document(
            dispatcher,
            row,
        )->Ok_0.len() == row.len(),
{
    if positional_document(dispatcher, row) is Ok {
        lemma_positional_len(dispatcher, row, row.len());
    }
}

/// The first `m` values of a positional document of `n` columns are the
/// positional document of the first `m` columns.
proof fn lemma_prefix_of_document(
    dispatcher: TypeDispatcher,
    row: Seq<CellView>,
    m: nat,
    n: nat,
)
    requires
        m <= n,
        positional_prefix(dispatcher, row, n) is Ok,
    ensures
        positional_prefix(dispatcher, row, m) is Ok,
        positional_prefix(dispatcher, row, m)->Ok_0 == positional_prefix(
            dispatcher,
            row,
            n,
        )->Ok_0.subrange(0, m as int),
    decreases n,
{
    lemma_positional_len(dispatcher, row, n);
    if m < n {
        let shorter = (n - 1) as nat;
        lemma_prefix_of_document(dispatcher, row, m, shorter);
        lemma_positional_len(dispatcher, row, shorter);
        assert(positional_prefix(dispatcher, row, shorter)->Ok_0.subrange(0, m as int)
            =~= positional_prefix(dispatcher, row, n)->Ok_0.subrange(0, m as int));
    } else {
        assert(positional_prefix(dispatcher, row, n)->Ok_0.subrange(0, m as int)
            =~= positional_prefix(dispatcher, row, n)->Ok_0);
    }
}

/// The value at position `i` of a positional document is the conversion of the
/// cell of column `i`, under that cell's own type identifier.
pub proof fn law_position_matches_column(dispatcher: TypeDispatcher, row: Seq<CellView>, i: int)
    requires
        0 <= i < row.len(),
        positional_document(dispatcher, row) is Ok,
    ensures
        convert_spec(dispatcher, row[i].value, i as nat) == Ok::<ValueView, ErrorView>(
            positional_document(dispatcher, row)->Ok_0[i],
        ),
{
    let n = row.len();
    let document = positional_prefix(dispatcher, row, n)->Ok_0;
    let shorter = positional_prefix(dispatcher, row, i as nat);
    let longer = positional_prefix(dispatcher, row, (i + 1) as nat);
    lemma_prefix_of_document(dispatcher, row, (i + 1) as nat, n);
    lemma_prefix_of_document(dispatcher, row, i as nat, n);
    lemma_positional_len(dispatcher, row, i as nat);
    lemma_positional_len(dispatcher, row, (i + 1) as nat);
    lemma_positional_len(dispatcher, row, n);
    assert(longer->Ok_0[i] == document.subrange(0, i + 1)[i]);
    assert(longer->Ok_0 == shorter->Ok_0.push(
        convert_spec(dispatcher, row[i].value, i as nat)->Ok_0,
    ));
}

/// The value at a position does not depend on the other columns: two rows with
/// the same cell at position `i` have the same value there.
pub proof fn law_position_is_independent(
    dispatcher: TypeDispatcher,
    row: Seq<CellView>,
    other: Seq<CellView>,
    i: int,
)
    requires
        0 <= i < row.len(),
        0 <= i < other.len(),
        row[i].value == other[i].value,
        positional_document(dispatcher, row) is Ok,
        positional_document(dispatcher, other) is Ok,
    ensures
        positional_document(dispatcher, row)->Ok_0[i] == positional_document(
            dispatcher,
            other,
        )->Ok_0[i],
{
    law_position_matches_column(dispatcher, row, i);
    law_position_matches_column(dispatcher, other, i);
}

/// Assembly fails fast: a positional document fails exactly where some cell
/// fails, and then with the failure of the first such cell.
pub proof fn law_first_failure_ends_assembly(
    dispatcher: TypeDispatcher,
    row: Seq<CellView>,
    k: int,
)
    requires
        0 <= k < row.len(),
        convert_spec(dispatcher, row[k].value, k as nat) is Err,
        forall|j: int| 0 <= j < k ==> (#[trigger] convert_spec(
            dispatcher,
            row[j].value,
            j as nat,
        )) is Ok,
    ensures
        positional_document(dispatcher, row) == Err::<Seq<ValueView>, ErrorView>(
            convert_spec(dispatcher, row[k].value, k as nat)->Err_0,
        ),
        associative_document(dispatcher, row) == Err::<Seq<crate::keyed::EntryView>, ErrorView>(
            convert_spec(dispatcher, row[k].value, k as nat)->Err_0,
        ),
{
    lemma_all_converted(dispatcher, row, k as nat);
    lemma_failure_stays(dispatcher, row, (k + 1) as nat, row.len());
}

/// Where every cell of the first `n` columns converts, their positional
/// document is made.
proof fn lemma_all_converted(dispatcher: TypeDispatcher, row: Seq<CellView>, n: nat)
    requires
        forall|j: int| 0 <= j < n ==> (#[trigger] convert_spec(
            dispatcher,
            row[j].value,
            j as nat,
        )) is Ok,
    ensures
        positional_prefix(dispatcher, row, n) is Ok,
    decreases n,
{
    if n > 0 {
        lemma_all_converted(dispatcher, row, (n - 1) as nat);
        assert(convert_spec(dispatcher, row[n - 1].value, (n - 1) as nat) is Ok);
    }
}

/// A positional document is made exactly where every cell converts.
pub proof fn law_document_iff_all_convert(dispatcher: TypeDispatcher, row: Seq<CellView>)
    ensures
        positional_document(dispatcher, row) is Ok <==> forall|j: int|
            0 <= j < row.len() ==> (#[trigger] convert_spec(
                dispatcher,
                row[j].value,
                j as nat,
            )) is Ok,
        associative_document(dispatcher, row) is Ok <==> positional_document(dispatcher, row) is Ok,
{
    if positional_document(dispatcher, row) is Ok {
        assert forall|j: int| 0 <= j < row.len() implies (#[trigger] convert_spec(
            dispatcher,
            row[j].value,
            j as nat,
        )) is Ok by {
            law_position_matches_column(dispatcher, row, j);
        }
    }
    if forall|j: int|
        0 <= j < row.len() ==> (#[trigger] convert_spec(dispatcher, row[j].value, j as nat)) is Ok {
        lemma_all_converted(dispatcher, row, row.len());
    }
}

/// Only `NUMERIC` is decoded as a decimal, and only by a dispatcher with
/// decimal support: without it `NUMERIC` takes the text fallback.
pub proof fn law_numeric_needs_support(name: Seq<char>, numeric: bool)
    ensures
        target_of(name, numeric) == DecodeTarget::Numeric ==> numeric && name == "NUMERIC"@,
        target_of("NUMERIC"@, false) == DecodeTarget::Fallback,
        target_of("NUMERIC"@, true) == DecodeTarget::Numeric,
{
    reveal_strlit("NUMERIC");
    reveal_strlit("BOOL");
    reveal_strlit("INT2");
    reveal_strlit("INT4");
    reveal_strlit("INT8");
    reveal_strlit("FLOAT4");
    reveal_strlit("FLOAT8");
    assert("NUMERIC"@.len() == 7);
    assert("BOOL"@.len() == 4);
    assert("INT2"@.len() == 4);
    assert("INT4"@.len() == 4);
    assert("INT8"@.len() == 4);
    assert("FLOAT4"@.len() == 6);
    assert("FLOAT8"@.len() == 6);
}

/// The zero identifier converts to the text of 32 zeros in five groups.
pub proof fn law_zero_uuid(identifier: Seq<char>, ordinal: nat)
    ensures
        encode_spec(DecodeTarget::Uuid, identifier, Some(DecodedView::Uuid(0)), ordinal) == Ok::<
            ValueView,
            ErrorView,
        >(ValueView::Text("00000000-0000-0000-0000-000000000000"@)),
{
    lemma_zero_identifier();
}

/// A null cell converts to `Null` under every type identifier, supported or
/// not, and under every dispatcher.
pub proof fn law_null_converts_to_null(
    dispatcher: TypeDispatcher,
    value: RawValueView,
    ordinal: nat,
)
    requires
        value.null,
    ensures
        convert_spec(dispatcher, value, ordinal) == Ok::<ValueView, ErrorView>(ValueView::Null),
{
}

/// A null cell stands as `Null` in the positional document.
pub proof fn law_null_slot(dispatcher: TypeDispatcher, row: Seq<CellView>, i: int)
    requires
        0 <= i < row.len(),
        row[i].value.null,
        positional_document(dispatcher, row) is Ok,
    ensures
        positional_document(dispatcher, row)->Ok_0[i] == ValueView::Null,
{
    law_position_matches_column(dispatcher, row, i);
}

/// No name occurs twice in an associative document, and it has an entry for a
/// name exactly where some column has that name.
pub proof fn law_associative_names(dispatcher: TypeDispatcher, row: Seq<CellView>, name: Seq<char>)
    requires
        associative_document(dispatcher, row) is Ok,
    ensures
        distinct_names(associative_document(dispatcher, row)->Ok_0),
        has_name(associative_document(dispatcher, row)->Ok_0, name) <==> exists|i: int|
            0 <= i < row.len() && (#[trigger] row[i]).name == name,
{
    let names = header_spec(row);
    let values = positional_document(dispatcher, row)->Ok_0;
    let document = keyed(names, values, row.len());
    lemma_keyed_holds_last(names, values, row.len());
    lemma_last_index(names, row.len(), name);
    assert(has_name(document, name) <==> last_index(names, row.len(), name) >= 0);
    if last_index(names, row.len(), name) >= 0 {
        assert(row[last_index(names, row.len(), name)].name == name);
    }
    if exists|i: int| 0 <= i < row.len() && (#[trigger] row[i]).name == name {
        let i = choose|i: int| 0 <= i < row.len() && (#[trigger] row[i]).name == name;
        assert(names[i] == name);
    }
}

/// Last write wins: in an associative document the value under a name is the
/// value of the highest-ordinal column that has the name.
pub proof fn law_last_column_wins(dispatcher: TypeDispatcher, row: Seq<CellView>, i: int)
    requires
        0 <= i < row.len(),
        forall|k: int| i < k < row.len() ==> (#[trigger] row[k]).name != row[i].name,
        associative_document(dispatcher, row) is Ok,
    ensures
        convert_spec(dispatcher, row[i].value, i as nat) is Ok,
        value_of(associative_document(dispatcher, row)->Ok_0, row[i].name) == Some(
            convert_spec(dispatcher, row[i].value, i as nat)->Ok_0,
        ),
{
    let names = header_spec(row);
    let values = positional_document(dispatcher, row)->Ok_0;
    let name = row[i].name;
    law_position_matches_column(dispatcher, row, i);
    lemma_value_of_keyed(names, values, row.len(), name);
    lemma_last_index(names, row.len(), name);
    let at = last_index(names, row.len(), name);
    assert(names[i] == name);
    if at < i {
        assert(names[i] != name);
    }
    if at > i {
        assert(row[at].name != name);
        assert(names[at] == name);
    }
}

} // verus!
