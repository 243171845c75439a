//! The header extractor and the two row assemblers.

use vstd::prelude::*;
use crate::catalog::TypeDispatcher;
use crate::convert::{convert_spec, serialize_pgvalueref};
use crate::keyed::{entries_view, keyed, lemma_keyed_reads_prefix, write_entry, Entry, EntryView};
use crate::raw::{CellView, Row};
use crate::value::{ConvertError, ErrorView, StructuredValue, ValueView};

verus! {

/// The names of a row's columns, in column order.
pub open spec fn header_spec(row: Seq<CellView>) -> Seq<Seq<char>> {
    Seq::new(row.len(), |i: int| row[i].name)
}

/// The characters of each text of a list.
pub open spec fn texts_view(texts: Seq<String>) -> Seq<Seq<char>> {
    Seq::new(texts.len(), |i: int| texts[i]@)
}

/// The models of the values of a list.
pub open spec fn values_view(values: Seq<StructuredValue>) -> Seq<ValueView> {
    Seq::new(values.len(), |i: int| values[i]@)
}

/// The model of the outcome of a positional assembly.
pub open spec fn positional_view(outcome: Result<Vec<StructuredValue>, ConvertError>) -> Result<
    Seq<ValueView>,
    ErrorView,
> {
    match outcome {
        Ok(values) => Ok(values_view(values@)),
        Err(error) => Err(error@),
    }
}

/// The positional document of the first `n` columns of a row: the converted
/// cells in column order, or the failure of the first cell that fails.
pub open spec fn positional_prefix(
    dispatcher: TypeDispatcher,
    row: Seq<CellView>,
    n: nat,
) -> Result<Seq<ValueView>, ErrorView>
    decreases n,
{
    if n == 0 {
        Ok(Seq::empty())
    } else {
        let last = (n - 1) as nat;
        match positional_prefix(dispatcher, row, last) {
            Ok(values) => match convert_spec(dispatcher, row[last as int].value, last) {
                Ok(value) => Ok(values.push(value)),
                Err(error) => Err(error),
            },
            Err(error) => Err(error),
        }
    }
}

/// The positional document of a row.
pub open spec fn positional_document(dispatcher: TypeDispatcher, row: Seq<CellView>) -> Result<
    Seq<ValueView>,
    ErrorView,
> {
    positional_prefix(dispatcher, row, row.len())
}

/// The model of the outcome of an associative assembly.
pub open spec fn associative_view(outcome: Result<Vec<Entry>, ConvertError>) -> Result<
    Seq<EntryView>,
    ErrorView,
> {
    match outcome {
        Ok(entries) => Ok(entries_view(entries@)),
        Err(error) => Err(error@),
    }
}

/// The associative document of a row: the values of the positional document
/// written under the names of their columns, in column order, so that under a
/// name that repeats the value of the later column stays. Where the positional
/// document fails, so does this one, with the same failure.
pub open spec fn associative_document(dispatcher: TypeDispatcher, row: Seq<CellView>) -> Result<
    Seq<EntryView>,
    ErrorView,
> {
    match positional_document(dispatcher, row) {
        Ok(values) => Ok(keyed(header_spec(row), values, row.len())),
        Err(error) => Err(error),
    }
}

/// A positional document of `n` columns has `n` values.
pub proof fn lemma_positional_len(dispatcher: TypeDispatcher, row: Seq<CellView>, n: nat)
    requires
        positional_prefix(dispatcher, row, n) is Ok,
    ensures
        positional_prefix(dispatcher, row, n)->Ok_0.len() == n,
    decreases n,
{
    if n > 0 {
        lemma_positional_len(dispatcher, row, (n - 1) as nat);
    }
}

/// A failure among the first `n` columns is the failure of every longer
/// prefix: assembly stops at the first cell that fails.
pub proof fn lemma_failure_stays(dispatcher: TypeDispatcher, row: Seq<CellView>, n: nat, m: nat)
    requires
        n <= m,
        positional_prefix(dispatcher, row, n) is Err,
    ensures
        positional_prefix(dispatcher, row, m) == positional_prefix(dispatcher, row, n),
    decreases m,
{
    if n < m {
        lemma_failure_stays(dispatcher, row, n, (m - 1) as nat);
    }
}

/// The names of the columns, in column order. Nothing is decoded.
pub fn read_header(row: &Row) -> (header: Vec<String>)
    ensures
        texts_view(header@) == header_spec(row@),
        header@.len() == row@.len(),
{
    let n: usize = row.cells.len();
    let mut header: Vec<String> = Vec::with_capacity(n);
    let mut i: usize = 0;
    while i < n
        invariant
            i <= n,
            n == row.cells@.len(),
            header@.len() == i,
            forall|k: int| 0 <= k < i ==> header@[k]@ == row@[k].name,
        decreases n - i,
    {
        header.push(row.cells[i].name.clone());
        i += 1;
    }
    assert(texts_view(header@) =~= header_spec(row@));
    header
}

/// The positional document of a row under the given dispatcher: one value per
/// column, in column order. The first cell that fails ends the assembly with
/// its failure; no partial document is returned.
pub fn serialize_pgrow_as_vec(row: &Row, dispatcher: &TypeDispatcher) -> (outcome: Result<
    Vec<StructuredValue>,
    ConvertError,
>)
    ensures
        positional_view(outcome) == positional_document(*dispatcher, row@),
        outcome is Ok ==> outcome->Ok_0@.len() == row@.len(),
{
    let n: usize = row.cells.len();
    let mut values: Vec<StructuredValue> = Vec::with_capacity(n);
    let mut i: usize = 0;
    assert(values_view(values@) =~= Seq::<ValueView>::empty());
    while i < n
        invariant
            i <= n,
            n == row.cells@.len(),
            n == row@.len(),
            values@.len() == i,
            positional_prefix(*dispatcher, row@, i as nat) == Ok::<Seq<ValueView>, ErrorView>(
                values_view(values@),
            ),
        decreases n - i,
    {
        let ghost before = values_view(values@);
        match serialize_pgvalueref(&row.cells[i].value, i, dispatcher) {
            Ok(value) => {
                values.push(value);
                assert(values_view(values@) =~= before.push(value@));
            },
            Err(error) => {
                proof {
                    lemma_failure_stays(*dispatcher, row@, (i + 1) as nat, n as nat);
                }
                return Err(error);
            },
        }
        i += 1;
    }
    Ok(values)
}

/// The associative document of a row under the given dispatcher: the entries
/// in the order in which their names first occur, each with the value of the
/// last column of its name. The first cell that fails ends the assembly with
/// its failure; no partial document is returned.
pub fn serialize_pgrow_as_map(row: &Row, dispatcher: &TypeDispatcher) -> (outcome: Result<
    Vec<Entry>,
    ConvertError,
>)
    ensures
        associative_view(outcome) == associative_document(*dispatcher, row@),
{
    let n: usize = row.cells.len();
    let mut entries: Vec<Entry> = Vec::new();
    let ghost mut values: Seq<ValueView> = Seq::empty();
    let mut i: usize = 0;
    assert(entries_view(entries@) =~= Seq::<EntryView>::empty());
    while i < n
        invariant
            i <= n,
            n == row.cells@.len(),
            n == row@.len(),
            values.len() == i,
            positional_prefix(*dispatcher, row@, i as nat) == Ok::<Seq<ValueView>, ErrorView>(
                values,
            ),
            entries_view(entries@) == keyed(header_spec(row@), values, i as nat),
        decreases n - i,
    {
        match serialize_pgvalueref(&row.cells[i].value, i, dispatcher) {
            Ok(value) => {
                proof {
                    lemma_keyed_reads_prefix(
                        header_spec(row@),
                        values,
                        values.push(value@),
                        i as nat,
                    );
                    values = values.push(value@);
                }
                write_entry(&mut entries, row.cells[i].name.clone(), value);
            },
            Err(error) => {
                proof {
                    lemma_failure_stays(*dispatcher, row@, (i + 1) as nat, n as nat);
                }
                return Err(error);
            },
        }
        i += 1;
    }
    Ok(entries)
}

/// The positional document of a row under the dispatcher without decimal
/// support.
pub fn read_row(row: &Row) -> (outcome: Result<Vec<StructuredValue>, ConvertError>)
    ensures
        positional_view(outcome) == positional_document(TypeDispatcher { numeric: false }, row@),
        outcome is Ok ==> outcome->Ok_0@.len() == row@.len(),
{
    let dispatcher = TypeDispatcher::new();
    serialize_pgrow_as_vec(row, &dispatcher)
}

} // verus!
