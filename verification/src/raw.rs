//! The row as the converter reads it: named cells, each with its reported type
//! identifier, its null flag and the outcome of the driver's typed decode.

use vstd::prelude::*;

verus! {

/// A decoded cell in its native representation. Floats are held as IEEE 754 bit
/// patterns, dates and times as the integers that count them.
#[derive(Clone, Debug, PartialEq, Eq)]
pub enum Decoded {
    /// A boolean.
    Bool(bool),
    /// A 16-bit integer.
    Int2(i16),
    /// A 32-bit integer.
    Int4(i32),
    /// A 64-bit integer.
    Int8(i64),
    /// A 32-bit float, by its bits.
    Float4(u32),
    /// A 64-bit float, by its bits.
    Float8(u64),
    /// The decimal `mantissa / 10^scale`.
    Numeric { mantissa: i128, scale: u32 },
    /// A text.
    Text(String),
    /// Bytes.
    Bytes(Vec<u8>),
    /// A date-time without zone, as seconds and nanoseconds after
    /// 1970-01-01T00:00:00.
    Timestamp { secs: i64, nanos: u32 },
    /// An instant, as seconds and nanoseconds after the Unix epoch.
    TimestampTz { secs: i64, nanos: u32 },
    /// A date, as days after 1970-01-01.
    Date { days: i32 },
    /// A time of day, as seconds and nanoseconds after midnight.
    Time { second_of_day: u32, nanos: u32 },
    /// A 128-bit identifier.
    Uuid(u128),
}

/// The mathematical model of a [`Decoded`].
pub enum DecodedView {
    Bool(bool),
    Int2(i16),
    Int4(i32),
    Int8(i64),
    Float4(u32),
    Float8(u64),
    Numeric { mantissa: i128, scale: u32 },
    Text(Seq<char>),
    Bytes(Seq<u8>),
    Timestamp { secs: i64, nanos: u32 },
    TimestampTz { secs: i64, nanos: u32 },
    Date { days: i32 },
    Time { second_of_day: u32, nanos: u32 },
    Uuid(u128),
}

impl View for Decoded {
    type V = DecodedView;

    open spec fn view(&self) -> DecodedView {
        match *self {
            Decoded::Bool(b) => DecodedView::Bool(b),
            Decoded::Int2(n) => DecodedView::Int2(n),
            Decoded::Int4(n) => DecodedView::Int4(n),
            Decoded::Int8(n) => DecodedView::Int8(n),
            Decoded::Float4(bits) => DecodedView::Float4(bits),
            Decoded::Float8(bits) => DecodedView::Float8(bits),
            Decoded::Numeric { mantissa, scale } => DecodedView::Numeric { mantissa, scale },
            Decoded::Text(s) => DecodedView::Text(s@),
            Decoded::Bytes(b) => DecodedView::Bytes(b@),
            Decoded::Timestamp { secs, nanos } => DecodedView::Timestamp { secs, nanos },
            Decoded::TimestampTz { secs, nanos } => DecodedView::TimestampTz { secs, nanos },
            Decoded::Date { days } => DecodedView::Date { days },
            Decoded::Time { second_of_day, nanos } => DecodedView::Time { second_of_day, nanos },
            Decoded::Uuid(id) => DecodedView::Uuid(id),
        }
    }
}

/// The models of a decode's outcome.
pub open spec fn decoded_view(decoded: Option<Decoded>) -> Option<DecodedView> {
    match decoded {
        Some(d) => Some(d@),
        None => None,
    }
}

/// The raw value of one cell.
#[derive(Clone, Debug, PartialEq, Eq)]
pub struct RawValue {
    /// The type identifier that the cell reports, in its canonical case.
    pub identifier: String,
    /// Whether the cell is null.
    pub null: bool,
    /// What the typed decode gave; `None` where it failed, and for a null cell.
    pub decoded: Option<Decoded>,
}

/// The mathematical model of a [`RawValue`].
pub struct RawValueView {
    pub identifier: Seq<char>,
    pub null: bool,
    pub decoded: Option<DecodedView>,
}

impl View for RawValue {
    type V = RawValueView;

    open spec fn view(&self) -> RawValueView {
        RawValueView {
            identifier: self.identifier@,
            null: self.null,
            decoded: decoded_view(self.decoded),
        }
    }
}

impl RawValue {
    /// A null cell of the given type.
    pub fn null(identifier: String) -> (value: RawValue)
        ensures
            value@ == (RawValueView { identifier: identifier@, null: true, decoded: None }),
    {
        RawValue { identifier, null: true, decoded: None }
    }

    /// A cell of the given type that decoded as given.
    pub fn decoded(identifier: String, decoded: Decoded) -> (value: RawValue)
        ensures
            value@ == (RawValueView {
                identifier: identifier@,
                null: false,
                decoded: Some(decoded@),
            }),
    {
        RawValue { identifier, null: false, decoded: Some(decoded) }
    }

    /// A cell of the given type whose typed decode failed.
    pub fn undecodable(identifier: String) -> (value: RawValue)
        ensures
            value@ == (RawValueView { identifier: identifier@, null: false, decoded: None }),
    {
        RawValue { identifier, null: false, decoded: None }
    }

    /// Whether the cell is null.
    pub fn is_null(&self) -> (null: bool)
        ensures
            null == self@.null,
    {
        self.null
    }

    /// The type identifier that the cell reports.
    pub fn type_identifier(&self) -> (name: &str)
        ensures
            name@ == self@.identifier,
    {
        self.identifier.as_str()
    }
}

/// The descriptor of one column.
#[derive(Clone, Debug, PartialEq, Eq)]
pub struct Column {
    /// The display name. Names need not be unique within a row.
    pub name: String,
    /// The position in the row's column list, from 0.
    pub ordinal: usize,
}

/// One cell with the name of its column.
#[derive(Clone, Debug, PartialEq, Eq)]
pub struct Cell {
    /// The name of the column.
    pub name: String,
    /// The raw value.
    pub value: RawValue,
}

/// The mathematical model of a [`Cell`].
pub struct CellView {
    pub name: Seq<char>,
    pub value: RawValueView,
}

impl View for Cell {
    type V = CellView;

    open spec fn view(&self) -> CellView {
        CellView { name: self.name@, value: self.value@ }
    }
}

/// One record of a query result: its cells in column order. The ordinal of a
/// column is the position of its cell.
#[derive(Clone, Debug, PartialEq, Eq)]
pub struct Row {
    pub cells: Vec<Cell>,
}

impl View for Row {
    type V = Seq<CellView>;

    open spec fn view(&self) -> Seq<CellView> {
        Seq::new(self.cells@.len(), |i: int| self.cells@[i]@)
    }
}

impl Row {
    /// A row without columns.
    pub fn new() -> (row: Row)
        ensures
            row@ == Seq::<CellView>::empty(),
    {
        let row = Row { cells: Vec::new() };
        assert(row@ =~= Seq::<CellView>::empty());
        row
    }

    /// Appends a column with its cell. Its ordinal is the number of columns
    /// that the row had.
    pub fn push(&mut self, name: String, value: RawValue)
        ensures
            final(self)@ == old(self)@.push(CellView { name: name@, value: value@ }),
    {
        self.cells.push(Cell { name, value });
        assert(self@ =~= old(self)@.push(CellView { name: name@, value: value@ }));
    }

    /// The number of columns.
    pub fn len(&self) -> (n: usize)
        ensures
            n == self@.len(),
    {
        self.cells.len()
    }

    /// The column descriptors, in column order.
    pub fn columns(&self) -> (columns: Vec<Column>)
        ensures
            columns@.len() == self@.len(),
            forall|i: int|
                0 <= i < columns@.len() ==> columns@[i].name@ == self@[i].name
                    && columns@[i].ordinal == i,
    {
        let n: usize = self.cells.len();
        let mut columns: Vec<Column> = Vec::with_capacity(n);
        let mut i: usize = 0;
        while i < n
            invariant
                i <= n,
                n == self.cells@.len(),
                columns@.len() == i,
                forall|k: int|
                    0 <= k < i ==> columns@[k].name@ == self@[k].name && columns@[k].ordinal == k,
            decreases n - i,
        {
            columns.push(Column { name: self.cells[i].name.clone(), ordinal: i });
            i += 1;
        }
        columns
    }

    /// The raw value of the cell at an ordinal; `None` where the row has no
    /// such column.
    pub fn raw_value(&self, ordinal: usize) -> (value: Option<&RawValue>)
        ensures
            value is Some <==> ordinal < self@.len(),
            value is Some ==> value.unwrap()@ == self@[ordinal as int].value,
    {
        if ordinal < self.cells.len() {
            Some(&self.cells[ordinal].value)
        } else {
            None
        }
    }
}

} // verus!
