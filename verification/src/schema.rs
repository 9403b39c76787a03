//! Tables and their columns, as far as the accelerator reads them.

use vstd::prelude::*;

verus! {

/// The name of a table, with as much of its path as is given.
#[derive(Debug)]
pub enum TableReference {
    Bare { table: String },
    Partial { schema: String, table: String },
    Full { catalog: String, schema: String, table: String },
}

/// A [`TableReference`] with its names as character sequences.
pub enum TableReferenceView {
    Bare { table: Seq<char> },
    Partial { schema: Seq<char>, table: Seq<char> },
    Full { catalog: Seq<char>, schema: Seq<char>, table: Seq<char> },
}

impl View for TableReference {
    type V = TableReferenceView;

    open spec fn view(&self) -> TableReferenceView {
        match self {
            TableReference::Bare { table } => TableReferenceView::Bare { table: table@ },
            TableReference::Partial { schema, table } => TableReferenceView::Partial {
                schema: schema@,
                table: table@,
            },
            TableReference::Full { catalog, schema, table } => TableReferenceView::Full {
                catalog: catalog@,
                schema: schema@,
                table: table@,
            },
        }
    }
}

/// The unit of a time or a duration.
#[derive(Debug, Clone, Copy, PartialEq, Eq, Structural)]
pub enum TimeUnit {
    Second,
    Millisecond,
    Microsecond,
    Nanosecond,
}

/// The unit of a calendar interval.
#[derive(Debug, Clone, Copy, PartialEq, Eq, Structural)]
pub enum IntervalUnit {
    YearMonth,
    DayTime,
    MonthDayNano,
}

/// The Arrow type of a column. The types that hold other types are named without them.
#[derive(Debug)]
pub enum DataType {
    Null,
    Boolean,
    Int8,
    Int16,
    Int32,
    Int64,
    UInt8,
    UInt16,
    UInt32,
    UInt64,
    Float16,
    Float32,
    Float64,
    /// A point in time, with the name of a time zone where there is one.
    Timestamp(TimeUnit, Option<String>),
    Date32,
    Date64,
    Time32(TimeUnit),
    Time64(TimeUnit),
    Duration(TimeUnit),
    Interval(IntervalUnit),
    Binary,
    /// Byte strings of one length.
    FixedSizeBinary(i32),
    LargeBinary,
    BinaryView,
    Utf8,
    LargeUtf8,
    Utf8View,
    List,
    ListView,
    FixedSizeList,
    LargeList,
    LargeListView,
    Struct,
    Union,
    Dictionary,
    /// Decimal numbers with a precision and a scale.
    Decimal32(u8, i8),
    Decimal64(u8, i8),
    Decimal128(u8, i8),
    Decimal256(u8, i8),
    KeyValueMap,
    RunEndEncoded,
}

/// A column of a table.
#[derive(Debug)]
pub struct Field {
    pub name: String,
    pub data_type: DataType,
    pub nullable: bool,
}

/// A [`Field`] with its name as a character sequence.
pub struct FieldView {
    pub name: Seq<char>,
    pub data_type: DataType,
    pub nullable: bool,
}

impl View for Field {
    type V = FieldView;

    open spec fn view(&self) -> FieldView {
        FieldView { name: self.name@, data_type: self.data_type, nullable: self.nullable }
    }
}

/// What the columns of a table stand for.
pub open spec fn field_views(fields: Seq<Field>) -> Seq<FieldView> {
    fields.map_values(|field: Field| field@)
}

} // verus!
