//! What the statement for a table says, as a reader of SQL takes it.

use crate::accelerator::DuckLakeAccelerator;
use crate::schema::{field_views, DataType, Field, FieldView, TableReference, TimeUnit};
use crate::sql::{
    column_definition, column_list, create_table_statement, nullability, quoted, quoted_reference,
    sql_type,
};
use crate::text::{decimal, doubled};
use crate::text_laws::{halved, lemma_doubled_reads_back};
use vstd::prelude::*;

verus! {

/// What a quoted text writes: what stands between its quotes, with two quotes in a row for one.
pub open spec fn unquoted(text: Seq<char>, quote: char) -> Option<Seq<char>> {
    if text.len() >= 2 && text.first() == quote && text.last() == quote {
        halved(text.subrange(1, text.len() - 1), quote)
    } else {
        None
    }
}

pub(crate) proof fn lemma_quoting_reads_back(text: Seq<char>, quote: char)
    ensures
        unquoted(seq![quote] + doubled(text, quote) + seq![quote], quote) == Some(text),
{
    let whole = seq![quote] + doubled(text, quote) + seq![quote];
    lemma_doubled_reads_back(text, quote);
    assert(whole.subrange(1, whole.len() - 1) =~= doubled(text, quote));
}

/// A quoted identifier reads as the identifier.
pub proof fn law_identifier_reads_back(identifier: &str, res: String)
    requires
        call_ensures(DuckLakeAccelerator::quote_identifier, (identifier,), res),
    ensures
        unquoted(res@, '"') == Some(identifier@),
{
    lemma_quoting_reads_back(identifier@, '"');
}

/// `text` is the name of the table: its parts from the outermost to the innermost, each in double
/// quotes, with a dot between one and the next.
pub open spec fn names_table(text: Seq<char>, reference: TableReference) -> bool {
    match reference {
        TableReference::Bare { table } => unquoted(text, '"') == Some(table@),
        TableReference::Partial { schema, table } => exists|a: Seq<char>, b: Seq<char>|
            {
                &&& text == #[trigger] (a + "."@ + b)
                &&& unquoted(a, '"') == Some(schema@)
                &&& unquoted(b, '"') == Some(table@)
            },
        TableReference::Full { catalog, schema, table } => exists|
            a: Seq<char>,
            b: Seq<char>,
            c: Seq<char>,
        |
            {
                &&& text == #[trigger] (a + "."@ + b + "."@ + c)
                &&& unquoted(a, '"') == Some(catalog@)
                &&& unquoted(b, '"') == Some(schema@)
                &&& unquoted(c, '"') == Some(table@)
            },
    }
}

proof fn lemma_reference_names_table(reference: TableReference)
    ensures
        names_table(quoted_reference(reference@), reference),
{
    match reference {
        TableReference::Bare { table } => {
            lemma_quoting_reads_back(table@, '"');
        },
        TableReference::Partial { schema, table } => {
            lemma_quoting_reads_back(schema@, '"');
            lemma_quoting_reads_back(table@, '"');
            assert(quoted_reference(reference@) == quoted(schema@) + "."@ + quoted(table@));
        },
        TableReference::Full { catalog, schema, table } => {
            lemma_quoting_reads_back(catalog@, '"');
            lemma_quoting_reads_back(schema@, '"');
            lemma_quoting_reads_back(table@, '"');
            assert(quoted_reference(reference@) == quoted(catalog@) + "."@ + quoted(schema@) + "."@
                + quoted(table@));
        },
    }
}

/// A quoted table reference names the table.
pub proof fn law_reference_names_the_table(reference: &TableReference, res: String)
    requires
        call_ensures(DuckLakeAccelerator::quote_table_reference, (reference,), res),
    ensures
        names_table(res@, *reference),
{
    lemma_reference_names_table(*reference);
}

/// `text` is the DuckLake type that keeps values of an Arrow type.
pub open spec fn keeps_type(text: Seq<char>, data_type: DataType) -> bool {
    &&& data_type is Int8 ==> text == "TINYINT"@
    &&& data_type is Int16 ==> text == "SMALLINT"@
    &&& data_type is Int32 ==> text == "INTEGER"@
    &&& data_type is Int64 || data_type is Duration ==> text == "BIGINT"@
    &&& data_type is UInt8 ==> text == "UTINYINT"@
    &&& data_type is UInt16 ==> text == "USMALLINT"@
    &&& data_type is UInt32 ==> text == "UINTEGER"@
    &&& data_type is UInt64 ==> text == "UBIGINT"@
    &&& data_type is Float32 ==> text == "FLOAT"@
    &&& data_type is Float64 ==> text == "DOUBLE"@
    &&& data_type is Boolean ==> text == "BOOLEAN"@
    &&& data_type is Binary || data_type is LargeBinary || data_type is FixedSizeBinary ==> text
        == "BLOB"@
    &&& data_type is Date32 ==> text == "DATE"@
    &&& data_type is Date64 ==> text == "TIMESTAMP"@
    &&& data_type is Time32 || data_type is Time64 ==> text == "TIME"@
    &&& data_type matches DataType::Timestamp(_, None) ==> text == "TIMESTAMP"@
    &&& data_type matches DataType::Timestamp(_, Some(_)) ==> text == "TIMESTAMPTZ"@
    &&& data_type is Interval ==> text == "INTERVAL"@
    &&& data_type matches DataType::Decimal128(precision, scale) ==> text == "DECIMAL("@ + decimal(
        precision as int,
    ) + ", "@ + decimal(scale as int) + ")"@
    &&& data_type is Utf8 || data_type is LargeUtf8 || data_type is Utf8View ==> text == "VARCHAR"@
    &&& data_type is Null || data_type is Float16 || data_type is BinaryView ==> text == "VARCHAR"@
    &&& data_type is List || data_type is ListView || data_type is FixedSizeList || data_type
        is LargeList || data_type is LargeListView ==> text == "VARCHAR"@
    &&& data_type is Struct || data_type is Union || data_type is Dictionary || data_type
        is KeyValueMap || data_type is RunEndEncoded ==> text == "VARCHAR"@
    &&& data_type is Decimal32 || data_type is Decimal64 || data_type is Decimal256 ==> text
        == "VARCHAR"@
}

/// Each Arrow type has its DuckLake type, whatever its units, sizes and time zones are.
pub proof fn law_column_types(data_type: &DataType, res: String)
    requires
        call_ensures(DuckLakeAccelerator::to_ducklake_sql_type, (data_type,), res),
    ensures
        keeps_type(res@, *data_type),
{
}

/// Two timestamps have the same type exactly where both have a time zone or neither has one: neither
/// the unit nor the name of the zone matters.
pub proof fn law_time_zone_decides_the_timestamp(
    unit_a: TimeUnit,
    zone_a: Option<String>,
    unit_b: TimeUnit,
    zone_b: Option<String>,
    a: String,
    b: String,
)
    requires
        call_ensures(
            DuckLakeAccelerator::to_ducklake_sql_type,
            (&DataType::Timestamp(unit_a, zone_a),),
            a,
        ),
        call_ensures(
            DuckLakeAccelerator::to_ducklake_sql_type,
            (&DataType::Timestamp(unit_b, zone_b),),
            b,
        ),
    ensures
        a@ == b@ <==> (zone_a is Some <==> zone_b is Some),
        zone_a is None ==> a@ == "TIMESTAMP"@,
        zone_a is Some ==> a@ == "TIMESTAMPTZ"@,
{
    reveal_strlit("TIMESTAMP");
    reveal_strlit("TIMESTAMPTZ");
    assert("TIMESTAMP"@.len() == 9);
    assert("TIMESTAMPTZ"@.len() == 11);
}

/// `text` defines the column: its name in double quotes, its type, and `NOT NULL` where no value may be
/// missing.
pub open spec fn defines_column(text: Seq<char>, field: Field) -> bool {
    exists|name: Seq<char>, kind: Seq<char>|
        {
            &&& unquoted(name, '"') == Some(field.name@)
            &&& keeps_type(kind, field.data_type)
            &&& field.nullable ==> text == #[trigger] (name + " "@ + kind)
            &&& !field.nullable ==> text == name + " "@ + kind + " NOT NULL"@
        }
}

/// The texts one after the other, with a comma and a blank between one and the next.
pub open spec fn comma_separated(parts: Seq<Seq<char>>) -> Seq<char>
    decreases parts.len(),
{
    if parts.len() == 0 {
        Seq::empty()
    } else if parts.len() == 1 {
        parts[0]
    } else {
        parts[0] + ", "@ + comma_separated(parts.skip(1))
    }
}

proof fn lemma_separated_behind(parts: Seq<Seq<char>>, last: Seq<char>)
    requires
        parts.len() > 0,
    ensures
        comma_separated(parts.push(last)) == comma_separated(parts) + ", "@ + last,
    decreases parts.len(),
{
    let longer = parts.push(last);
    if parts.len() == 1 {
        reveal_with_fuel(comma_separated, 2);
        assert(longer.skip(1) =~= seq![last]);
    } else {
        lemma_separated_behind(parts.skip(1), last);
        assert(longer.skip(1) =~= parts.skip(1).push(last));
        assert(parts[0] + ", "@ + (comma_separated(parts.skip(1)) + ", "@ + last) =~= parts[0] + ", "@
            + comma_separated(parts.skip(1)) + ", "@ + last);
    }
}

/// The definitions of columns, one by one.
spec fn definitions(fields: Seq<FieldView>) -> Seq<Seq<char>> {
    fields.map_values(|field: FieldView| column_definition(field))
}

proof fn lemma_column_list_is_separated(fields: Seq<FieldView>)
    ensures
        column_list(fields) == comma_separated(definitions(fields)),
    decreases fields.len(),
{
    if fields.len() == 0 {
        reveal_strlit("");
        assert(""@ =~= Seq::<char>::empty());
    } else if fields.len() > 1 {
        lemma_column_list_is_separated(fields.drop_last());
        assert(definitions(fields) =~= definitions(fields.drop_last()).push(
            column_definition(fields.last()),
        ));
        lemma_separated_behind(
            definitions(fields.drop_last()),
            column_definition(fields.last()),
        );
    }
}

proof fn lemma_definition_defines(field: Field)
    ensures
        defines_column(column_definition(field@), field),
{
    let name = quoted(field.name@);
    let kind = sql_type(field.data_type);
    lemma_quoting_reads_back(field.name@, '"');
    reveal_strlit("");
    assert(name + " "@ + kind + ""@ =~= name + " "@ + kind);
    assert(nullability(field.nullable) == if field.nullable {
        ""@
    } else {
        " NOT NULL"@
    });
    let text = name + " "@ + kind;
    assert(field.nullable ==> column_definition(field@) == text);
}

/// `text` creates the table with exactly the given columns in their order, unless it is there.
pub open spec fn creates_table(
    text: Seq<char>,
    reference: TableReference,
    fields: Seq<Field>,
) -> bool {
    exists|name: Seq<char>, columns: Seq<Seq<char>>|
        {
            &&& text == "CREATE TABLE IF NOT EXISTS "@ + name + " ("@
                + #[trigger] comma_separated(columns) + ")"@
            &&& #[trigger] names_table(name, reference)
            &&& columns.len() == fields.len()
            &&& forall|i: int|
                0 <= i < fields.len() ==> defines_column(#[trigger] columns[i], fields[i])
        }
}

/// The statement that is built creates the table with its columns.
pub proof fn law_statement_creates_the_table(
    reference: &TableReference,
    fields: &Vec<Field>,
    res: String,
)
    requires
        call_ensures(DuckLakeAccelerator::build_create_table_sql, (reference, fields), res),
    ensures
        creates_table(res@, *reference, fields@),
{
    lemma_statement_creates(*reference, fields@);
}

pub(crate) proof fn lemma_statement_creates(reference: TableReference, fields: Seq<Field>)
    ensures
        creates_table(
            create_table_statement(reference@, field_views(fields)),
            reference,
            fields,
        ),
{
    let views = field_views(fields);
    let name = quoted_reference(reference@);
    let columns = definitions(views);
    lemma_reference_names_table(reference);
    lemma_column_list_is_separated(views);
    assert forall|i: int| 0 <= i < fields.len() implies defines_column(
        #[trigger] columns[i],
        fields[i],
    ) by {
        lemma_definition_defines(fields[i]);
    }
    assert(names_table(name, reference));
    assert(create_table_statement(reference@, views) == "CREATE TABLE IF NOT EXISTS "@
        + name + " ("@ + comma_separated(columns) + ")"@);
}

} // verus!
