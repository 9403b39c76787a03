//! The SQL that creates a table at a hosted endpoint.

use crate::accelerator::DuckLakeAccelerator;
use crate::schema::{field_views, DataType, Field, FieldView, TableReference, TableReferenceView};
use crate::text::{decimal, double, doubled, format_decimal};
use vstd::prelude::*;
use vstd::string::StringExecFns;

verus! {

/// An identifier in double quotes, with the double quotes inside it written twice.
pub open spec fn quoted(identifier: Seq<char>) -> Seq<char> {
    seq!['"'] + doubled(identifier, '"') + seq!['"']
}

/// The quoted names of a table reference, with dots between them.
pub open spec fn quoted_reference(reference: TableReferenceView) -> Seq<char> {
    match reference {
        TableReferenceView::Bare { table } => quoted(table),
        TableReferenceView::Partial { schema, table } => quoted(schema) + "."@ + quoted(table),
        TableReferenceView::Full { catalog, schema, table } => {
            quoted(catalog) + "."@ + quoted(schema) + "."@ + quoted(table)
        },
    }
}

/// The DuckLake type of a column of an Arrow type. Types without a counterpart are kept as text.
pub open spec fn sql_type(data_type: DataType) -> Seq<char> {
    match data_type {
        DataType::Int8 => "TINYINT"@,
        DataType::Int16 => "SMALLINT"@,
        DataType::Int32 => "INTEGER"@,
        DataType::Int64 => "BIGINT"@,
        DataType::UInt8 => "UTINYINT"@,
        DataType::UInt16 => "USMALLINT"@,
        DataType::UInt32 => "UINTEGER"@,
        DataType::UInt64 => "UBIGINT"@,
        DataType::Float32 => "FLOAT"@,
        DataType::Float64 => "DOUBLE"@,
        DataType::Utf8 | DataType::LargeUtf8 => "VARCHAR"@,
        DataType::Binary | DataType::LargeBinary | DataType::FixedSizeBinary(_) => "BLOB"@,
        DataType::Boolean => "BOOLEAN"@,
        DataType::Date32 => "DATE"@,
        DataType::Date64 => "TIMESTAMP"@,
        DataType::Time32(_) | DataType::Time64(_) => "TIME"@,
        DataType::Timestamp(_, time_zone) => if time_zone is Some {
            "TIMESTAMPTZ"@
        } else {
            "TIMESTAMP"@
        },
        DataType::Decimal128(precision, scale) => {
            "DECIMAL("@ + decimal(precision as int) + ", "@ + decimal(scale as int) + ")"@
        },
        DataType::Duration(_) => "BIGINT"@,
        DataType::Interval(_) => "INTERVAL"@,
        _ => "VARCHAR"@,
    }
}

/// What stands behind the type of a column.
pub open spec fn nullability(nullable: bool) -> Seq<char> {
    if nullable {
        ""@
    } else {
        " NOT NULL"@
    }
}

/// The definition of one column.
pub open spec fn column_definition(field: FieldView) -> Seq<char> {
    quoted(field.name) + " "@ + sql_type(field.data_type) + nullability(field.nullable)
}

/// The definitions of the columns, with commas between them.
pub open spec fn column_list(fields: Seq<FieldView>) -> Seq<char>
    decreases fields.len(),
{
    if fields.len() == 0 {
        ""@
    } else if fields.len() == 1 {
        column_definition(fields[0])
    } else {
        column_list(fields.drop_last()) + ", "@ + column_definition(fields.last())
    }
}

/// The statement that creates a table unless it is there.
pub open spec fn create_table_statement(
    reference: TableReferenceView,
    fields: Seq<FieldView>,
) -> Seq<char> {
    "CREATE TABLE IF NOT EXISTS "@ + quoted_reference(reference) + " ("@ + column_list(fields) + ")"@
}

impl DuckLakeAccelerator {
    /// `identifier` in double quotes.
    pub fn quote_identifier(identifier: &str) -> (res: String)
        ensures
            res@ == quoted(identifier@),
    {
        let mut res = String::new();
        res.push('"');
        res.append(double(identifier, '"').as_str());
        res.push('"');
        res
    }

    /// The names of a table reference, each in double quotes.
    pub fn quote_table_reference(table_reference: &TableReference) -> (res: String)
        ensures
            res@ == quoted_reference(table_reference@),
    {
        match table_reference {
            TableReference::Bare { table } => Self::quote_identifier(table.as_str()),
            TableReference::Partial { schema, table } => {
                let mut res = Self::quote_identifier(schema.as_str());
                res.append(".");
                res.append(Self::quote_identifier(table.as_str()).as_str());
                res
            },
            TableReference::Full { catalog, schema, table } => {
                let mut res = Self::quote_identifier(catalog.as_str());
                res.append(".");
                res.append(Self::quote_identifier(schema.as_str()).as_str());
                res.append(".");
                res.append(Self::quote_identifier(table.as_str()).as_str());
                res
            },
        }
    }

    /// The DuckLake type for an Arrow type.
    pub fn to_ducklake_sql_type(data_type: &DataType) -> (res: String)
        ensures
            res@ == sql_type(*data_type),
    {
        match data_type {
            DataType::Int8 => "TINYINT".to_string(),
            DataType::Int16 => "SMALLINT".to_string(),
            DataType::Int32 => "INTEGER".to_string(),
            DataType::Int64 => "BIGINT".to_string(),
            DataType::UInt8 => "UTINYINT".to_string(),
            DataType::UInt16 => "USMALLINT".to_string(),
            DataType::UInt32 => "UINTEGER".to_string(),
            DataType::UInt64 => "UBIGINT".to_string(),
            DataType::Float32 => "FLOAT".to_string(),
            DataType::Float64 => "DOUBLE".to_string(),
            DataType::Utf8 | DataType::LargeUtf8 => "VARCHAR".to_string(),
            DataType::Binary | DataType::LargeBinary | DataType::FixedSizeBinary(_) => {
                "BLOB".to_string()
            },
            DataType::Boolean => "BOOLEAN".to_string(),
            DataType::Date32 => "DATE".to_string(),
            DataType::Date64 => "TIMESTAMP".to_string(),
            DataType::Time32(_) | DataType::Time64(_) => "TIME".to_string(),
            DataType::Timestamp(_, time_zone) => {
                if time_zone.is_some() {
                    "TIMESTAMPTZ".to_string()
                } else {
                    "TIMESTAMP".to_string()
                }
            },
            DataType::Decimal128(precision, scale) => {
                let mut res = "DECIMAL(".to_string();
                res.append(format_decimal(*precision as i16).as_str());
                res.append(", ");
                res.append(format_decimal(*scale as i16).as_str());
                res.append(")");
                res
            },
            DataType::Duration(_) => "BIGINT".to_string(),
            DataType::Interval(_) => "INTERVAL".to_string(),
            // Nested and less common types are written as JSON or plain text.
            _ => "VARCHAR".to_string(),
        }
    }

    /// The statement that creates the table `table_reference` with the columns `fields`.
    pub fn build_create_table_sql(table_reference: &TableReference, fields: &Vec<Field>) -> (res:
        String)
        ensures
            res@ == create_table_statement(table_reference@, field_views(fields@)),
    {
        let ghost columns = field_views(fields@);
        let mut list = String::new();
        let mut i: usize = 0;
        proof {
            reveal_strlit("");
            assert(""@ =~= Seq::<char>::empty());
        }
        while i < fields.len()
            invariant
                i <= fields@.len(),
                ""@ == Seq::<char>::empty(),
                columns == field_views(fields@),
                list@ == column_list(columns.take(i as int)),
            decreases fields@.len() - i,
        {
            let field = &fields[i];
            assert(columns.take(i + 1).drop_last() == columns.take(i as int));
            assert(columns.take(i + 1).last() == field@);
            if i > 0 {
                list.append(", ");
            }
            let ghost before = list@;
            list.append(Self::quote_identifier(field.name.as_str()).as_str());
            list.append(" ");
            list.append(Self::to_ducklake_sql_type(&field.data_type).as_str());
            list.append(if field.nullable { "" } else { " NOT NULL" });
            assert(list@ == before + column_definition(field@));
            proof {
                if i == 0 {
                    assert(columns.take(0) == Seq::<FieldView>::empty());
                    assert(before =~= Seq::<char>::empty());
                    assert(list@ =~= column_definition(field@));
                }
            }
            i = i + 1;
        }
        assert(columns.take(columns.len() as int) == columns);
        let mut res = "CREATE TABLE IF NOT EXISTS ".to_string();
        res.append(Self::quote_table_reference(table_reference).as_str());
        res.append(" (");
        res.append(list.as_str());
        res.append(")");
        res
    }
}

} // verus!
