use ducklake::accelerator::DuckLakeAccelerator;
use ducklake::schema::{DataType, Field, IntervalUnit, TableReference, TimeUnit};

fn bare(table: &str) -> TableReference {
    TableReference::Bare { table: table.to_string() }
}

fn field(name: &str, data_type: DataType, nullable: bool) -> Field {
    Field { name: name.to_string(), data_type, nullable }
}

#[test]
fn identifiers_are_quoted() {
    assert_eq!(DuckLakeAccelerator::quote_identifier("orders"), "\"orders\"");
    assert_eq!(DuckLakeAccelerator::quote_identifier("a\"b"), "\"a\"\"b\"");
    assert_eq!(DuckLakeAccelerator::quote_identifier(""), "\"\"");
    assert_eq!(DuckLakeAccelerator::quote_identifier("\""), "\"\"\"\"");
    assert_eq!(DuckLakeAccelerator::quote_identifier("it's"), "\"it's\"");
}

#[test]
fn table_references_are_quoted_name_by_name() {
    assert_eq!(DuckLakeAccelerator::quote_table_reference(&bare("t")), "\"t\"");
    assert_eq!(
        DuckLakeAccelerator::quote_table_reference(&TableReference::Partial {
            schema: "s".to_string(),
            table: "t".to_string(),
        }),
        "\"s\".\"t\""
    );
    assert_eq!(
        DuckLakeAccelerator::quote_table_reference(&TableReference::Full {
            catalog: "c".to_string(),
            schema: "s\"".to_string(),
            table: "t".to_string(),
        }),
        "\"c\".\"s\"\"\".\"t\""
    );
}

#[test]
fn a_name_with_quotes_and_dots_is_no_path() {
    let sly = DuckLakeAccelerator::quote_table_reference(&bare("s\".\"t"));
    let honest = DuckLakeAccelerator::quote_table_reference(&TableReference::Partial {
        schema: "s".to_string(),
        table: "t".to_string(),
    });
    assert_eq!(sly, "\"s\"\".\"\"t\"");
    assert_ne!(sly, honest);
}

#[test]
fn arrow_types_have_ducklake_types() {
    let cases = vec![
        (DataType::Int8, "TINYINT"),
        (DataType::Int16, "SMALLINT"),
        (DataType::Int32, "INTEGER"),
        (DataType::Int64, "BIGINT"),
        (DataType::UInt8, "UTINYINT"),
        (DataType::UInt16, "USMALLINT"),
        (DataType::UInt32, "UINTEGER"),
        (DataType::UInt64, "UBIGINT"),
        (DataType::Float32, "FLOAT"),
        (DataType::Float64, "DOUBLE"),
        (DataType::Utf8, "VARCHAR"),
        (DataType::LargeUtf8, "VARCHAR"),
        (DataType::Binary, "BLOB"),
        (DataType::LargeBinary, "BLOB"),
        (DataType::FixedSizeBinary(16), "BLOB"),
        (DataType::Boolean, "BOOLEAN"),
        (DataType::Date32, "DATE"),
        (DataType::Date64, "TIMESTAMP"),
        (DataType::Time32(TimeUnit::Second), "TIME"),
        (DataType::Time64(TimeUnit::Nanosecond), "TIME"),
        (DataType::Timestamp(TimeUnit::Microsecond, None), "TIMESTAMP"),
        (DataType::Timestamp(TimeUnit::Microsecond, Some("UTC".to_string())), "TIMESTAMPTZ"),
        (DataType::Decimal128(38, 10), "DECIMAL(38, 10)"),
        (DataType::Decimal128(5, -2), "DECIMAL(5, -2)"),
        (DataType::Duration(TimeUnit::Millisecond), "BIGINT"),
        (DataType::Interval(IntervalUnit::MonthDayNano), "INTERVAL"),
    ];
    for (data_type, name) in cases {
        assert_eq!(DuckLakeAccelerator::to_ducklake_sql_type(&data_type), name);
    }
}

#[test]
fn other_arrow_types_are_kept_as_text() {
    let cases = vec![
        DataType::Null,
        DataType::Float16,
        DataType::BinaryView,
        DataType::Utf8View,
        DataType::List,
        DataType::ListView,
        DataType::FixedSizeList,
        DataType::LargeList,
        DataType::LargeListView,
        DataType::Struct,
        DataType::Union,
        DataType::Dictionary,
        DataType::Decimal32(9, 2),
        DataType::Decimal64(18, 2),
        DataType::Decimal256(76, 2),
        DataType::KeyValueMap,
        DataType::RunEndEncoded,
    ];
    for data_type in cases {
        assert_eq!(DuckLakeAccelerator::to_ducklake_sql_type(&data_type), "VARCHAR");
    }
}

#[test]
fn decimals_show_precision_and_scale() {
    for precision in 0..=u8::MAX {
        for scale in i8::MIN..=i8::MAX {
            assert_eq!(
                DuckLakeAccelerator::to_ducklake_sql_type(&DataType::Decimal128(precision, scale)),
                format!("DECIMAL({precision}, {scale})")
            );
        }
    }
}

#[test]
fn create_table_lists_the_columns() {
    let fields = vec![
        field("id", DataType::Int64, false),
        field("na\"me", DataType::Utf8, true),
        field("price", DataType::Decimal128(10, 2), false),
    ];
    let reference = TableReference::Partial { schema: "main".to_string(), table: "orders".to_string() };
    assert_eq!(
        DuckLakeAccelerator::build_create_table_sql(&reference, &fields),
        "CREATE TABLE IF NOT EXISTS \"main\".\"orders\" (\"id\" BIGINT NOT NULL, \"na\"\"me\" VARCHAR, \"price\" DECIMAL(10, 2) NOT NULL)"
    );
}

#[test]
fn create_table_without_columns_or_with_one() {
    assert_eq!(
        DuckLakeAccelerator::build_create_table_sql(&bare("t"), &vec![]),
        "CREATE TABLE IF NOT EXISTS \"t\" ()"
    );
    assert_eq!(
        DuckLakeAccelerator::build_create_table_sql(&bare("t"), &vec![field("a", DataType::Boolean, true)]),
        "CREATE TABLE IF NOT EXISTS \"t\" (\"a\" BOOLEAN)"
    );
}

#[test]
fn a_column_name_cannot_pose_as_two_columns() {
    let one = vec![field("a\" BIGINT, \"b", DataType::Int64, true)];
    let two = vec![field("a", DataType::Int64, true), field("b", DataType::Int64, true)];
    let sly = DuckLakeAccelerator::build_create_table_sql(&bare("t"), &one);
    assert_eq!(sly, "CREATE TABLE IF NOT EXISTS \"t\" (\"a\"\" BIGINT, \"\"b\" BIGINT)");
    assert_ne!(sly, DuckLakeAccelerator::build_create_table_sql(&bare("t"), &two));
}
