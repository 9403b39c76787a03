//! The statement that creates a table says all there is to say of it: two statements are equal only
//! where they create the same table.

use crate::quoting::{law_quoted_identifier_is_delimited, law_quoted_reference_is_delimited};
use crate::schema::{DataType, FieldView, TableReferenceView};
use crate::sql::{
    column_definition, column_list, create_table_statement, nullability, quoted, quoted_reference,
    sql_type,
};
use crate::text::{decimal, digits};
use vstd::prelude::*;

verus! {

/// `c` does not occur in `text`.
pub open spec fn is_free_of(text: Seq<char>, c: char) -> bool {
    forall|i: int| 0 <= i < text.len() ==> #[trigger] text[i] != c
}

/// Two columns have the same name, the same DuckLake type and the same nullability.
pub open spec fn same_column(a: FieldView, b: FieldView) -> bool {
    a.name == b.name && sql_type(a.data_type) == sql_type(b.data_type) && a.nullable == b.nullable
}

/// Two lists have the same columns in the same order.
pub open spec fn same_columns(a: Seq<FieldView>, b: Seq<FieldView>) -> bool {
    a.len() == b.len() && forall|i: int|
        0 <= i < a.len() ==> same_column(#[trigger] a[i], #[trigger] b[i])
}

proof fn lemma_digits_are_free_of(value: nat, c: char)
    requires
        !('0' <= c <= '9'),
    ensures
        is_free_of(digits(value), c),
        digits(value).len() > 0,
    decreases value,
{
    if value >= 10 {
        lemma_digits_are_free_of(value / 10, c);
    }
}

proof fn lemma_decimal_is_free_of(value: int, c: char)
    requires
        !('0' <= c <= '9'),
        c != '-',
    ensures
        is_free_of(decimal(value), c),
{
    if value < 0 {
        lemma_digits_are_free_of((-value) as nat, c);
    } else {
        lemma_digits_are_free_of(value as nat, c);
    }
}

/// The name of a simple DuckLake type: letters alone.
spec fn is_type_word(text: Seq<char>) -> bool {
    text.len() > 0 && forall|i: int| 0 <= i < text.len() ==> 'A' <= #[trigger] text[i] <= 'Z'
}

proof fn lemma_type_words()
    ensures
        is_type_word("TINYINT"@),
        is_type_word("SMALLINT"@),
        is_type_word("INTEGER"@),
        is_type_word("BIGINT"@),
        is_type_word("UTINYINT"@),
        is_type_word("USMALLINT"@),
        is_type_word("UINTEGER"@),
        is_type_word("UBIGINT"@),
        is_type_word("FLOAT"@),
        is_type_word("DOUBLE"@),
        is_type_word("VARCHAR"@),
        is_type_word("BLOB"@),
        is_type_word("BOOLEAN"@),
        is_type_word("DATE"@),
        is_type_word("TIMESTAMP"@),
        is_type_word("TIME"@),
        is_type_word("TIMESTAMPTZ"@),
        is_type_word("INTERVAL"@),
{
    reveal_strlit("TINYINT");
    assert("TINYINT"@ =~= seq!['T', 'I', 'N', 'Y', 'I', 'N', 'T']);
    reveal_strlit("SMALLINT");
    assert("SMALLINT"@ =~= seq!['S', 'M', 'A', 'L', 'L', 'I', 'N', 'T']);
    reveal_strlit("INTEGER");
    assert("INTEGER"@ =~= seq!['I', 'N', 'T', 'E', 'G', 'E', 'R']);
    reveal_strlit("BIGINT");
    assert("BIGINT"@ =~= seq!['B', 'I', 'G', 'I', 'N', 'T']);
    reveal_strlit("UTINYINT");
    assert("UTINYINT"@ =~= seq!['U', 'T', 'I', 'N', 'Y', 'I', 'N', 'T']);
    reveal_strlit("USMALLINT");
    assert("USMALLINT"@ =~= seq!['U', 'S', 'M', 'A', 'L', 'L', 'I', 'N', 'T']);
    reveal_strlit("UINTEGER");
    assert("UINTEGER"@ =~= seq!['U', 'I', 'N', 'T', 'E', 'G', 'E', 'R']);
    reveal_strlit("UBIGINT");
    assert("UBIGINT"@ =~= seq!['U', 'B', 'I', 'G', 'I', 'N', 'T']);
    reveal_strlit("FLOAT");
    assert("FLOAT"@ =~= seq!['F', 'L', 'O', 'A', 'T']);
    reveal_strlit("DOUBLE");
    assert("DOUBLE"@ =~= seq!['D', 'O', 'U', 'B', 'L', 'E']);
    reveal_strlit("VARCHAR");
    assert("VARCHAR"@ =~= seq!['V', 'A', 'R', 'C', 'H', 'A', 'R']);
    reveal_strlit("BLOB");
    assert("BLOB"@ =~= seq!['B', 'L', 'O', 'B']);
    reveal_strlit("BOOLEAN");
    assert("BOOLEAN"@ =~= seq!['B', 'O', 'O', 'L', 'E', 'A', 'N']);
    reveal_strlit("DATE");
    assert("DATE"@ =~= seq!['D', 'A', 'T', 'E']);
    reveal_strlit("TIMESTAMP");
    assert("TIMESTAMP"@ =~= seq!['T', 'I', 'M', 'E', 'S', 'T', 'A', 'M', 'P']);
    reveal_strlit("TIME");
    assert("TIME"@ =~= seq!['T', 'I', 'M', 'E']);
    reveal_strlit("TIMESTAMPTZ");
    assert("TIMESTAMPTZ"@ =~= seq!['T', 'I', 'M', 'E', 'S', 'T', 'A', 'M', 'P', 'T', 'Z']);
    reveal_strlit("INTERVAL");
    assert("INTERVAL"@ =~= seq!['I', 'N', 'T', 'E', 'R', 'V', 'A', 'L']);
}

/// A DuckLake type has no double quote in it, and is one word or ends in a bracket.
proof fn lemma_sql_type_shape(data_type: DataType)
    ensures
        is_free_of(sql_type(data_type), '"'),
        is_free_of(sql_type(data_type), ' ') || sql_type(data_type).last() == ')',
        sql_type(data_type).len() > 0,
{
    lemma_type_words();
    if let DataType::Decimal128(precision, scale) = data_type {
        lemma_decimal_is_free_of(precision as int, '"');
        lemma_decimal_is_free_of(scale as int, '"');
        reveal_strlit("DECIMAL(");
        reveal_strlit(", ");
        reveal_strlit(")");
        assert("DECIMAL("@ =~= seq!['D', 'E', 'C', 'I', 'M', 'A', 'L', '(']);
        assert(", "@ =~= seq![',', ' ']);
        assert(")"@ =~= seq![')']);
        let text = sql_type(data_type);
        let a = "DECIMAL("@ + decimal(precision as int);
        let b = a + ", "@;
        let c = b + decimal(scale as int);
        assert(is_free_of(a, '"'));
        assert(is_free_of(b, '"'));
        assert(is_free_of(c, '"'));
        assert(text == c + ")"@);
        assert(text.last() == ')');
    } else {
        assert(is_type_word(sql_type(data_type)));
    }
}

/// What follows the name of a column, up to its comma or closing bracket.
spec fn type_and_nullability(field: FieldView) -> Seq<char> {
    sql_type(field.data_type) + nullability(field.nullable)
}

proof fn lemma_nullability_texts()
    ensures
        ""@ == Seq::<char>::empty(),
        " NOT NULL"@ == seq![' ', 'N', 'O', 'T', ' ', 'N', 'U', 'L', 'L'],
{
    reveal_strlit("");
    reveal_strlit(" NOT NULL");
    assert(""@ =~= Seq::<char>::empty());
    assert(" NOT NULL"@ =~= seq![' ', 'N', 'O', 'T', ' ', 'N', 'U', 'L', 'L']);
}

proof fn lemma_type_and_nullability_is_plain(field: FieldView)
    ensures
        is_free_of(type_and_nullability(field), '"'),
{
    lemma_sql_type_shape(field.data_type);
    lemma_nullability_texts();
}

/// The type and the nullability of a column can be told apart.
proof fn lemma_type_and_nullability_differ(a: FieldView, b: FieldView)
    requires
        type_and_nullability(a) == type_and_nullability(b),
        a.nullable,
    ensures
        b.nullable,
        sql_type(a.data_type) == sql_type(b.data_type),
{
    lemma_sql_type_shape(a.data_type);
    lemma_nullability_texts();
    assert(type_and_nullability(a) =~= sql_type(a.data_type));
    if !b.nullable {
        let text = type_and_nullability(b);
        assert(text.last() == 'L');
        assert(text[sql_type(b.data_type).len() as int] == ' ');
        assert(false);
    }
    assert(type_and_nullability(b) =~= sql_type(b.data_type));
}

proof fn lemma_same_type_and_nullability(a: FieldView, b: FieldView)
    requires
        type_and_nullability(a) == type_and_nullability(b),
    ensures
        a.nullable == b.nullable,
        sql_type(a.data_type) == sql_type(b.data_type),
{
    if a.nullable {
        lemma_type_and_nullability_differ(a, b);
    } else if b.nullable {
        lemma_type_and_nullability_differ(b, a);
    } else {
        let size = type_and_nullability(a).len() - nullability(false).len();
        assert(sql_type(a.data_type) =~= type_and_nullability(a).take(size));
        assert(sql_type(b.data_type) =~= type_and_nullability(b).take(size));
    }
}

/// The list of columns begins with the first column.
proof fn lemma_column_list_first(fields: Seq<FieldView>)
    requires
        fields.len() > 1,
    ensures
        column_list(fields) == column_definition(fields[0]) + ", "@ + column_list(
            fields.drop_first(),
        ),
    decreases fields.len(),
{
    if fields.len() == 2 {
        assert(column_list(fields.drop_last()) == column_definition(fields[0]));
        assert(column_list(fields.drop_first()) == column_definition(fields.last()));
    } else {
        lemma_column_list_first(fields.drop_last());
        assert(fields.drop_last().drop_first() == fields.drop_first().drop_last());
        assert(fields.drop_first().last() == fields.last());
        assert(column_list(fields) =~= column_definition(fields[0]) + ", "@ + column_list(
            fields.drop_first(),
        ));
    }
}

/// What closes a column: a comma, or the bracket behind the last one.
spec fn closing(fields: Seq<FieldView>) -> Seq<char> {
    if fields.len() > 1 {
        seq![',', ' ']
    } else {
        seq![')']
    }
}

/// What stands behind the first column and what closes it.
spec fn further_columns(fields: Seq<FieldView>) -> Seq<char> {
    if fields.len() > 1 {
        column_list(fields.drop_first()) + ")"@
    } else {
        seq![]
    }
}

/// A list of columns is its first name, the type and nullability of the first column, and the rest.
proof fn lemma_split_columns(fields: Seq<FieldView>)
    requires
        fields.len() > 0,
    ensures
        column_list(fields) + ")"@ == quoted(fields[0].name) + (seq![' '] + type_and_nullability(
            fields[0],
        ) + closing(fields) + further_columns(fields)),
        fields.len() > 1 ==> further_columns(fields).len() > 0 && further_columns(fields)[0] == '"',
{
    reveal_strlit(" ");
    reveal_strlit(", ");
    reveal_strlit(")");
    assert(" "@ =~= seq![' ']);
    assert(", "@ =~= seq![',', ' ']);
    assert(")"@ =~= seq![')']);
    assert(column_definition(fields[0]) =~= quoted(fields[0].name) + (seq![' ']
        + type_and_nullability(fields[0])));
    if fields.len() > 1 {
        lemma_column_list_first(fields);
        let rest = fields.drop_first();
        if rest.len() > 1 {
            lemma_column_list_first(rest);
        }
        assert(column_definition(rest[0])[0] == '"');
        assert(further_columns(fields)[0] == '"');
    }
    assert(column_list(fields) + ")"@ =~= quoted(fields[0].name) + (seq![' ']
        + type_and_nullability(fields[0]) + closing(fields) + further_columns(fields)));
}

/// The first columns agree, and so does what stands behind them.
proof fn lemma_first_columns(a: Seq<FieldView>, b: Seq<FieldView>)
    requires
        a.len() > 0,
        b.len() > 0,
        column_list(a) + ")"@ == column_list(b) + ")"@,
    ensures
        same_column(a[0], b[0]),
        a.len() > 1 <==> b.len() > 1,
        further_columns(a) == further_columns(b),
{
    lemma_split_columns(a);
    lemma_split_columns(b);
    let type_a = type_and_nullability(a[0]);
    let type_b = type_and_nullability(b[0]);
    lemma_type_and_nullability_is_plain(a[0]);
    lemma_type_and_nullability_is_plain(b[0]);
    let head_a = seq![' '] + type_a + closing(a);
    let head_b = seq![' '] + type_b + closing(b);
    assert(is_free_of(head_a, '"'));
    assert(is_free_of(head_b, '"'));
    let after_a = head_a + further_columns(a);
    let after_b = head_b + further_columns(b);
    law_quoted_identifier_is_delimited(a[0].name, b[0].name, after_a, after_b);
    if a.len() > 1 {
        assert(after_a[head_a.len() as int] == '"');
        if head_a.len() < head_b.len() {
            assert(after_b[head_a.len() as int] == head_b[head_a.len() as int]);
            assert(false);
        }
        assert(b.len() > 1) by {
            if b.len() == 1 {
                assert(after_b =~= head_b);
                assert(false);
            }
        }
    }
    if b.len() > 1 {
        assert(after_b[head_b.len() as int] == '"');
        if head_b.len() < head_a.len() {
            assert(after_a[head_b.len() as int] == head_a[head_b.len() as int]);
            assert(false);
        }
        assert(a.len() > 1) by {
            if a.len() == 1 {
                assert(after_a =~= head_a);
                assert(false);
            }
        }
    }
    if a.len() == 1 {
        assert(after_a =~= head_a);
        assert(after_b =~= head_b);
    }
    assert(head_a.len() == head_b.len());
    assert(head_a =~= after_a.take(head_a.len() as int));
    assert(head_b =~= after_b.take(head_b.len() as int));
    assert(further_columns(a) =~= after_a.skip(head_a.len() as int));
    assert(further_columns(b) =~= after_b.skip(head_b.len() as int));
    assert(type_a =~= head_a.subrange(1, type_a.len() + 1int));
    assert(type_b =~= head_b.subrange(1, type_b.len() + 1int));
    lemma_same_type_and_nullability(a[0], b[0]);
}

/// The list of columns determines the columns.
pub proof fn law_column_lists_differ(a: Seq<FieldView>, b: Seq<FieldView>)
    ensures
        column_list(a) + ")"@ == column_list(b) + ")"@ <==> same_columns(a, b),
    decreases a.len(),
{
    if column_list(a) + ")"@ == column_list(b) + ")"@ {
        reveal_strlit(")");
        lemma_nullability_texts();
        if a.len() == 0 || b.len() == 0 {
            if a.len() > 0 {
                lemma_split_columns(a);
                assert((column_list(a) + ")"@)[0] == '"');
                assert((column_list(b) + ")"@)[0] == ')');
                assert(false);
            }
            if b.len() > 0 {
                lemma_split_columns(b);
                assert((column_list(b) + ")"@)[0] == '"');
                assert((column_list(a) + ")"@)[0] == ')');
                assert(false);
            }
        } else {
            lemma_first_columns(a, b);
            if a.len() > 1 {
                law_column_lists_differ(a.drop_first(), b.drop_first());
                assert forall|i: int| 0 <= i < a.len() implies same_column(
                    #[trigger] a[i],
                    #[trigger] b[i],
                ) by {
                    if i > 0 {
                        assert(same_column(a.drop_first()[i - 1], b.drop_first()[i - 1]));
                    }
                }
            }
        }
    }
    if same_columns(a, b) {
        lemma_same_columns_same_list(a, b);
    }
}

proof fn lemma_same_columns_same_list(a: Seq<FieldView>, b: Seq<FieldView>)
    requires
        same_columns(a, b),
    ensures
        column_list(a) == column_list(b),
    decreases a.len(),
{
    if a.len() > 0 {
        assert(same_column(a.last(), b.last()));
        assert(same_column(a[0], b[0]));
        lemma_same_columns_same_list(a.drop_last(), b.drop_last());
    }
}

/// The statement that creates a table determines the table, and the name, type and nullability of
/// each of its columns.
pub proof fn law_create_table_statements_differ(
    table_a: TableReferenceView,
    columns_a: Seq<FieldView>,
    table_b: TableReferenceView,
    columns_b: Seq<FieldView>,
)
    ensures
        create_table_statement(table_a, columns_a) == create_table_statement(table_b, columns_b) <==> (
        table_a == table_b && same_columns(columns_a, columns_b)),
{
    law_column_lists_differ(columns_a, columns_b);
    let head = "CREATE TABLE IF NOT EXISTS "@;
    reveal_strlit(" (");
    assert(" ("@ =~= seq![' ', '(']);
    let after_a = " ("@ + (column_list(columns_a) + ")"@);
    let after_b = " ("@ + (column_list(columns_b) + ")"@);
    assert(create_table_statement(table_a, columns_a) =~= head + (quoted_reference(table_a)
        + after_a));
    assert(create_table_statement(table_b, columns_b) =~= head + (quoted_reference(table_b)
        + after_b));
    if create_table_statement(table_a, columns_a) == create_table_statement(table_b, columns_b) {
        assert(create_table_statement(table_a, columns_a).skip(head.len() as int)
            =~= quoted_reference(table_a) + after_a);
        assert(create_table_statement(table_b, columns_b).skip(head.len() as int)
            =~= quoted_reference(table_b) + after_b);
        law_quoted_reference_is_delimited(table_a, table_b, after_a, after_b);
        assert(after_a.skip(2) =~= column_list(columns_a) + ")"@);
        assert(after_b.skip(2) =~= column_list(columns_b) + ")"@);
    }
}

} // verus!
