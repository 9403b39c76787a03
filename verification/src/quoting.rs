//! Quoted text can be read back: the quoting of names and strings loses nothing, and what stands
//! behind a closing quote cannot be taken for a part of the text.

use crate::pool::{attach_statement, use_statement};
use crate::schema::TableReferenceView;
use crate::sql::{quoted, quoted_reference};
use crate::text::doubled;
use vstd::prelude::*;

verus! {

/// `text` does not begin with `c`.
pub open spec fn does_not_begin(text: Seq<char>, c: char) -> bool {
    text.len() > 0 ==> text[0] != c
}

/// Doubling goes part by part.
proof fn lemma_doubled_concat(a: Seq<char>, b: Seq<char>, quote: char)
    ensures
        doubled(a + b, quote) == doubled(a, quote) + doubled(b, quote),
    decreases b.len(),
{
    if b.len() == 0 {
        assert(a + b == a);
        assert(doubled(a, quote) + doubled(b, quote) =~= doubled(a, quote));
    } else {
        lemma_doubled_concat(a, b.drop_last(), quote);
        assert((a + b).drop_last() == a + b.drop_last());
        assert((a + b).last() == b.last());
        assert(doubled(a + b, quote) =~= doubled(a, quote) + doubled(b, quote));
    }
}

/// The first character of a text comes out first, once or twice.
proof fn lemma_doubled_first(text: Seq<char>, quote: char)
    requires
        text.len() > 0,
    ensures
        text[0] == quote ==> doubled(text, quote) == seq![quote, quote] + doubled(
            text.drop_first(),
            quote,
        ),
        text[0] != quote ==> doubled(text, quote) == seq![text[0]] + doubled(
            text.drop_first(),
            quote,
        ),
{
    let head = seq![text[0]];
    lemma_doubled_concat(head, text.drop_first(), quote);
    assert(head + text.drop_first() == text);
    assert(head.drop_last() == Seq::<char>::empty());
    assert(doubled(head.drop_last(), quote) == Seq::<char>::empty());
    if text[0] == quote {
        assert(doubled(head, quote) =~= seq![quote, quote]);
    } else {
        assert(doubled(head, quote) =~= head);
    }
}

/// A text with its quotes doubled ends at the first single quote: whatever follows, the text and what
/// follows it can be told apart.
pub proof fn law_doubled_text_is_delimited(
    a: Seq<char>,
    b: Seq<char>,
    quote: char,
    after_a: Seq<char>,
    after_b: Seq<char>,
)
    requires
        doubled(a, quote) + seq![quote] + after_a == doubled(b, quote) + seq![quote] + after_b,
        does_not_begin(after_a, quote),
        does_not_begin(after_b, quote),
    ensures
        a == b,
        after_a == after_b,
    decreases a.len() + b.len(),
{
    let left = doubled(a, quote) + seq![quote] + after_a;
    let right = doubled(b, quote) + seq![quote] + after_b;
    if a.len() > 0 {
        lemma_doubled_first(a, quote);
    }
    if b.len() > 0 {
        lemma_doubled_first(b, quote);
    }
    if a.len() == 0 && b.len() == 0 {
        assert(left.skip(1) =~= after_a);
        assert(right.skip(1) =~= after_b);
        assert(a =~= b);
    } else if a.len() == 0 {
        assert(left[0] == quote);
        if b[0] == quote {
            assert(right[1] == quote);
            assert(left[1] == after_a[0]);
            assert(false);
        } else {
            assert(right[0] == b[0]);
            assert(false);
        }
    } else if b.len() == 0 {
        assert(right[0] == quote);
        if a[0] == quote {
            assert(left[1] == quote);
            assert(right[1] == after_b[0]);
            assert(false);
        } else {
            assert(left[0] == a[0]);
            assert(false);
        }
    } else {
        assert(left[0] == a[0]);
        assert(right[0] == b[0]);
        let width: int = if a[0] == quote {
            2
        } else {
            1
        };
        assert(left.skip(width) =~= doubled(a.drop_first(), quote) + seq![quote] + after_a);
        assert(right.skip(width) =~= doubled(b.drop_first(), quote) + seq![quote] + after_b);
        law_doubled_text_is_delimited(a.drop_first(), b.drop_first(), quote, after_a, after_b);
        assert(a =~= seq![a[0]] + a.drop_first());
        assert(b =~= seq![b[0]] + b.drop_first());
    }
}

/// A quoted identifier ends at its closing quote: two texts that begin with quoted identifiers, with
/// no quote behind them, are equal only where the identifiers and the rests are.
pub proof fn law_quoted_identifier_is_delimited(
    a: Seq<char>,
    b: Seq<char>,
    after_a: Seq<char>,
    after_b: Seq<char>,
)
    requires
        quoted(a) + after_a == quoted(b) + after_b,
        does_not_begin(after_a, '"'),
        does_not_begin(after_b, '"'),
    ensures
        a == b,
        after_a == after_b,
{
    assert((quoted(a) + after_a).skip(1) =~= doubled(a, '"') + seq!['"'] + after_a);
    assert((quoted(b) + after_b).skip(1) =~= doubled(b, '"') + seq!['"'] + after_b);
    law_doubled_text_is_delimited(a, b, '"', after_a, after_b);
}

/// Different identifiers are quoted differently.
pub proof fn law_quoted_identifiers_differ(a: Seq<char>, b: Seq<char>)
    ensures
        quoted(a) == quoted(b) <==> a == b,
{
    if quoted(a) == quoted(b) {
        let nothing = Seq::<char>::empty();
        assert(quoted(a) + nothing =~= quoted(a));
        assert(quoted(b) + nothing =~= quoted(b));
        law_quoted_identifier_is_delimited(a, b, nothing, nothing);
    }
}

/// The first name of a table reference.
spec fn first_name(reference: TableReferenceView) -> Seq<char> {
    match reference {
        TableReferenceView::Bare { table } => table,
        TableReferenceView::Partial { schema, table } => schema,
        TableReferenceView::Full { catalog, schema, table } => catalog,
    }
}

/// What a table reference writes behind its first name.
spec fn behind_first_name(reference: TableReferenceView) -> Seq<char> {
    match reference {
        TableReferenceView::Bare { table } => seq![],
        TableReferenceView::Partial { schema, table } => "."@ + quoted(table),
        TableReferenceView::Full { catalog, schema, table } => "."@ + quoted(schema) + "."@ + quoted(
            table,
        ),
    }
}

/// The reference without its first name.
spec fn inner_reference(reference: TableReferenceView) -> TableReferenceView {
    match reference {
        TableReferenceView::Full { catalog, schema, table } => TableReferenceView::Partial {
            schema,
            table,
        },
        TableReferenceView::Partial { schema, table } => TableReferenceView::Bare { table },
        TableReferenceView::Bare { table } => reference,
    }
}

/// The number of names in a table reference.
pub open spec fn names(reference: TableReferenceView) -> nat {
    match reference {
        TableReferenceView::Bare { table } => 1,
        TableReferenceView::Partial { schema, table } => 2,
        TableReferenceView::Full { catalog, schema, table } => 3,
    }
}

proof fn lemma_split_reference(reference: TableReferenceView)
    ensures
        quoted_reference(reference) == quoted(first_name(reference)) + behind_first_name(reference),
        names(reference) == 1 ==> behind_first_name(reference).len() == 0,
        names(reference) > 1 ==> behind_first_name(reference) == seq!['.'] + quoted_reference(
            inner_reference(reference),
        ),
        does_not_begin(behind_first_name(reference), '"'),
{
    reveal_strlit(".");
    assert("."@ =~= seq!['.']);
    assert(quoted_reference(reference) =~= quoted(first_name(reference)) + behind_first_name(
        reference,
    ));
    if names(reference) > 1 {
        assert(behind_first_name(reference) =~= seq!['.'] + quoted_reference(
            inner_reference(reference),
        ));
    }
}

/// A quoted table reference ends where its last name does: two texts that begin with quoted
/// references, with neither a quote nor a dot behind them, are equal only where the references and
/// the rests are.
pub proof fn law_quoted_reference_is_delimited(
    a: TableReferenceView,
    b: TableReferenceView,
    after_a: Seq<char>,
    after_b: Seq<char>,
)
    requires
        quoted_reference(a) + after_a == quoted_reference(b) + after_b,
        does_not_begin(after_a, '"'),
        does_not_begin(after_b, '"'),
        does_not_begin(after_a, '.'),
        does_not_begin(after_b, '.'),
    ensures
        a == b,
        after_a == after_b,
    decreases names(a),
{
    lemma_split_reference(a);
    lemma_split_reference(b);
    let rest_a = behind_first_name(a) + after_a;
    let rest_b = behind_first_name(b) + after_b;
    assert(quoted_reference(a) + after_a =~= quoted(first_name(a)) + rest_a);
    assert(quoted_reference(b) + after_b =~= quoted(first_name(b)) + rest_b);
    law_quoted_identifier_is_delimited(first_name(a), first_name(b), rest_a, rest_b);
    if names(a) == 1 && names(b) == 1 {
        assert(rest_a =~= after_a);
        assert(rest_b =~= after_b);
    } else if names(a) == 1 {
        assert(rest_a =~= after_a);
        assert(rest_b[0] == '.');
        assert(false);
    } else if names(b) == 1 {
        assert(rest_b =~= after_b);
        assert(rest_a[0] == '.');
        assert(false);
    } else {
        assert(rest_a.skip(1) =~= quoted_reference(inner_reference(a)) + after_a);
        assert(rest_b.skip(1) =~= quoted_reference(inner_reference(b)) + after_b);
        law_quoted_reference_is_delimited(inner_reference(a), inner_reference(b), after_a, after_b);
    }
}

/// Different table references are quoted differently.
pub proof fn law_quoted_references_differ(a: TableReferenceView, b: TableReferenceView)
    ensures
        quoted_reference(a) == quoted_reference(b) <==> a == b,
{
    if quoted_reference(a) == quoted_reference(b) {
        let nothing = Seq::<char>::empty();
        assert(quoted_reference(a) + nothing =~= quoted_reference(a));
        assert(quoted_reference(b) + nothing =~= quoted_reference(b));
        law_quoted_reference_is_delimited(a, b, nothing, nothing);
    }
}

/// The statement that attaches a DuckLake determines its connection string and its catalog name.
pub proof fn law_attach_statements_differ(
    connection_a: Seq<char>,
    catalog_a: Seq<char>,
    connection_b: Seq<char>,
    catalog_b: Seq<char>,
)
    ensures
        attach_statement(connection_a, catalog_a) == attach_statement(connection_b, catalog_b) <==> (
        connection_a == connection_b && catalog_a == catalog_b),
{
    if attach_statement(connection_a, catalog_a) == attach_statement(connection_b, catalog_b) {
        let head = "ATTACH 'ducklake:"@;
        reveal_strlit("' AS \"");
        reveal_strlit("\"");
        let middle = " AS \""@;
        reveal_strlit(" AS \"");
        assert("' AS \""@ =~= seq!['\''] + middle);
        assert("\""@ =~= seq!['"']);
        let nothing = Seq::<char>::empty();
        let after_a = middle + doubled(catalog_a, '"') + seq!['"'] + nothing;
        let after_b = middle + doubled(catalog_b, '"') + seq!['"'] + nothing;
        assert(attach_statement(connection_a, catalog_a).skip(head.len() as int) =~= doubled(
            connection_a,
            '\'',
        ) + seq!['\''] + after_a);
        assert(attach_statement(connection_b, catalog_b).skip(head.len() as int) =~= doubled(
            connection_b,
            '\'',
        ) + seq!['\''] + after_b);
        law_doubled_text_is_delimited(connection_a, connection_b, '\'', after_a, after_b);
        assert(after_a.skip(middle.len() as int) =~= doubled(catalog_a, '"') + seq!['"'] + nothing);
        assert(after_b.skip(middle.len() as int) =~= doubled(catalog_b, '"') + seq!['"'] + nothing);
        law_doubled_text_is_delimited(catalog_a, catalog_b, '"', nothing, nothing);
    }
}

/// The statement that makes a catalog the current one determines the catalog name.
pub proof fn law_use_statements_differ(catalog_a: Seq<char>, catalog_b: Seq<char>)
    ensures
        use_statement(catalog_a) == use_statement(catalog_b) <==> catalog_a == catalog_b,
{
    if use_statement(catalog_a) == use_statement(catalog_b) {
        reveal_strlit("\"");
        assert("\""@ =~= seq!['"']);
        let head = "USE \""@;
        let nothing = Seq::<char>::empty();
        assert(use_statement(catalog_a).skip(head.len() as int) =~= doubled(catalog_a, '"') + seq![
            '"',
        ] + nothing);
        assert(use_statement(catalog_b).skip(head.len() as int) =~= doubled(catalog_b, '"') + seq![
            '"',
        ] + nothing);
        law_doubled_text_is_delimited(catalog_a, catalog_b, '"', nothing, nothing);
    }
}

} // verus!
