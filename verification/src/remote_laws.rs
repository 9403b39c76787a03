//! How a table at a hosted endpoint comes about, said of what the endpoint is asked and what it answers.

use crate::accelerator::{DuckLakeAccelerator, SqlDialect};
use crate::error::Error;
use crate::lookup::{EndpointConfig, EndpointConfigView};
use crate::remote::{
    flight_endpoint, remote_table, RemoteSqlEvent, RemoteSqlStep, RemoteTablePlan, RemoteTableStep,
};
use crate::schema::{field_views, Field, TableReference};
use crate::secret::secret_text;
use crate::sql_laws::{creates_table, lemma_statement_creates};
use crate::text::{contains_text, stands_at};
use vstd::prelude::*;

verus! {

/// `text` begins with `head`.
pub open spec fn begins_with(text: Seq<char>, head: Seq<char>) -> bool {
    head.len() <= text.len() && text.take(head.len() as int) == head
}

/// `full` is `given` with a protocol: the one of the four that it begins with, or else gRPC over TLS in
/// front of it.
pub open spec fn has_protocol_of(full: Seq<char>, given: Seq<char>) -> bool {
    if begins_with(given, "grpc+tls://"@) || begins_with(given, "grpc://"@) || begins_with(
        given,
        "https://"@,
    ) || begins_with(given, "http://"@) {
        full == given
    } else {
        full.len() == given.len() + 11 && full.take(11) == "grpc+tls://"@ && full.skip(11) == given
    }
}

proof fn lemma_protocol(given: Seq<char>)
    ensures
        has_protocol_of(flight_endpoint(given), given),
{
    reveal_strlit("grpc+tls://");
    assert("grpc+tls://"@.len() == 11);
    assert(begins_with(given, "grpc+tls://"@) <==> "grpc+tls://"@.is_prefix_of(given));
    assert(begins_with(given, "grpc://"@) <==> "grpc://"@.is_prefix_of(given));
    assert(begins_with(given, "https://"@) <==> "https://"@.is_prefix_of(given));
    assert(begins_with(given, "http://"@) <==> "http://"@.is_prefix_of(given));
    let full = "grpc+tls://"@ + given;
    assert(full.take(11) =~= "grpc+tls://"@);
    assert(full.skip(11) =~= given);
}

/// An endpoint that begins with one of the four protocols comes out unchanged. Every other endpoint
/// comes out behind `grpc+tls://`, and is otherwise unchanged.
pub proof fn law_endpoint_protocol(endpoint: &str, res: String)
    requires
        call_ensures(DuckLakeAccelerator::normalize_flight_endpoint, (endpoint,), res),
    ensures
        has_protocol_of(res@, endpoint@),
{
    lemma_protocol(endpoint@);
}

/// Two references have the same names in the same places.
pub open spec fn same_reference(a: TableReference, b: TableReference) -> bool {
    match (a, b) {
        (TableReference::Bare { table }, TableReference::Bare { table: other_table }) => table@
            == other_table@,
        (
            TableReference::Partial { schema, table },
            TableReference::Partial { schema: other_schema, table: other_table },
        ) => schema@ == other_schema@ && table@ == other_table@,
        (
            TableReference::Full { catalog, schema, table },
            TableReference::Full {
                catalog: other_catalog,
                schema: other_schema,
                table: other_table,
            },
        ) => catalog@ == other_catalog@ && schema@ == other_schema@ && table@ == other_table@,
        _ => false,
    }
}

/// `plan` reaches the table `name` at `endpoint` with the given credentials, creates it with its columns,
/// and has it read and written under the same name and with the same columns, in the dialect of DuckDB.
pub open spec fn reaches_table(
    plan: RemoteTablePlan,
    name: TableReference,
    fields: Seq<Field>,
    endpoint: Seq<char>,
    username: Seq<char>,
    password: Seq<char>,
) -> bool {
    &&& has_protocol_of(plan.endpoint@, endpoint)
    &&& plan.username@ == username
    &&& secret_text(plan.password) == password
    &&& creates_table(plan.create_table_sql@, name, fields)
    &&& plan.provider_name@ == "ducklake"@
    &&& same_reference(plan.table, name)
    &&& plan.fields@.len() == fields.len()
    &&& forall|i: int|
        0 <= i < fields.len() ==> (#[trigger] plan.fields@[i]).name@ == fields[i].name@
            && plan.fields@[i].data_type == fields[i].data_type && plan.fields@[i].nullable
            == fields[i].nullable
    &&& plan.dialect == SqlDialect::DuckDb
}

pub(crate) proof fn lemma_reaches_table(
    plan: RemoteTablePlan,
    name: TableReference,
    fields: Seq<Field>,
    config: EndpointConfigView,
)
    requires
        plan@ == remote_table(name@, field_views(fields), config),
    ensures
        reaches_table(plan, name, fields, config.endpoint, config.username, config.password),
{
    lemma_protocol(config.endpoint);
    lemma_statement_creates(name, fields);
    let given = field_views(fields);
    let planned = field_views(plan.fields@);
    assert(given == planned);
    assert(given.len() == fields.len());
    assert(planned.len() == plan.fields@.len());
    assert forall|i: int| 0 <= i < fields.len() implies (#[trigger] plan.fields@[i]).name@
        == fields[i].name@ && plan.fields@[i].data_type == fields[i].data_type
        && plan.fields@[i].nullable == fields[i].nullable by {
        assert(planned[i] == plan.fields@[i]@);
        assert(given[i] == fields[i]@);
    }
}

/// A table at an endpoint is reached, created, read and written there as it is given.
pub proof fn law_remote_table_plan(
    name: TableReference,
    fields: Vec<Field>,
    config: EndpointConfig,
    plan: RemoteTablePlan,
)
    requires
        call_ensures(
            DuckLakeAccelerator::create_remote_table_provider,
            (name, fields, config),
            plan,
        ),
    ensures
        reaches_table(
            plan,
            name,
            fields@,
            config.endpoint@,
            config.username@,
            secret_text(config.password),
        ),
{
    lemma_reaches_table(plan, name, fields@, config@);
}

/// A client that connected is used as it is; one that did not is an error with the text of the failure.
pub proof fn law_connection_is_used_or_reported<C>(connected: Result<C, String>, res: Result<C, Error>)
    requires
        call_ensures(DuckLakeAccelerator::flight_client_created::<C>, (connected,), res),
    ensures
        match (connected, res) {
            (Ok(client), Ok(used)) => client == used,
            (Err(text), Err(Error::UnableToCreateFlightClient { source })) => text == source,
            _ => false,
        },
{
}

/// Reading goes on after a statement was taken and after each batch of results. It is over at the end of
/// the results, and at a failure: that of the statement or that of its results, with its text.
pub proof fn law_answers_and_steps(event: RemoteSqlEvent, step: RemoteSqlStep)
    requires
        call_ensures(DuckLakeAccelerator::execute_remote_sql, (event,), step),
    ensures
        step is ReadNext <==> event is QueryAccepted || event is Batch,
        (step matches RemoteSqlStep::Finished(Ok(_))) <==> event is StreamEnded,
        event matches RemoteSqlEvent::QueryFailed { source: text } ==> (step matches
            RemoteSqlStep::Finished(Err(Error::UnableToExecuteRemoteSql { source })) && source
            == text),
        event matches RemoteSqlEvent::BatchFailed { source: text } ==> (step matches
            RemoteSqlStep::Finished(Err(Error::RemoteSqlStream { source })) && source == text),
{
}

/// A table that was created is provided. So is one whose statement failed with a message that contains
/// `Unable to parse command`, after that message was logged. Any other failure is the end, as it is.
pub proof fn law_only_parse_failures_are_passed_over(
    created: Result<(), Error>,
    message: String,
    step: RemoteTableStep,
)
    requires
        call_ensures(DuckLakeAccelerator::remote_table_created, (created,), step),
        created matches Err(error) ==> call_ensures(Error::message, (&error,), message),
    ensures
        created is Ok ==> step is BuildProvider,
        created matches Err(error) ==> ({
            let passed_over = exists|before: Seq<char>, after: Seq<char>|
                message@ == #[trigger] (before + "Unable to parse command"@ + after);
            if passed_over {
                step matches RemoteTableStep::WarnAndBuildProvider { message: logged } && logged@
                    == message@
            } else {
                step == RemoteTableStep::Fail(error)
            }
        }),
{
    if created is Err {
        let sought = "Unable to parse command"@;
        let whole = message@;
        if contains_text(whole, sought) {
            let at = choose|at: int| #[trigger] stands_at(whole, sought, at);
            let before = whole.take(at);
            let after = whole.skip(at + sought.len());
            assert(whole.subrange(at, at + sought.len()) == sought);
            assert(whole =~= before + sought + after);
        }
        if exists|before: Seq<char>, after: Seq<char>| whole == #[trigger] (before + sought + after) {
            let (before, after) = choose|before: Seq<char>, after: Seq<char>|
                whole == #[trigger] (before + sought + after);
            let at = before.len() as int;
            assert(whole.subrange(at, at + sought.len()) =~= sought);
            assert(stands_at(whole, sought, at));
        }
    }
}

} // verus!
