//! What the accelerator tells of itself, and how its maps, secrets and errors behave.

use crate::accelerator::{DuckLakeAccelerator, FactoryConfig};
use crate::error::Error;
use crate::parameters::{parameter_list, parameter_views, ParameterScope, ParameterSpec};
use crate::params::{entries_map, is_entry, Params};
use crate::secret::Secret;
use vstd::prelude::*;

verus! {

/// The factory opens databases for reading and writing, in the dialect of DuckDB, with the four settings
/// in their order, and without the functions that DuckDB does not know.
pub open spec fn works_for_ducklake(config: FactoryConfig) -> bool {
    &&& config.access_mode is ReadWrite
    &&& config.dialect is DuckDb
    &&& config.settings@.len() == 4
    &&& config.settings@[0] is OrderByNonIntegerLiteral
    &&& config.settings@[1] is IndexScanPercentage
    &&& config.settings@[2] is IndexScanMaxCount
    &&& config.settings@[3] is TimeZone
    &&& config.function_support is DenySpiceSpecific
}

/// Every accelerator has a factory that works for DuckLakes, however it is made.
pub proof fn law_factory_of_an_accelerator(made: DuckLakeAccelerator, default: DuckLakeAccelerator)
    requires
        call_ensures(DuckLakeAccelerator::new, (), made),
        call_ensures(<DuckLakeAccelerator as Default>::default, (), default),
    ensures
        works_for_ducklake(made.duckdb_factory),
        works_for_ducklake(default.duckdb_factory),
{
}

/// The accelerator is called `ducklake`, and so is the prefix of its parameters. Its files end in `db`,
/// `ddb` or `duckdb`.
pub proof fn law_names_and_extensions(
    accelerator: &DuckLakeAccelerator,
    name: &'static str,
    prefix: &'static str,
    extensions: Vec<&'static str>,
)
    requires
        call_ensures(DuckLakeAccelerator::name, (accelerator,), name),
        call_ensures(DuckLakeAccelerator::prefix, (accelerator,), prefix),
        call_ensures(DuckLakeAccelerator::valid_file_extensions, (accelerator,), extensions),
    ensures
        name@ == "ducklake"@,
        prefix@ == name@,
        extensions@.len() == 3,
        extensions@[0]@ == "db"@,
        extensions@[1]@ == "ddb"@,
        extensions@[2]@ == "duckdb"@,
{
    let texts = extensions@.map_values(|extension: &str| extension@);
    assert(texts.len() == extensions@.len());
    assert(texts[0] == extensions@[0]@);
    assert(texts[1] == extensions@[1]@);
    assert(texts[2] == extensions@[2]@);
}

/// `parameter` is the parameter `name`, without a description.
pub open spec fn is_bare_parameter(parameter: ParameterSpec, name: Seq<char>) -> bool {
    parameter.name@ == name && parameter.scope is Runtime && parameter.description is None
        && !parameter.secret
}

/// `parameter` is the parameter `name` with this description.
pub open spec fn is_described(
    parameter: ParameterSpec,
    name: Seq<char>,
    scope: ParameterScope,
    secret: bool,
    description: Seq<char>,
) -> bool {
    parameter.name@ == name && parameter.scope == scope && parameter.secret == secret && (
    parameter.description matches Some(text) && text@ == description)
}

/// The accelerator takes ten parameters: six of its own, of which the password is secret, and four of the
/// runtime.
pub proof fn law_parameters(accelerator: &DuckLakeAccelerator, res: Vec<ParameterSpec>)
    requires
        call_ensures(DuckLakeAccelerator::parameters, (accelerator,), res),
    ensures
        res@.len() == 10,
        is_bare_parameter(res@[0], "file_watcher"@),
        is_described(
            res@[1],
            "open"@,
            ParameterScope::Component,
            false,
            "Optional path to an existing DuckDB file used to host local DuckLake metadata/checkpoint state."@,
        ),
        is_described(
            res@[2],
            "connection_string"@,
            ParameterScope::Component,
            false,
            "DuckLake metadata connection string (for example, s3://bucket/path/metadata.ducklake)."@,
        ),
        is_described(
            res@[3],
            "catalog_name"@,
            ParameterScope::Component,
            false,
            "The attached DuckLake catalog name in DuckDB. Defaults to 'ducklake'."@,
        ),
        is_described(
            res@[4],
            "endpoint"@,
            ParameterScope::Component,
            false,
            "Optional hosted DuckLake Flight endpoint (for example, appexperiment-shared-ducklake-1-v2.summation.com:443 or grpc+tls://...)."@,
        ),
        is_described(
            res@[5],
            "username"@,
            ParameterScope::Component,
            false,
            "Username for hosted DuckLake endpoint authentication."@,
        ),
        is_described(
            res@[6],
            "password"@,
            ParameterScope::Component,
            true,
            "Password for hosted DuckLake endpoint authentication."@,
        ),
        is_described(
            res@[7],
            "connection_pool_size"@,
            ParameterScope::Runtime,
            false,
            "The maximum number of client connections created in the ducklake connection pool."@,
        ),
        is_bare_parameter(res@[8], "on_refresh_recompute_statistics"@),
        is_bare_parameter(res@[9], "optimizer_duckdb_aggregate_pushdown"@),
{
    let views = parameter_views(res@);
    assert(views == parameter_list());
    assert(views.len() == 10);
    assert(views[0] == res@[0]@);
    assert(views[1] == res@[1]@);
    assert(views[2] == res@[2]@);
    assert(views[3] == res@[3]@);
    assert(views[4] == res@[4]@);
    assert(views[5] == res@[5]@);
    assert(views[6] == res@[6]@);
    assert(views[7] == res@[7]@);
    assert(views[8] == res@[8]@);
    assert(views[9] == res@[9]@);
}

/// A parameter of the runtime and one of the accelerator differ in their scope alone. A description and
/// secrecy are added without touching anything else.
pub proof fn law_parameters_are_built_up(
    name: &'static str,
    description: &'static str,
    runtime: ParameterSpec,
    component: ParameterSpec,
    given: ParameterSpec,
    described: ParameterSpec,
    hidden: ParameterSpec,
)
    requires
        call_ensures(ParameterSpec::runtime, (name,), runtime),
        call_ensures(ParameterSpec::component, (name,), component),
        call_ensures(ParameterSpec::description, (given, description), described),
        call_ensures(ParameterSpec::secret, (given,), hidden),
    ensures
        is_bare_parameter(runtime, name@),
        component.name@ == name@ && component.scope is Component && component.description is None
            && !component.secret,
        is_described(described, given.name@, given.scope, given.secret, description@),
        hidden.secret && hidden.name@ == given.name@ && hidden.scope == given.scope,
        match (given.description, hidden.description) {
            (Some(a), Some(b)) => a@ == b@,
            (None, None) => true,
            _ => false,
        },
{
}

/// Each error says what went wrong, in words of its own and with the detail that it carries behind them.
pub proof fn law_error_messages(error: &Error, res: String)
    requires
        call_ensures(Error::message, (error,), res),
    ensures
        error matches Error::AccelerationCreationFailed { source } ==> res@
            == "Acceleration creation failed: "@ + source@,
        error matches Error::AccelerationInitializationFailed { source } ==> res@
            == "Acceleration initialization failed: "@ + source@,
        error matches Error::AccelerationNotEnabled { dataset } ==> res@
            == "Acceleration not enabled for dataset: "@ + dataset@,
        error matches Error::InvalidConfiguration { detail } ==> res@
            == "Invalid DuckLake acceleration configuration: "@ + detail@,
        error is MissingConnectionConfiguration ==> res@
            == "Missing required DuckLake acceleration parameters. Specify either ducklake_connection_string, or ducklake_endpoint + ducklake_username + ducklake_password"@,
        error is MissingEndpointUsername ==> res@
            == "Missing required DuckLake acceleration parameter: ducklake_username"@,
        error is MissingEndpointPassword ==> res@
            == "Missing required DuckLake acceleration parameter: ducklake_password"@,
        error matches Error::UnableToCreateFlightClient { source } ==> res@
            == "Unable to create DuckLake endpoint Flight client: "@ + source@,
        error matches Error::UnableToExecuteRemoteSql { source } ==> res@
            == "Unable to execute DuckLake endpoint SQL: "@ + source@,
        error matches Error::RemoteSqlStream { source } ==> res@
            == "DuckLake endpoint SQL stream failed: "@ + source@,
        error matches Error::UnableToCreateRemoteTableProvider { source } ==> res@
            == "Unable to create DuckLake endpoint table provider: "@ + source@,
{
}

/// A secret gives back the text that was put into it.
pub proof fn law_secret_gives_back_its_text(text: &str, secret: Secret, exposed: &str)
    requires
        call_ensures(Secret::new, (text,), secret),
        call_ensures(Secret::expose, (&secret,), exposed),
    ensures
        exposed@ == text@,
{
}

/// An empty map has nothing under any name. What is put under a name is found there, what is taken out
/// is gone, and nothing else changes either time.
pub proof fn law_maps_keep_what_is_put_into_them(
    empty: Params,
    put: &mut Params,
    name: String,
    value: String,
    taken: &mut Params,
    key: &str,
    found: Option<String>,
    other: Seq<char>,
)
    requires
        call_ensures(Params::new, (), empty),
        call_ensures(Params::insert, (put, name, value), ()),
        call_ensures(Params::remove, (taken, key), found),
    ensures
        !empty@.contains_key(other),
        final(put)@.contains_key(name@) && final(put)@[name@] == value@,
        other != name@ ==> (final(put)@.contains_key(other) <==> old(put)@.contains_key(other)) && (
        old(put)@.contains_key(other) ==> final(put)@[other] == old(put)@[other]),
        !final(taken)@.contains_key(key@),
        found is Some <==> old(taken)@.contains_key(key@),
        found matches Some(text) ==> text@ == old(taken)@[key@],
        other != key@ ==> (final(taken)@.contains_key(other) <==> old(taken)@.contains_key(other)) && (
        old(taken)@.contains_key(other) ==> final(taken)@[other] == old(taken)@[other]),
{
}

/// What is found under a name is what the entry of that name holds: there is one for each name that has a
/// value, and no other.
pub proof fn law_maps_are_their_entries(
    params: &Params,
    name: &str,
    found: Option<&str>,
    contained: bool,
    entries: &Vec<(String, String)>,
)
    requires
        call_ensures(Params::get, (params, name), found),
        call_ensures(Params::contains_key, (params, name), contained),
        call_ensures(Params::entries, (params,), entries),
    ensures
        contained <==> found is Some,
        found is Some <==> exists|i: int|
            0 <= i < entries@.len() && (#[trigger] entries@[i]).0@ == name@,
        forall|i: int|
            0 <= i < entries@.len() && (#[trigger] entries@[i]).0@ == name@ ==> found is Some
                && found->0@ == entries@[i].1@,
        forall|i: int, j: int|
            0 <= i < j < entries@.len() ==> (#[trigger] entries@[i]).0@ != (
            #[trigger] entries@[j]).0@,
{
    let list = entries@;
    if found is Some {
        assert(entries_map(list).contains_key(name@));
        let i = choose|i: int| is_entry(list, name@, i);
        assert(is_entry(list, name@, i));
        assert(list[i].0@ == name@);
    }
    assert forall|i: int| 0 <= i < list.len() && (#[trigger] list[i]).0@ == name@ implies found is Some
        && found->0@ == list[i].1@ by {
        assert(is_entry(list, name@, i));
        let j = choose|j: int| is_entry(list, name@, j);
        assert(is_entry(list, name@, j));
        if i < j {
            assert(list[i].0@ != list[j].0@);
        } else if j < i {
            assert(list[j].0@ != list[i].0@);
        }
    }
}

} // verus!
