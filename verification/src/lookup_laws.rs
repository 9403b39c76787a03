//! Which parameter or option is read for what, said of the values that stand under their names.

use crate::accelerator::DuckLakeAccelerator;
use crate::error::{Error, FilePathError};
use crate::laws::law_found_value_is_the_first;
use crate::lookup::{
    catalog_name_keys, connection_string_keys, endpoint_keys, first_value, key_texts,
    non_empty_value, open_keys, open_path, password_keys, username_keys, EndpointConfig,
};
use crate::params::Params;
use crate::secret::secret_text;
use crate::source::{AccelerationSource, Engine};
use crate::text::trimmed;
use vstd::prelude::*;

verus! {

/// There is something else than white space under `name`.
pub open spec fn filled(values: Map<Seq<char>, Seq<char>>, name: Seq<char>) -> bool {
    values.contains_key(name) && trimmed(values[name]).len() > 0
}

/// The value that is read is the trimmed one under the first name that is filled; nothing is read
/// exactly where none is.
pub proof fn law_first_filled_name_is_read(params: &Params, keys: &[&str], res: Option<String>)
    requires
        call_ensures(DuckLakeAccelerator::non_empty_param, (params, keys), res),
    ensures
        match res {
            Some(value) => exists|i: int|
                {
                    &&& 0 <= i < keys@.len()
                    &&& filled(params@, (#[trigger] keys@[i])@)
                    &&& value@ == trimmed(params@[keys@[i]@])
                    &&& forall|j: int| 0 <= j < i ==> !filled(params@, (#[trigger] keys@[j])@)
                },
            None => forall|i: int|
                0 <= i < keys@.len() ==> !filled(params@, (#[trigger] keys@[i])@),
        },
{
    let texts = key_texts(keys@);
    law_found_value_is_the_first(params@, texts);
    match res {
        Some(value) => {
            let i = choose|i: int|
                {
                    &&& 0 <= i < texts.len()
                    &&& non_empty_value(params@, #[trigger] texts[i]) == Some(value@)
                    &&& forall|j: int|
                        0 <= j < i ==> non_empty_value(params@, #[trigger] texts[j]) is None
                };
            assert(texts[i] == keys@[i]@);
            assert forall|j: int| 0 <= j < i implies !filled(params@, (#[trigger] keys@[j])@) by {
                assert(texts[j] == keys@[j]@);
            }
        },
        None => {
            assert forall|i: int| 0 <= i < keys@.len() implies !filled(
                params@,
                (#[trigger] keys@[i])@,
            ) by {
                assert(texts[i] == keys@[i]@);
            }
        },
    }
}

pub(crate) proof fn lemma_two_names(
    values: Map<Seq<char>, Seq<char>>,
    first: Seq<char>,
    second: Seq<char>,
)
    ensures
        first_value(values, seq![first, second]) == (if filled(values, first) {
            Some(trimmed(values[first]))
        } else if filled(values, second) {
            Some(trimmed(values[second]))
        } else {
            None
        }),
{
    let keys = seq![first, second];
    reveal_with_fuel(first_value, 3);
    assert(keys.drop_first() =~= seq![second]);
    assert(keys.drop_first().drop_first() =~= Seq::<Seq<char>>::empty());
}

pub(crate) proof fn lemma_three_names(
    values: Map<Seq<char>, Seq<char>>,
    first: Seq<char>,
    second: Seq<char>,
    third: Seq<char>,
)
    ensures
        first_value(values, seq![first, second, third]) == (if filled(values, first) {
            Some(trimmed(values[first]))
        } else if filled(values, second) {
            Some(trimmed(values[second]))
        } else if filled(values, third) {
            Some(trimmed(values[third]))
        } else {
            None
        }),
{
    let keys = seq![first, second, third];
    assert(keys.drop_first() =~= seq![second, third]);
    lemma_two_names(values, second, third);
}

/// `value` is what `values` hold under `first`, or else under `second`, without the white space around
/// it; it is `None` where both are missing or blank.
pub open spec fn is_value_of_two(
    value: Option<Seq<char>>,
    values: Map<Seq<char>, Seq<char>>,
    first: Seq<char>,
    second: Seq<char>,
) -> bool {
    &&& filled(values, first) ==> value == Some(trimmed(values[first]))
    &&& !filled(values, first) && filled(values, second) ==> value == Some(trimmed(values[second]))
    &&& !filled(values, first) && !filled(values, second) ==> value is None
}

/// `path` is what `open` or else `ducklake_open` says, or else `accelerated_ducklake.db` in the data
/// directory.
pub open spec fn is_database_file(
    path: Seq<char>,
    params: Map<Seq<char>, Seq<char>>,
    data_base_path: Seq<char>,
) -> bool {
    &&& filled(params, "open"@) ==> path == trimmed(params["open"@])
    &&& !filled(params, "open"@) && filled(params, "ducklake_open"@) ==> path == trimmed(
        params["ducklake_open"@],
    )
    &&& !filled(params, "open"@) && !filled(params, "ducklake_open"@) ==> path == data_base_path
        + "/accelerated_ducklake.db"@
}

pub(crate) proof fn lemma_open_path(source: AccelerationSource, data_base_path: Seq<char>)
    requires
        source.acceleration is Some,
    ensures
        forall|path: Seq<char>| #[trigger]
            is_database_file(path, source.acceleration->0.params@, data_base_path) <==> path
                == open_path(source, data_base_path),
{
    lemma_two_names(source.acceleration->0.params@, "open"@, "ducklake_open"@);
    assert(open_keys() =~= seq!["open"@, "ducklake_open"@]);
}

/// The database file of a source is the one that `open` or else `ducklake_open` names, or else
/// `accelerated_ducklake.db` in the data directory. A source that is not accelerated into a file has
/// none, whatever its parameters are.
pub proof fn law_database_file(
    accelerator: &DuckLakeAccelerator,
    source: &AccelerationSource,
    data_base_path: &str,
    res: Result<String, Error>,
)
    requires
        call_ensures(
            DuckLakeAccelerator::ducklake_open_path,
            (accelerator, source, data_base_path),
            res,
        ),
        source.wf(),
    ensures
        !source.file_accelerated ==> (res matches Err(Error::InvalidConfiguration { detail })
            && detail@ == "Dataset is not file accelerated"@),
        source.file_accelerated ==> (res matches Ok(path) && is_database_file(
            path@,
            source.acceleration->0.params@,
            data_base_path@,
        )),
{
    if source.file_accelerated {
        lemma_open_path(*source, data_base_path@);
    }
}

/// The file that the runtime is told of is the database file; where there is none, it is told why, and
/// by which engine.
pub proof fn law_file_path_is_the_database_file(
    accelerator: &DuckLakeAccelerator,
    source: &AccelerationSource,
    data_base_path: &str,
    opened: Result<String, Error>,
    told: Result<String, FilePathError>,
)
    requires
        call_ensures(
            DuckLakeAccelerator::ducklake_open_path,
            (accelerator, source, data_base_path),
            opened,
        ),
        call_ensures(DuckLakeAccelerator::file_path, (accelerator, source, data_base_path), told),
        source.wf(),
    ensures
        match (opened, told) {
            (Ok(a), Ok(b)) => a@ == b@,
            (Err(a), Err(FilePathError::External { engine, source: b })) => engine
                == Engine::DuckLake && a@ == b@,
            _ => false,
        },
        told is Ok <==> source.file_accelerated,
{
}

/// The connection string of a source stands under `connection_string`, or else under
/// `ducklake_connection_string`.
pub proof fn law_connection_string(source: &AccelerationSource, res: Option<String>)
    requires
        call_ensures(DuckLakeAccelerator::ducklake_connection_string, (source,), res),
    ensures
        source.acceleration is None ==> res is None,
        source.acceleration matches Some(acceleration) ==> is_value_of_two(
            match res {
                Some(text) => Some(text@),
                None => None,
            },
            acceleration.params@,
            "connection_string"@,
            "ducklake_connection_string"@,
        ),
{
    if let Some(acceleration) = source.acceleration {
        lemma_two_names(
            acceleration.params@,
            "connection_string"@,
            "ducklake_connection_string"@,
        );
        assert(connection_string_keys() =~= seq![
            "connection_string"@,
            "ducklake_connection_string"@,
        ]);
    }
}

/// The endpoint of a source stands under `endpoint`, or else under `ducklake_endpoint`.
pub proof fn law_source_endpoint(source: &AccelerationSource, res: Option<String>)
    requires
        call_ensures(DuckLakeAccelerator::ducklake_endpoint, (source,), res),
    ensures
        source.acceleration is None ==> res is None,
        source.acceleration matches Some(acceleration) ==> is_value_of_two(
            match res {
                Some(text) => Some(text@),
                None => None,
            },
            acceleration.params@,
            "endpoint"@,
            "ducklake_endpoint"@,
        ),
{
    if let Some(acceleration) = source.acceleration {
        lemma_two_names(acceleration.params@, "endpoint"@, "ducklake_endpoint"@);
        assert(endpoint_keys() =~= seq!["endpoint"@, "ducklake_endpoint"@]);
    }
}

/// The catalog of a source has the name under `catalog_name`, or else the one under
/// `ducklake_catalog_name`, or else the name `ducklake`.
pub proof fn law_catalog_name(source: &AccelerationSource, res: String)
    requires
        call_ensures(DuckLakeAccelerator::ducklake_catalog_name, (source,), res),
    ensures
        source.acceleration is None ==> res@ == "ducklake"@,
        source.acceleration matches Some(acceleration) ==> ({
            let params = acceleration.params@;
            ||| filled(params, "catalog_name"@) && res@ == trimmed(params["catalog_name"@])
            ||| !filled(params, "catalog_name"@) && filled(params, "ducklake_catalog_name"@) && res@
                == trimmed(params["ducklake_catalog_name"@])
            ||| !filled(params, "catalog_name"@) && !filled(params, "ducklake_catalog_name"@) && res@
                == "ducklake"@
        }),
{
    if let Some(acceleration) = source.acceleration {
        lemma_two_names(acceleration.params@, "catalog_name"@, "ducklake_catalog_name"@);
        assert(catalog_name_keys() =~= seq!["catalog_name"@, "ducklake_catalog_name"@]);
    }
}

/// `value` is what `values` hold under the first of three names that is filled.
pub open spec fn is_value_of_three(
    value: Seq<char>,
    values: Map<Seq<char>, Seq<char>>,
    first: Seq<char>,
    second: Seq<char>,
    third: Seq<char>,
) -> bool {
    &&& filled(values, first) ==> value == trimmed(values[first])
    &&& !filled(values, first) && filled(values, second) ==> value == trimmed(values[second])
    &&& !filled(values, first) && !filled(values, second) ==> filled(values, third) && value
        == trimmed(values[third])
}

pub(crate) proof fn lemma_endpoint_names(options: Map<Seq<char>, Seq<char>>)
    ensures
        is_value_of_two(
            first_value(options, endpoint_keys()),
            options,
            "endpoint"@,
            "ducklake_endpoint"@,
        ),
        first_value(options, username_keys()) is Some <==> filled(options, "username"@) || filled(
            options,
            "user"@,
        ) || filled(options, "ducklake_username"@),
        first_value(options, username_keys()) matches Some(username) ==> is_value_of_three(
            username,
            options,
            "username"@,
            "user"@,
            "ducklake_username"@,
        ),
        first_value(options, password_keys()) is Some <==> filled(options, "password"@) || filled(
            options,
            "pass"@,
        ) || filled(options, "ducklake_password"@),
        first_value(options, password_keys()) matches Some(password) ==> is_value_of_three(
            password,
            options,
            "password"@,
            "pass"@,
            "ducklake_password"@,
        ),
{
    lemma_two_names(options, "endpoint"@, "ducklake_endpoint"@);
    lemma_three_names(options, "username"@, "user"@, "ducklake_username"@);
    lemma_three_names(options, "password"@, "pass"@, "ducklake_password"@);
    assert(endpoint_keys() =~= seq!["endpoint"@, "ducklake_endpoint"@]);
    assert(username_keys() =~= seq!["username"@, "user"@, "ducklake_username"@]);
    assert(password_keys() =~= seq!["password"@, "pass"@, "ducklake_password"@]);
}

/// Options that fill neither name of an endpoint name none. With an endpoint they owe a user name, and
/// with both a password: each is what its first filled name says, and the first that is missing is the
/// error.
pub proof fn law_endpoint_and_credentials(
    options: &Params,
    res: Result<Option<EndpointConfig>, Error>,
)
    requires
        call_ensures(DuckLakeAccelerator::endpoint_config_from_options, (options,), res),
    ensures
        ({
            let given = options@;
            let endpoint = filled(given, "endpoint"@) || filled(given, "ducklake_endpoint"@);
            let username = filled(given, "username"@) || filled(given, "user"@) || filled(
                given,
                "ducklake_username"@,
            );
            let password = filled(given, "password"@) || filled(given, "pass"@) || filled(
                given,
                "ducklake_password"@,
            );
            &&& !endpoint ==> (res matches Ok(None))
            &&& endpoint && !username ==> (res matches Err(Error::MissingEndpointUsername))
            &&& endpoint && username && !password ==> (res matches Err(
                Error::MissingEndpointPassword,
            ))
            &&& endpoint && username && password ==> (res matches Ok(Some(config)) && ({
                &&& is_value_of_two(
                    Some(config.endpoint@),
                    given,
                    "endpoint"@,
                    "ducklake_endpoint"@,
                )
                &&& is_value_of_three(
                    config.username@,
                    given,
                    "username"@,
                    "user"@,
                    "ducklake_username"@,
                )
                &&& is_value_of_three(
                    secret_text(config.password),
                    given,
                    "password"@,
                    "pass"@,
                    "ducklake_password"@,
                )
            }))
        }),
{
    lemma_endpoint_names(options@);
}

/// A source is in order exactly where acceleration into a file comes with acceleration settings.
pub proof fn law_sources_in_order(source: AccelerationSource)
    ensures
        source.wf() <==> !source.file_accelerated || source.acceleration is Some,
{
}

} // verus!
