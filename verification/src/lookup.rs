//! Reading the parameters of an acceleration and the options of a table.

use crate::accelerator::DuckLakeAccelerator;
use crate::error::{outcome, viewed, Error, ErrorView, FilePathError};
use crate::params::Params;
use crate::secret::{secret_text, Secret};
use crate::source::{AccelerationSource, Engine};
use crate::text::{joined, trim, trimmed};
use vstd::prelude::*;

verus! {

/// The value under `key`, trimmed, unless that leaves nothing.
pub open spec fn non_empty_value(params: Map<Seq<char>, Seq<char>>, key: Seq<char>) -> Option<
    Seq<char>,
> {
    if params.contains_key(key) && trimmed(params[key]).len() > 0 {
        Some(trimmed(params[key]))
    } else {
        None
    }
}

/// The value under the first of the keys that has one.
pub open spec fn first_value(params: Map<Seq<char>, Seq<char>>, keys: Seq<Seq<char>>) -> Option<
    Seq<char>,
>
    decreases keys.len(),
{
    if keys.len() == 0 {
        None
    } else {
        match non_empty_value(params, keys[0]) {
            Some(value) => Some(value),
            None => first_value(params, keys.drop_first()),
        }
    }
}

/// The keys that a list of string slices holds.
pub open spec fn key_texts(keys: Seq<&str>) -> Seq<Seq<char>> {
    keys.map_values(|key: &str| key@)
}

/// The keys of the path of the local database file.
pub open spec fn open_keys() -> Seq<Seq<char>> {
    seq!["open"@, "ducklake_open"@]
}

/// The keys of the metadata connection string.
pub open spec fn connection_string_keys() -> Seq<Seq<char>> {
    seq!["connection_string"@, "ducklake_connection_string"@]
}

/// The keys of the hosted endpoint.
pub open spec fn endpoint_keys() -> Seq<Seq<char>> {
    seq!["endpoint"@, "ducklake_endpoint"@]
}

/// The keys of the name of the attached catalog.
pub open spec fn catalog_name_keys() -> Seq<Seq<char>> {
    seq!["catalog_name"@, "ducklake_catalog_name"@]
}

/// The keys of the user name at the hosted endpoint.
pub open spec fn username_keys() -> Seq<Seq<char>> {
    seq!["username"@, "user"@, "ducklake_username"@]
}

/// The keys of the password at the hosted endpoint.
pub open spec fn password_keys() -> Seq<Seq<char>> {
    seq!["password"@, "pass"@, "ducklake_password"@]
}

/// The value that the acceleration settings of a source give for a list of keys.
pub open spec fn source_value(source: AccelerationSource, keys: Seq<Seq<char>>) -> Option<
    Seq<char>,
> {
    match source.acceleration {
        Some(acceleration) => first_value(acceleration.params@, keys),
        None => None,
    }
}

/// The database file in the data directory.
pub open spec fn default_open_path(data_base_path: Seq<char>) -> Seq<char> {
    data_base_path + "/accelerated_ducklake.db"@
}

/// The database file of a source that is accelerated into a file.
pub open spec fn open_path(source: AccelerationSource, data_base_path: Seq<char>) -> Seq<char> {
    match source_value(source, open_keys()) {
        Some(path) => path,
        None => default_open_path(data_base_path),
    }
}

/// The database file of a source, or the reason why it has none.
pub open spec fn open_path_outcome(
    source: AccelerationSource,
    data_base_path: Seq<char>,
) -> Result<Seq<char>, ErrorView> {
    if source.file_accelerated {
        Ok(open_path(source, data_base_path))
    } else {
        Err(ErrorView::InvalidConfiguration { detail: "Dataset is not file accelerated"@ })
    }
}

/// The name of the catalog that a source attaches.
pub open spec fn catalog_name(source: AccelerationSource) -> Seq<char> {
    match source_value(source, catalog_name_keys()) {
        Some(name) => name,
        None => "ducklake"@,
    }
}

/// A hosted endpoint and the credentials for it.
#[derive(Debug)]
pub struct EndpointConfig {
    pub endpoint: String,
    pub username: String,
    pub password: Secret,
}

/// An [`EndpointConfig`] with its texts as character sequences.
pub struct EndpointConfigView {
    pub endpoint: Seq<char>,
    pub username: Seq<char>,
    pub password: Seq<char>,
}

impl View for EndpointConfig {
    type V = EndpointConfigView;

    open spec fn view(&self) -> EndpointConfigView {
        EndpointConfigView {
            endpoint: self.endpoint@,
            username: self.username@,
            password: secret_text(self.password),
        }
    }
}

/// The endpoint that options name, if they name one. Credentials are owed with an endpoint, and the
/// user name is looked for first.
pub open spec fn endpoint_config(options: Map<Seq<char>, Seq<char>>) -> Result<
    Option<EndpointConfigView>,
    ErrorView,
> {
    match first_value(options, endpoint_keys()) {
        None => Ok(None),
        Some(endpoint) => match first_value(options, username_keys()) {
            None => Err(ErrorView::MissingEndpointUsername),
            Some(username) => match first_value(options, password_keys()) {
                None => Err(ErrorView::MissingEndpointPassword),
                Some(password) => Ok(Some(EndpointConfigView { endpoint, username, password })),
            },
        },
    }
}

impl DuckLakeAccelerator {
    /// The value under the first of `keys` that has one that is not blank, trimmed.
    pub fn non_empty_param(params: &Params, keys: &[&str]) -> (res: Option<String>)
        ensures
            viewed(res) == first_value(params@, key_texts(keys@)),
    {
        let ghost texts = key_texts(keys@);
        assert(texts.skip(0) == texts);
        let mut i: usize = 0;
        while i < keys.len()
            invariant
                i <= keys@.len(),
                texts == key_texts(keys@),
                first_value(params@, texts) == first_value(params@, texts.skip(i as int)),
            decreases keys@.len() - i,
        {
            assert(texts.skip(i as int)[0] == keys@[i as int]@);
            assert(texts.skip(i as int).drop_first() == texts.skip(i + 1));
            if let Some(value) = params.get(keys[i]) {
                let value = trim(value);
                if !value.as_str().is_empty() {
                    return Some(value);
                }
            }
            i = i + 1;
        }
        None
    }

    /// The path of the local database file of `source`: what its parameters say, or else a file in
    /// the data directory.
    pub fn ducklake_open_path(&self, source: &AccelerationSource, data_base_path: &str) -> (res:
        Result<String, Error>)
        requires
            source.wf(),
        ensures
            outcome(res) == open_path_outcome(*source, data_base_path@),
    {
        if !source.file_accelerated {
            return Err(
                Error::InvalidConfiguration { detail: "Dataset is not file accelerated".to_string() },
            );
        }
        if let Some(acceleration) = &source.acceleration {
            let keys: [&str; 2] = ["open", "ducklake_open"];
            assert(key_texts(keys@) == open_keys());
            if let Some(path) = Self::non_empty_param(&acceleration.params, &keys) {
                return Ok(path);
            }
        }
        Ok(joined(data_base_path, "/accelerated_ducklake.db"))
    }

    /// The metadata connection string of `source`.
    pub fn ducklake_connection_string(source: &AccelerationSource) -> (res: Option<String>)
        ensures
            viewed(res) == source_value(*source, connection_string_keys()),
    {
        let keys: [&str; 2] = ["connection_string", "ducklake_connection_string"];
        assert(key_texts(keys@) == connection_string_keys());
        match &source.acceleration {
            Some(acceleration) => Self::non_empty_param(&acceleration.params, &keys),
            None => None,
        }
    }

    /// The hosted endpoint of `source`.
    pub fn ducklake_endpoint(source: &AccelerationSource) -> (res: Option<String>)
        ensures
            viewed(res) == source_value(*source, endpoint_keys()),
    {
        let keys: [&str; 2] = ["endpoint", "ducklake_endpoint"];
        assert(key_texts(keys@) == endpoint_keys());
        match &source.acceleration {
            Some(acceleration) => Self::non_empty_param(&acceleration.params, &keys),
            None => None,
        }
    }

    /// The name under which `source` attaches its catalog, `ducklake` where it gives none.
    pub fn ducklake_catalog_name(source: &AccelerationSource) -> (res: String)
        ensures
            res@ == catalog_name(*source),
    {
        let keys: [&str; 2] = ["catalog_name", "ducklake_catalog_name"];
        assert(key_texts(keys@) == catalog_name_keys());
        if let Some(acceleration) = &source.acceleration {
            if let Some(name) = Self::non_empty_param(&acceleration.params, &keys) {
                return name;
            }
        }
        "ducklake".to_string()
    }

    /// The hosted endpoint that `options` name, with its credentials.
    pub fn endpoint_config_from_options(options: &Params) -> (res: Result<
        Option<EndpointConfig>,
        Error,
    >)
        ensures
            match res {
                Ok(config) => endpoint_config(options@) == Ok::<_, ErrorView>(viewed(config)),
                Err(error) => endpoint_config(options@) == Err::<Option<EndpointConfigView>, _>(
                    error@,
                ),
            },
    {
        let endpoint_names: [&str; 2] = ["endpoint", "ducklake_endpoint"];
        assert(key_texts(endpoint_names@) == endpoint_keys());
        let username_names: [&str; 3] = ["username", "user", "ducklake_username"];
        assert(key_texts(username_names@) == username_keys());
        let password_names: [&str; 3] = ["password", "pass", "ducklake_password"];
        assert(key_texts(password_names@) == password_keys());
        let endpoint = match Self::non_empty_param(options, &endpoint_names) {
            Some(endpoint) => endpoint,
            None => {
                return Ok(None);
            },
        };
        let username = match Self::non_empty_param(options, &username_names) {
            Some(username) => username,
            None => {
                return Err(Error::MissingEndpointUsername);
            },
        };
        let password = match Self::non_empty_param(options, &password_names) {
            Some(password) => Secret::new(password.as_str()),
            None => {
                return Err(Error::MissingEndpointPassword);
            },
        };
        Ok(Some(EndpointConfig { endpoint, username, password }))
    }

    /// The path of the database file of `source`, as the runtime asks for it.
    pub fn file_path(&self, source: &AccelerationSource, data_base_path: &str) -> (res: Result<
        String,
        FilePathError,
    >)
        requires
            source.wf(),
        ensures
            match res {
                Ok(path) => open_path_outcome(*source, data_base_path@) == Ok::<_, ErrorView>(path@),
                Err(FilePathError::External { engine, source: cause }) => engine == Engine::DuckLake
                    && open_path_outcome(*source, data_base_path@) == Err::<Seq<char>, _>(cause@),
            },
    {
        match self.ducklake_open_path(source, data_base_path) {
            Ok(path) => Ok(path),
            Err(cause) => Err(
                FilePathError::External { engine: Engine::DuckLake, source: cause },
            ),
        }
    }
}

} // verus!
