//! Validated run parameters for one listing pass.

use vstd::prelude::*;

verus! {

/// Why a configuration could not be built.
#[derive(Clone, Copy, PartialEq, Eq, Structural, Debug)]
pub enum ConfigError {
    /// The required namespace argument is missing or empty.
    EmptyNamespace,
}

impl ConfigError {
    /// A plain-text description of the error, for the surrounding binary to print.
    pub fn message(&self) -> (r: String)
        ensures
            r@ == "the namespace argument must not be empty"@,
    {
        String::from_str("the namespace argument must not be empty")
    }
}

/// The mathematical image of a `Config`.
pub struct ConfigModel {
    pub show_all: bool,
    pub namespace: Seq<char>,
    pub query: Option<Seq<char>>,
}

/// Run parameters: the namespace to list, an optional substring query on
/// secret names, and whether secrets of every type are shown.
pub struct Config {
    pub show_all: bool,
    pub namespace: String,
    pub query: Option<String>,
}

impl View for Config {
    type V = ConfigModel;

    open spec fn view(&self) -> ConfigModel {
        ConfigModel {
            show_all: self.show_all,
            namespace: self.namespace@,
            query: self.query.deep_view(),
        }
    }
}

impl Config {
    /// Builds a validated configuration. The namespace is required and must
    /// be non-empty; the query is optional (absent means no name filter).
    pub fn new(namespace: String, query: Option<String>, show_all: bool) -> (r: Result<Config, ConfigError>)
        ensures
            r is Ok <==> namespace@.len() > 0,
            r matches Ok(c) ==> c@ == (ConfigModel {
                show_all,
                namespace: namespace@,
                query: query.deep_view(),
            }),
            r matches Err(e) ==> e == ConfigError::EmptyNamespace,
    {
        if namespace.as_str().is_empty() {
            Err(ConfigError::EmptyNamespace)
        } else {
            Ok(Config { show_all, namespace, query })
        }
    }
}

} // verus!
