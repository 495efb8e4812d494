//! The routing admin API of one App, bound to its namespace in the state
//! store.

use vstd::prelude::*;
use super::model::Config;
use super::validate::config_error;

verus! {

/// A namespaced, mutable key-value store for App state that must survive
/// restarts (SQLite-backed in the host).
pub trait StateStore {
    /// The value of `(namespace, key)`, or `None` when absent.
    fn get(&self, namespace: &str, key: &str) -> Result<Option<String>, String>;
    /// Inserts or overwrites the value of `(namespace, key)`.
    fn set(&self, namespace: &str, key: &str, value: &str) -> Result<(), String>;
    /// Removes `(namespace, key)` if present.
    fn delete(&self, namespace: &str, key: &str) -> Result<(), String>;
}

/// The routing admin API for one App, bound to its store namespace (the App's
/// name).
#[derive(Debug, Clone)]
pub struct RoutingApi<S> {
    store: S,
    namespace: &'static str,
}

impl<S: StateStore> RoutingApi<S> {
    /// Binds the API to `store` under `namespace`.
    pub fn new(store: S, namespace: &'static str) -> (api: Self)
        ensures
            api.namespace() == namespace,
            api.store() == store,
    {
        RoutingApi { store, namespace }
    }

    /// The namespace the API reads and writes.
    pub closed spec fn namespace(&self) -> &'static str {
        self.namespace
    }

    /// The store the API is bound to.
    pub closed spec fn store(&self) -> S {
        self.store
    }
}

/// An error of the routing admin API.
#[derive(Debug, Clone)]
pub enum RoutingError {
    /// The submitted config failed validation.
    Invalid(String),
    /// Persisting the config failed.
    Store(String),
    /// A Lark API call (such as listing chats) failed.
    Bot(String),
}

impl RoutingError {
    /// The HTTP status the error is answered with: `400`, `500` or `502`.
    pub fn status_code(&self) -> (code: u16)
        ensures
            code == match *self {
                RoutingError::Invalid(_) => 400u16,
                RoutingError::Store(_) => 500u16,
                RoutingError::Bot(_) => 502u16,
            },
    {
        match self {
            RoutingError::Invalid(_) => 400,
            RoutingError::Store(_) => 500,
            RoutingError::Bot(_) => 502,
        }
    }
}

/// Checks a submitted config before it replaces the stored one: a config
/// that fails validation is refused with the validation message.
pub fn check_replacement(config: &Config) -> (r: Result<(), RoutingError>)
    ensures
        match config_error(config@, None) {
            None => r is Ok,
            Some(m) => r is Err && (r->Err_0 matches RoutingError::Invalid(msg) && msg@ == m),
        },
{
    match config.validate() {
        Ok(()) => Ok(()),
        Err(m) => Err(RoutingError::Invalid(m)),
    }
}

} // verus!
