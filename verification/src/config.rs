//! The configuration, read once at startup and handed to each operation.

use crate::password::{hashing_cost, setting_view, spec_hashing_cost};
use crate::token::{get_secret, owned_setting_view};
use vstd::prelude::*;

verus! {

/// What the operations need from the deployment: the secret that signs
/// tokens, and the work factor of the hasher.
#[derive(Debug, Clone)]
pub struct Config {
    pub secret: String,
    pub hash_cost: u32,
}

impl Config {
    /// Builds the configuration from the two settings as the environment
    /// holds them, each `None` where it is unset. The secret is mandatory:
    /// without it there is no configuration. A work factor that is unset or
    /// is not a number falls back to the default.
    pub fn from_settings(secret: Option<String>, hash_rounds: Option<&str>) -> (config: Option<
        Config,
    >)
        ensures
            match owned_setting_view(secret) {
                Some(text) => config matches Some(c) && c.secret@ == text && c.hash_cost
                    == spec_hashing_cost(setting_view(hash_rounds)),
                None => config is None,
            },
    {
        match get_secret(secret) {
            Some(secret) => Some(Config { secret, hash_cost: hashing_cost(hash_rounds) }),
            None => None,
        }
    }
}

} // verus!
