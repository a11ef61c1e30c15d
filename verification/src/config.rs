//! The configuration that the endpoint starts with.
//!
//! It is read once, before the first request, and handed to the pipeline as a
//! value. Without either of its parts the endpoint must not start.

use vstd::prelude::*;
use vstd::string::*;
use crate::signature::{key_from_hex, KeyError, PublicKey};

verus! {

/// Why the endpoint cannot start.
#[derive(Clone, Copy, Debug, PartialEq, Eq, Structural)]
pub enum ConfigurationError {
    /// No dispatch target is configured.
    MissingDispatchTarget,
    /// No public key is configured.
    MissingPublicKey,
    /// The configured public key was refused.
    InvalidPublicKey(KeyError),
}

/// The endpoint's configuration.
pub struct Config {
    /// The key that requests are verified against.
    pub public_key: PublicKey,
    /// The workflow that accepted interactions are handed to.
    pub dispatch_target: String,
}

/// What loading gives, from the configured key's bytes and the target's text.
/// A missing target is reported before anything is said of the key.
pub open spec fn loaded(public_key: Option<Seq<u8>>, dispatch_target: Option<Seq<char>>) -> Result<
    (Seq<u8>, Seq<char>),
    ConfigurationError,
> {
    match (dispatch_target, public_key) {
        (None, _) => Err(ConfigurationError::MissingDispatchTarget),
        (Some(_), None) => Err(ConfigurationError::MissingPublicKey),
        (Some(target), Some(text)) => match key_from_hex(text) {
            Ok(bytes) => Ok((bytes, target)),
            Err(e) => Err(ConfigurationError::InvalidPublicKey(e)),
        },
    }
}

impl Config {
    /// Builds the configuration from the values that the environment gave:
    /// the public key as hexadecimal text, and the dispatch target.
    pub fn load(public_key: Option<&str>, dispatch_target: Option<&str>) -> (r: Result<
        Config,
        ConfigurationError,
    >)
        ensures
            match r {
                Ok(config) => loaded(
                    crate::signature::header_bytes(public_key),
                    match dispatch_target {
                        Some(target) => Some(target@),
                        None => None,
                    },
                ) == Ok::<(Seq<u8>, Seq<char>), ConfigurationError>(
                    (config.public_key@, config.dispatch_target@),
                ),
                Err(e) => loaded(
                    crate::signature::header_bytes(public_key),
                    match dispatch_target {
                        Some(target) => Some(target@),
                        None => None,
                    },
                ) == Err::<(Seq<u8>, Seq<char>), ConfigurationError>(e),
            },
    {
        let target: &str = match dispatch_target {
            Some(target) => target,
            None => {
                return Err(ConfigurationError::MissingDispatchTarget);
            },
        };
        let text: &str = match public_key {
            Some(text) => text,
            None => {
                return Err(ConfigurationError::MissingPublicKey);
            },
        };
        match PublicKey::from_hex(text) {
            Ok(key) => Ok(Config { public_key: key, dispatch_target: String::from_str(target) }),
            Err(e) => Err(ConfigurationError::InvalidPublicKey(e)),
        }
    }
}

} // verus!
