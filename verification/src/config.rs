//! The decision behind private-key lookup.
//!
//! Reading the process environment and loading `.env` files is I/O and
//! belongs to the calling application; it hands the looked-up value of the
//! `PRIVATE_KEY` variable to [`get_private_key`], which decides whether that
//! value is usable and which error to report otherwise.

use vstd::prelude::*;
use vstd::string::StringExecFns;

verus! {

/// Why a private key could not be obtained.
#[derive(Debug, Clone, Copy, PartialEq, Eq, Structural)]
pub enum ConfigError {
    /// The `PRIVATE_KEY` variable is not set.
    MissingKey,
    /// The `PRIVATE_KEY` variable is set but empty.
    EmptyKey,
}

pub open spec fn config_error_message(e: ConfigError) -> Seq<char> {
    match e {
        ConfigError::MissingKey => "Переменная окружения PRIVATE_KEY не найдена"@,
        ConfigError::EmptyKey => "Переменная окружения PRIVATE_KEY пуста"@,
    }
}

impl ConfigError {
    /// The user-visible message for this error.
    pub fn message(&self) -> (r: String)
        ensures
            r@ == config_error_message(*self),
    {
        match self {
            ConfigError::MissingKey => String::from_str(
                "Переменная окружения PRIVATE_KEY не найдена",
            ),
            ConfigError::EmptyKey => String::from_str("Переменная окружения PRIVATE_KEY пуста"),
        }
    }
}

/// Accepts the looked-up value of the `PRIVATE_KEY` environment variable:
/// a present, non-empty value is the key; an absent or empty one is an
/// error naming which of the two it was.
pub fn get_private_key(value: Option<String>) -> (r: Result<String, ConfigError>)
    ensures
        match value {
            None => r == Err::<String, ConfigError>(ConfigError::MissingKey),
            Some(k) => if k@.len() == 0 {
                r == Err::<String, ConfigError>(ConfigError::EmptyKey)
            } else {
                r == Ok::<String, ConfigError>(k)
            },
        },
{
    match value {
        None => Err(ConfigError::MissingKey),
        Some(k) => {
            if k.as_str().unicode_len() == 0 {
                Err(ConfigError::EmptyKey)
            } else {
                Ok(k)
            }
        },
    }
}

} // verus!
