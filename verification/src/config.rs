//! The database connection string: present or not, accepted by the driver or not.

use mysql::{Opts, UrlError};
use vstd::prelude::*;

verus! {

/// `mysql::Opts`, the driver's connection options. The proofs carry such a value
/// from the driver to the caller and see nothing inside it.
#[verifier::external_type_specification]
#[verifier::external_body]
pub struct ExOpts(Opts);

/// `mysql::UrlError`, the driver's reason for turning a connection string down.
/// The proofs see nothing inside it.
#[verifier::external_type_specification]
#[verifier::external_body]
pub struct ExUrlError(UrlError);

/// Whether `mysql::Opts::from_url` accepts this text as a connection string.
///
/// The driver parses the text as a URL, wants the scheme `mysql` and a host, and
/// checks every query parameter by itself. Which complaint it raises about a
/// text with several faults is left open; whether it raises one is not. The
/// parameters it knows are those of the driver as it was built.
pub uninterp spec fn url_accepted(url: Seq<char>) -> bool;

/// `mysql::Opts::from_url`: options come back exactly for the texts that the
/// driver accepts. Nothing is claimed about the options themselves.
pub assume_specification[ Opts::from_url ](url: &str) -> (parsed: Result<Opts, UrlError>)
    ensures
        parsed.is_ok() == url_accepted(url@),
;

/// Why the service cannot start with the configuration it was given.
#[derive(Debug, Clone, Copy, PartialEq, Eq, Structural)]
pub enum ConfigurationError {
    /// No connection string was supplied.
    MissingUrl,
    /// The driver does not accept the connection string.
    InvalidUrl,
}

/// Turns the driver's verdict on a connection string into the service's own:
/// options pass through untouched, every complaint becomes `InvalidUrl`.
pub fn checked_options(parsed: Result<Opts, UrlError>) -> (checked: Result<Opts, ConfigurationError>)
    ensures
        match parsed {
            Ok(opts) => checked == Ok::<Opts, ConfigurationError>(opts),
            Err(_) => checked == Err::<Opts, ConfigurationError>(ConfigurationError::InvalidUrl),
        },
{
    match parsed {
        Ok(opts) => Ok(opts),
        Err(_) => Err(ConfigurationError::InvalidUrl),
    }
}

/// The options for the connection pool, from the configured connection string.
///
/// A missing string is `MissingUrl`; a string that the driver turns down is
/// `InvalidUrl`; every other string yields options.
pub fn pool_options(database_url: Option<&str>) -> (options: Result<Opts, ConfigurationError>)
    ensures
        match database_url {
            None => options == Err::<Opts, ConfigurationError>(ConfigurationError::MissingUrl),
            Some(url) => if url_accepted(url@) {
                options.is_ok()
            } else {
                options == Err::<Opts, ConfigurationError>(ConfigurationError::InvalidUrl)
            },
        },
{
    match database_url {
        None => Err(ConfigurationError::MissingUrl),
        Some(url) => checked_options(Opts::from_url(url)),
    }
}

} // verus!
