//! Loading configuration text, with the I/O error kept as the cause.
use vstd::prelude::*;
use vstd::string::*;

use crate::config_content::ErrorSource;

verus! {

/// Errors of loading a configuration.
#[derive(Debug)]
pub enum ConfigError {
    FileError(std::io::Error),
}

impl ConfigError {
    /// The error that caused this one: the I/O error of the read.
    pub fn source(&self) -> (r: Option<ErrorSource<'_>>)
        ensures
            match self {
                ConfigError::FileError(e) => r == Some(ErrorSource::Io(e)),
            },
    {
        match self {
            ConfigError::FileError(e) => Some(ErrorSource::Io(e)),
        }
    }

    /// The message that the error shows its user: a fixed lead, then the
    /// I/O error's own message.
    pub fn to_string(&self) -> (r: String)
        ensures
            match self {
                ConfigError::FileError(e) => exists|t: String|
                    to_string_from_display_ensures::<std::io::Error>(e, t) && r@
                        == "failed to read configuration file: "@ + t@,
            },
    {
        match self {
            ConfigError::FileError(e) => {
                let d = e.to_string();
                let mut r = String::from_str("failed to read configuration file: ");
                r.append(d.as_str());
                r
            },
        }
    }
}

/// The outcome of loading a configuration whose read gave `read`: the text,
/// or the read's error inside a [`ConfigError::FileError`].
pub fn load_config_from(read: Result<String, std::io::Error>) -> (r: Result<String, ConfigError>)
    ensures
        match read {
            Ok(contents) => r == Ok::<String, ConfigError>(contents),
            Err(err) => r == Err::<String, ConfigError>(ConfigError::FileError(err)),
        },
{
    match read {
        Ok(contents) => Ok(contents),
        Err(err) => Err(ConfigError::FileError(err)),
    }
}

} // verus!
