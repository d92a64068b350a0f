use vstd::prelude::*;

verus! {

/// Why a command-line argument was rejected; each variant carries the argument.
#[derive(Debug, PartialEq, Eq)]
pub enum CliError {
    /// The argument is not an absolute URL.
    InvalidUrl(String),
    /// The argument is not of the form `key=value`.
    InvalidKeyValue(String),
}

impl CliError {
    /// The argument that was rejected.
    pub fn input(&self) -> (r: String)
        ensures
            r@ == match self {
                CliError::InvalidUrl(s) => s@,
                CliError::InvalidKeyValue(s) => s@,
            },
    {
        match self {
            CliError::InvalidUrl(s) => s.clone(),
            CliError::InvalidKeyValue(s) => s.clone(),
        }
    }
}

} // verus!
