use vstd::prelude::*;

use crate::errors::FileSystemError;

verus! {

/// The database that a fresh configuration points at.
pub const DATABASE_URL: &'static str = "sqlite://forge.db";

/// The runner that a fresh configuration uses for scripts.
pub const DEFAULT_RUNNER: &'static str = "python3";

/// Forge's configuration.
#[derive(Debug)]
pub struct ForgeConfig {
    pub scripts: ScriptConfig,
    pub env: EnvConfig,
}

/// How scripts are run.
#[derive(Debug)]
pub struct ScriptConfig {
    pub runner: String,
    pub source: String,
}

/// The environment of the tools.
#[derive(Debug)]
pub struct EnvConfig {
    pub database_url: String,
}

impl EnvConfig {
    /// The default environment points at [`DATABASE_URL`].
    pub open spec fn is_default(&self) -> bool {
        self.database_url@ == DATABASE_URL@
    }
}

impl ScriptConfig {
    /// Scripts run with [`DEFAULT_RUNNER`] and have no source.
    pub open spec fn is_default(&self) -> bool {
        &&& self.runner@ == DEFAULT_RUNNER@
        &&& self.source@ == Seq::<char>::empty()
    }
}

impl ForgeConfig {
    pub open spec fn is_default(&self) -> bool {
        self.scripts.is_default() && self.env.is_default()
    }
}

impl Default for EnvConfig {
    fn default() -> (res: Self)
        ensures
            res.is_default(),
    {
        EnvConfig { database_url: String::from_str(DATABASE_URL) }
    }
}

impl Default for ScriptConfig {
    fn default() -> (res: Self)
        ensures
            res.is_default(),
    {
        ScriptConfig { runner: String::from_str(DEFAULT_RUNNER), source: String::new() }
    }
}

impl Default for ForgeConfig {
    fn default() -> (res: Self)
        ensures
            res.is_default(),
    {
        ForgeConfig { scripts: ScriptConfig::default(), env: EnvConfig::default() }
    }
}

impl ForgeConfig {
    /// A configuration with every field at its default.
    pub fn new() -> (res: Self)
        ensures
            res.is_default(),
    {
        Self::default()
    }

    /// Creating the configuration in place is not supported: the call always
    /// reports the error "not implemented". Where such a call would panic as
    /// unimplemented, this library, whose functions never panic, returns that
    /// error instead; it creates no file and leaves `self` as it is.
    pub fn create(&self) -> (res: Result<(), FileSystemError>)
        ensures
            res matches Err(FileSystemError::OperationError(m)) && m@ == "not implemented"@,
    {
        Err(FileSystemError::OperationError(String::from_str("not implemented")))
    }
}

} // verus!
