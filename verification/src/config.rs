//! What an operator configures: the catalog to talk to, the two storage
//! backends, and the age from which a demo is moved.

use crate::path::{
    ends_in_separator, generate_path, shardable, sharded_path, trim_separators, trimmed,
};
use vstd::prelude::*;
use vstd::string::*;

verus! {

/// The whole configuration of a run.
#[derive(Debug, PartialEq, Eq)]
pub struct Config {
    pub api: ApiConfig,
    pub source: StorageConfig,
    pub target: StorageConfig,
    pub migrate: MigrateConfig,
}

/// The catalog: its base URL, and the file that holds the key for it.
#[derive(Debug, PartialEq, Eq)]
pub struct ApiConfig {
    pub url: String,
    pub key_file: String,
}

/// How old, in seconds, a demo has to be before it is moved.
#[derive(Debug, Clone, Copy, PartialEq, Eq)]
pub struct MigrateConfig {
    pub age: u64,
}

/// One storage backend as configured: its directory and the name the catalog
/// knows it by.
#[derive(Debug, PartialEq, Eq)]
pub struct StorageConfig {
    pub root: String,
    pub backend: String,
}

/// Why a configuration could not be had.
#[derive(Debug, PartialEq, Eq)]
pub enum ConfigError {
    /// The file at `path` could not be read.
    Read { error: String, path: String },
    /// The file at `path` was read and is no configuration.
    Parse { error: String, path: String },
}

/// A [`ConfigError`] with its texts as sequences of characters.
pub enum ConfigErrorView {
    Read { error: Seq<char>, path: Seq<char> },
    Parse { error: Seq<char>, path: Seq<char> },
}

impl ConfigErrorView {
    /// The error in words.
    pub open spec fn message(self) -> Seq<char> {
        match self {
            ConfigErrorView::Read { error, path } => "Failed to read config from "@ + path + ": "@
                + error,
            ConfigErrorView::Parse { error, path } => "Failed to parse config from "@ + path
                + ": "@ + error,
        }
    }
}

impl View for ConfigError {
    type V = ConfigErrorView;

    open spec fn view(&self) -> ConfigErrorView {
        match self {
            ConfigError::Read { error, path } => ConfigErrorView::Read {
                error: error@,
                path: path@,
            },
            ConfigError::Parse { error, path } => ConfigErrorView::Parse {
                error: error@,
                path: path@,
            },
        }
    }
}

impl Clone for ConfigError {
    /// The same error once more.
    fn clone(&self) -> (error: ConfigError)
        ensures
            error@ == self@,
    {
        match self {
            ConfigError::Read { error, path } => ConfigError::Read {
                error: error.clone(),
                path: path.clone(),
            },
            ConfigError::Parse { error, path } => ConfigError::Parse {
                error: error.clone(),
                path: path.clone(),
            },
        }
    }
}

impl Clone for ApiConfig {
    /// The same settings once more.
    fn clone(&self) -> (config: ApiConfig)
        ensures
            config.url@ == self.url@,
            config.key_file@ == self.key_file@,
    {
        ApiConfig { url: self.url.clone(), key_file: self.key_file.clone() }
    }
}

impl Clone for StorageConfig {
    /// The same settings once more.
    fn clone(&self) -> (config: StorageConfig)
        ensures
            config.root@ == self.root@,
            config.backend@ == self.backend@,
    {
        StorageConfig { root: self.root.clone(), backend: self.backend.clone() }
    }
}

impl Clone for Config {
    /// The same settings once more.
    fn clone(&self) -> (config: Config)
        ensures
            config.api.url@ == self.api.url@,
            config.api.key_file@ == self.api.key_file@,
            config.source.root@ == self.source.root@,
            config.source.backend@ == self.source.backend@,
            config.target.root@ == self.target.root@,
            config.target.backend@ == self.target.backend@,
            config.migrate == self.migrate,
    {
        Config {
            api: self.api.clone(),
            source: self.source.clone(),
            target: self.target.clone(),
            migrate: self.migrate,
        }
    }
}

impl ConfigError {
    /// The error in words, as it is shown to the operator.
    pub fn message(&self) -> (text: String)
        ensures
            text@ == self@.message(),
    {
        match self {
            ConfigError::Read { error, path } => {
                let mut text = String::from_str("Failed to read config from ");
                text.append(path.as_str());
                text.append(": ");
                text.append(error.as_str());
                text
            },
            ConfigError::Parse { error, path } => {
                let mut text = String::from_str("Failed to parse config from ");
                text.append(path.as_str());
                text.append(": ");
                text.append(error.as_str());
                text
            },
        }
    }
}

/// A storage backend as a run uses it: a base directory that does not end in
/// a separator, and the name the catalog knows the backend by.
#[derive(Debug, PartialEq, Eq)]
pub struct StorageRoot {
    dir: String,
    backend: String,
}

impl StorageRoot {
    /// The base directory does not end in a separator.
    #[verifier::type_invariant]
    spec fn well_formed(&self) -> bool {
        !ends_in_separator(self.dir@)
    }

    /// The base directory.
    pub closed spec fn dir_view(&self) -> Seq<char> {
        self.dir@
    }

    /// The name of the backend.
    pub closed spec fn backend_view(&self) -> Seq<char> {
        self.backend@
    }

    /// The root that `config` describes: its directory without the
    /// separators at its end, under its backend name.
    pub fn new(config: &StorageConfig) -> (root: StorageRoot)
        ensures
            root.dir_view() == trimmed(config.root@),
            root.backend_view() == config.backend@,
    {
        StorageRoot {
            dir: String::from_str(trim_separators(config.root.as_str())),
            backend: config.backend.clone(),
        }
    }

    /// The base directory. It does not end in a separator.
    pub fn dir(&self) -> (dir: &str)
        ensures
            dir@ == self.dir_view(),
            !ends_in_separator(dir@),
    {
        proof {
            use_type_invariant(self);
        }
        self.dir.as_str()
    }

    /// The name of the backend.
    pub fn backend(&self) -> (backend: &str)
        ensures
            backend@ == self.backend_view(),
    {
        self.backend.as_str()
    }

    /// Where the demo named `name` lives under this root.
    pub fn path_of(&self, name: &str) -> (path: String)
        requires
            shardable(name@),
        ensures
            path@ == sharded_path(self.dir_view(), name@),
    {
        generate_path(self.dir.as_str(), name)
    }
}

} // verus!
