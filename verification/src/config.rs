//! The settings the process is started with.
//!
//! Three settings come from the environment: where the object store is
//! found, which bucket holds the packs, and the homeserver that clients are
//! referred to.  All three are needed; the process is not to start without
//! one of them.  Reading the environment is the caller's part: what it found
//! is handed in, and what is missing is told here.

use vstd::prelude::*;
use vstd::string::*;

verus! {

/// A setting that the environment has to provide.
#[derive(Clone, Copy, Debug, PartialEq, Eq, Structural)]
pub enum Variable {
    /// The endpoint of the object store.
    StoreServer,
    /// The bucket that holds the packs.
    StoreBucket,
    /// The homeserver URL that is handed to clients.
    Homeserver,
}

/// The settings of a process.
#[derive(Clone, Debug, PartialEq, Eq)]
pub struct Settings {
    pub store_server: String,
    pub store_bucket: String,
    pub homeserver: String,
}

/// What a [`Settings`] holds.
pub struct SettingsView {
    pub store_server: Seq<char>,
    pub store_bucket: Seq<char>,
    pub homeserver: Seq<char>,
}

impl View for Settings {
    type V = SettingsView;

    open spec fn view(&self) -> SettingsView {
        SettingsView {
            store_server: self.store_server@,
            store_bucket: self.store_bucket@,
            homeserver: self.homeserver@,
        }
    }
}

/// A setting is missing from the environment.
#[derive(Clone, Copy, Debug, PartialEq, Eq, Structural)]
pub struct ConfigMissing {
    /// The first setting that was looked for and not found.
    pub variable: Variable,
}

/// The name of the environment variable of a setting.
pub open spec fn name_of(variable: Variable) -> Seq<char> {
    match variable {
        Variable::StoreServer => "PACKS_S3_SERVER"@,
        Variable::StoreBucket => "PACKS_S3_BUCKET"@,
        Variable::Homeserver => "HOMESERVER"@,
    }
}

/// The settings that the found values make, or the first one that is
/// missing: the store's server is looked for first, then the bucket, then
/// the homeserver.
pub open spec fn settings_of(
    store_server: Option<Seq<char>>,
    store_bucket: Option<Seq<char>>,
    homeserver: Option<Seq<char>>,
) -> Result<SettingsView, ConfigMissing> {
    if store_server is None {
        Err(ConfigMissing { variable: Variable::StoreServer })
    } else if store_bucket is None {
        Err(ConfigMissing { variable: Variable::StoreBucket })
    } else if homeserver is None {
        Err(ConfigMissing { variable: Variable::Homeserver })
    } else {
        Ok(
            SettingsView {
                store_server: store_server->0,
                store_bucket: store_bucket->0,
                homeserver: homeserver->0,
            },
        )
    }
}

/// The view of a value that may be missing.
pub open spec fn found(value: Option<String>) -> Option<Seq<char>> {
    match value {
        Some(text) => Some(text@),
        None => None,
    }
}

/// The view of settings that may have failed.
pub open spec fn loaded(result: Result<Settings, ConfigMissing>) -> Result<
    SettingsView,
    ConfigMissing,
> {
    match result {
        Ok(settings) => Ok(settings@),
        Err(missing) => Err(missing),
    }
}

impl Variable {
    /// The name of the environment variable.
    pub fn name(&self) -> (name: String)
        ensures
            name@ == name_of(*self),
    {
        match self {
            Variable::StoreServer => String::from_str("PACKS_S3_SERVER"),
            Variable::StoreBucket => String::from_str("PACKS_S3_BUCKET"),
            Variable::Homeserver => String::from_str("HOMESERVER"),
        }
    }
}

impl ConfigMissing {
    /// What to tell the operator: the variable's name and that it must be
    /// set.
    pub fn message(&self) -> (message: String)
        ensures
            message@ == name_of(self.variable) + " must be set"@,
    {
        let mut message = self.variable.name();
        message.append(" must be set");
        message
    }
}

impl Settings {
    /// Makes the settings of what was found in the environment.
    pub fn load(
        store_server: Option<String>,
        store_bucket: Option<String>,
        homeserver: Option<String>,
    ) -> (result: Result<Settings, ConfigMissing>)
        ensures
            loaded(result) == settings_of(
                found(store_server),
                found(store_bucket),
                found(homeserver),
            ),
    {
        let store_server = match store_server {
            Some(value) => value,
            None => {
                return Err(ConfigMissing { variable: Variable::StoreServer });
            },
        };
        let store_bucket = match store_bucket {
            Some(value) => value,
            None => {
                return Err(ConfigMissing { variable: Variable::StoreBucket });
            },
        };
        let homeserver = match homeserver {
            Some(value) => value,
            None => {
                return Err(ConfigMissing { variable: Variable::Homeserver });
            },
        };
        Ok(Settings { store_server, store_bucket, homeserver })
    }
}

} // verus!
