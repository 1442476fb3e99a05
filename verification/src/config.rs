//! The connection parameters of a session.
//!
//! The three parameters are opaque to the observers. They are collected once
//! at startup into one value that is handed to whoever talks to the store.

use vstd::prelude::*;

verus! {

/// A required connection parameter.
#[derive(Clone, Copy, Debug, PartialEq, Eq, Structural)]
pub enum Setting {
    /// The store's connection string.
    Uri,
    /// The name of the database.
    Database,
    /// The name of the collection.
    Collection,
}

/// Where to find the observed collection.
#[derive(Clone, Debug, PartialEq, Eq)]
pub struct StoreConfig {
    pub uri: String,
    pub database: String,
    pub collection: String,
}

/// The first required parameter that is missing, in the order connection
/// string, database, collection.
pub open spec fn first_missing(
    uri: Option<String>,
    database: Option<String>,
    collection: Option<String>,
) -> Option<Setting> {
    if uri is None {
        Some(Setting::Uri)
    } else if database is None {
        Some(Setting::Database)
    } else if collection is None {
        Some(Setting::Collection)
    } else {
        None
    }
}

/// The configuration the three parameters give: all three together, or the
/// first that is missing.
pub open spec fn configured(
    uri: Option<String>,
    database: Option<String>,
    collection: Option<String>,
) -> Result<StoreConfig, Setting> {
    match first_missing(uri, database, collection) {
        Some(missing) => Err(missing),
        None => Ok(StoreConfig { uri: uri->0, database: database->0, collection: collection->0 }),
    }
}

impl StoreConfig {
    /// Builds the configuration from the three parameters as found. Where
    /// one is missing the result names the first that is.
    pub fn from_settings(
        uri: Option<String>,
        database: Option<String>,
        collection: Option<String>,
    ) -> (config: Result<StoreConfig, Setting>)
        ensures
            config == configured(uri, database, collection),
    {
        let uri = match uri {
            Some(value) => value,
            None => {
                return Err(Setting::Uri);
            },
        };
        let database = match database {
            Some(value) => value,
            None => {
                return Err(Setting::Database);
            },
        };
        let collection = match collection {
            Some(value) => value,
            None => {
                return Err(Setting::Collection);
            },
        };
        Ok(StoreConfig { uri, database, collection })
    }
}

} // verus!
