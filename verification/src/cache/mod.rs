//! The read cache: keys, storage and freshness.
//!
//! A cached value is addressed by a partition, which names the connection, and a
//! key, which names the object. An entry is fresh up to its tier's age limit, may
//! be served stale for a grace period after that, and is gone then.

use vstd::prelude::*;

use crate::config::CacheSettings;
use crate::text::{copy_opt, opt_text, Text};

pub mod key;
pub mod orchestrator;
pub mod sqlite;
pub mod store;

use self::store::{CacheStore, MemoryStore};

verus! {

/// Where entries are kept.
#[derive(Debug)]
pub enum Backing {
    /// In memory, because caching is off.
    Memory,
    /// In memory, because there is no place on disk.
    NoPlace,
    /// In a file.
    File(String),
}

/// The file that settings name, else the default one.
pub open spec fn backing_file(settings: CacheSettings, default: Option<Text>) -> Option<Text> {
    match settings.path {
        Some(p) => Some(p@),
        None => default,
    }
}

/// Where to keep entries: in the configured or default file when caching is on,
/// in memory when it is off or there is no file.
pub fn choose_backing(settings: &CacheSettings, default: &Option<String>) -> (r: Backing)
    ensures
        !settings.enabled ==> r is Memory,
        settings.enabled ==> match backing_file(*settings, opt_text(*default)) {
            Some(p) => r is File && r->File_0@ == p,
            None => r is NoPlace,
        },
{
    if !settings.enabled {
        return Backing::Memory;
    }
    let path = match &settings.path {
        Some(p) => Some(p.clone()),
        None => copy_opt(default),
    };
    match path {
        Some(p) => Backing::File(p),
        None => Backing::NoPlace,
    }
}

/// Opens the store that needs no file.
pub fn open_store(settings: &CacheSettings) -> (r: MemoryStore)
    ensures
        r.wf(),
        r.entries() == Map::<(Text, Text), store::Stored>::empty(),
{
    MemoryStore::new()
}

/// The file of the cache is the one that is configured, else the default one.
pub proof fn the_configured_file_is_used(settings: CacheSettings, default: Option<Text>)
    ensures
        settings.path is Some ==> backing_file(settings, default) == Some(settings.path->0@),
        settings.path is None ==> backing_file(settings, default) == default,
{
}

} // verus!
