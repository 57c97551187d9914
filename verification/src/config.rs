//! The configuration view that provider resolution works on.
//!
//! The external store keeps, per logical service name, the name of a service
//! provider, and per provider name, the path of its module. `Config` holds
//! those two tables as plain entries; opening a service looks the logical
//! name up in the first table and the provider name up in the second, in that
//! order, and both must succeed for the open to proceed.

use vstd::prelude::*;

use crate::errors::WFS_ERR_INVALID_SERVPROV;
use crate::seq_find::{find_first, lemma_find_first_at, lemma_find_first_none};

verus! {

/// One entry of a configuration table: a name and its value.
pub struct ConfigEntry {
    pub name: String,
    pub value: String,
}

/// The predicate "this entry carries the given name".
pub open spec fn name_matches(name: Seq<char>) -> spec_fn(ConfigEntry) -> bool {
    |e: ConfigEntry| e.name@ == name
}

/// The value of the first entry carrying `name`, if any.
pub open spec fn spec_lookup(entries: Seq<ConfigEntry>, name: Seq<char>) -> Option<Seq<char>> {
    let i = find_first(entries, name_matches(name));
    if i == -1 {
        None
    } else {
        Some(entries[i].value@)
    }
}

/// The mathematical model of the configuration: its two tables.
pub ghost struct ConfigModel {
    pub logical_services: Seq<ConfigEntry>,
    pub service_providers: Seq<ConfigEntry>,
}

/// What resolving a logical name gives: the provider's module path when the
/// logical-service lookup and then the provider lookup both succeed, and
/// `WFS_ERR_INVALID_SERVPROV` when either misses.
pub open spec fn spec_resolve(m: ConfigModel, logical_name: Seq<char>) -> Result<Seq<char>, i32> {
    match spec_lookup(m.logical_services, logical_name) {
        None => Err(WFS_ERR_INVALID_SERVPROV),
        Some(provider) => match spec_lookup(m.service_providers, provider) {
            None => Err(WFS_ERR_INVALID_SERVPROV),
            Some(dllname) => Ok(dllname),
        },
    }
}

/// The configuration tables.
pub struct Config {
    logical_services: Vec<ConfigEntry>,
    service_providers: Vec<ConfigEntry>,
}

impl View for Config {
    type V = ConfigModel;

    closed spec fn view(&self) -> ConfigModel {
        ConfigModel {
            logical_services: self.logical_services@,
            service_providers: self.service_providers@,
        }
    }
}

/// Looks a name up in one table: the value of the first entry carrying it.
fn lookup(entries: &Vec<ConfigEntry>, name: &String) -> (r: Option<String>)
    ensures
        match spec_lookup(entries@, name@) {
            None => r is None,
            Some(v) => r is Some && r->Some_0@ == v,
        },
{
    let n = entries.len();
    let mut i: usize = 0;
    while i < n
        invariant
            i <= n,
            n == entries@.len(),
            forall|j: int| 0 <= j < i ==> (#[trigger] entries@[j]).name@ != name@,
        decreases n - i,
    {
        if entries[i].name == *name {
            proof {
                lemma_find_first_at(entries@, name_matches(name@), i as int);
            }
            return Some(entries[i].value.clone());
        }
        i = i + 1;
    }
    proof {
        lemma_find_first_none(entries@, name_matches(name@));
    }
    None
}

impl Config {
    /// An empty configuration: both tables empty.
    pub fn new() -> (r: Config)
        ensures
            r@.logical_services.len() == 0,
            r@.service_providers.len() == 0,
    {
        Config { logical_services: Vec::new(), service_providers: Vec::new() }
    }

    /// Adds a logical-service entry: `name` is served by provider `provider`.
    pub fn add_logical_service(&mut self, name: String, provider: String)
        ensures
            final(self)@.logical_services == old(self)@.logical_services.push(
                ConfigEntry { name, value: provider },
            ),
            final(self)@.service_providers == old(self)@.service_providers,
    {
        self.logical_services.push(ConfigEntry { name, value: provider });
    }

    /// Adds a provider entry: provider `name` lives in the module `dllname`.
    pub fn add_service_provider(&mut self, name: String, dllname: String)
        ensures
            final(self)@.service_providers == old(self)@.service_providers.push(
                ConfigEntry { name, value: dllname },
            ),
            final(self)@.logical_services == old(self)@.logical_services,
    {
        self.service_providers.push(ConfigEntry { name, value: dllname });
    }

    /// The provider name registered for a logical service name, if any.
    pub fn lookup_provider(&self, logical_name: &String) -> (r: Option<String>)
        ensures
            match spec_lookup(self@.logical_services, logical_name@) {
                None => r is None,
                Some(v) => r is Some && r->Some_0@ == v,
            },
    {
        lookup(&self.logical_services, logical_name)
    }

    /// The module path registered for a provider name, if any.
    pub fn lookup_dllname(&self, provider: &String) -> (r: Option<String>)
        ensures
            match spec_lookup(self@.service_providers, provider@) {
                None => r is None,
                Some(v) => r is Some && r->Some_0@ == v,
            },
    {
        lookup(&self.service_providers, provider)
    }

    /// Resolves a logical service name to the module path of its provider:
    /// the logical-service lookup and then the provider lookup, both of which
    /// must succeed; either miss fails with `WFS_ERR_INVALID_SERVPROV`.
    pub fn resolve_provider_path(&self, logical_name: &String) -> (r: Result<String, i32>)
        ensures
            match spec_resolve(self@, logical_name@) {
                Ok(dllname) => r is Ok && r->Ok_0@ == dllname,
                Err(code) => r == Err::<String, i32>(code),
            },
    {
        let provider = match self.lookup_provider(logical_name) {
            Some(provider) => provider,
            None => {
                return Err(WFS_ERR_INVALID_SERVPROV);
            },
        };
        match self.lookup_dllname(&provider) {
            Some(dllname) => Ok(dllname),
            None => Err(WFS_ERR_INVALID_SERVPROV),
        }
    }
}

} // verus!
