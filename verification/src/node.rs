//! Bringing one node up, and acting on commit and reset requests.
use crate::config::persist::PersistError;
use crate::config::{Config, ConfigError};
use crate::store::{Pending, Store};
use vstd::prelude::*;

pub use crate::config::NodeSettings;

verus! {

/// What a node comes up with.
pub open spec fn comes_up_with(defaults: Config, stored: Result<Config, PersistError>) -> Result<
    Config,
    ConfigError,
> {
    match defaults.fault() {
        Some(error) => Err(error),
        None => match stored {
            Ok(config) => Ok(config),
            Err(_) => Ok(defaults),
        },
    }
}

/// The configuration a node runs with: the stored one wins over the factory defaults. Broken factory
/// defaults are a build mistake, and the node refuses to come up on them.
pub fn boot_config(defaults: &Config, stored: Result<Config, PersistError>) -> (r: Result<
    Config,
    ConfigError,
>)
    ensures
        r is Ok <==> defaults.is_sane(),
        r matches Err(error) ==> defaults.fault() == Some(error),
        r matches Ok(config) ==> config == match stored {
            Ok(config) => config,
            Err(_) => *defaults,
        },
        r == comes_up_with(*defaults, stored),
{
    proof {
        defaults.a_config_without_fault_is_sane();
    }
    match defaults.sanity_check() {
        Err(error) => Err(error),
        Ok(()) => match stored {
            Ok(config) => Ok(config),
            Err(_) => Ok(*defaults),
        },
    }
}

/// What the persistence task has to do.
#[derive(Clone, Copy)]
pub struct PersistenceWork {
    pub save: bool,
    pub restore: bool,
    /// What is to be committed.
    pub config: Config,
}

/// Whether some work is what a store asks of the persistence task, and what taking it leaves.
pub open spec fn work_taken(before: Store, work: PersistenceWork, after: Store) -> bool {
    &&& work.save == before.pending.save
    &&& work.restore == before.pending.restore
    &&& work.config == before.config
    &&& after == (Store {
        pending: Pending { save: false, restore: false, ..before.pending },
        ..before
    })
}

/// Takes the commit and reset requests, and the configuration to be committed.
pub fn take_persistence_work(store: &mut Store) -> (r: PersistenceWork)
    ensures
        r.save == old(store).pending.save,
        r.restore == old(store).pending.restore,
        r.config == old(store).config,
        *final(store) == (Store {
            pending: Pending { save: false, restore: false, ..old(store).pending },
            ..*old(store)
        }),
        work_taken(*old(store), r, *final(store)),
{
    let (save, restore) = store.pending.take_persistence();
    PersistenceWork { save, restore, config: store.config }
}

/// A stored configuration wins over the factory defaults, and without one the defaults are used; but a
/// node whose factory defaults have a fault does not come up at all, and says which.
pub proof fn a_stored_config_wins(defaults: Config, stored: Config, error: PersistError)
    ensures
        defaults.fault() is None ==> comes_up_with(defaults, Ok(stored)) == Ok::<
            Config,
            ConfigError,
        >(stored) && comes_up_with(defaults, Err(error)) == Ok::<Config, ConfigError>(defaults),
        defaults.fault() matches Some(fault) ==> comes_up_with(defaults, Ok(stored)) == Err::<
            Config,
            ConfigError,
        >(fault) && comes_up_with(defaults, Err(error)) == Err::<Config, ConfigError>(fault),
{
}

/// A request to commit or to reset is acted on once, with the configuration of the moment that it is
/// taken, and what waits for the control task is left to it.
pub proof fn a_commit_is_taken_once(
    first: Store,
    work: PersistenceWork,
    second: Store,
    next: PersistenceWork,
    third: Store,
)
    requires
        work_taken(first, work, second),
        work_taken(second, next, third),
    ensures
        first.pending.save <==> work.save,
        first.pending.restore <==> work.restore,
        work.config == first.config,
        !next.save && !next.restore,
        third.pending.valves == first.pending.valves && third.pending.outputs
            == first.pending.outputs && third.pending.config == first.pending.config,
        third.config == first.config,
{
}

} // verus!
