//! The decision core of configuration loading: of the entries found in the
//! configuration directory, exactly the ones that parsed into a
//! `Configuration` are kept, in directory order. Unreadable entries,
//! subdirectories and files that failed to read or parse are skipped without
//! aborting the load of the rest.

use vstd::prelude::*;

use crate::config::Configuration;

verus! {

/// What examining one configuration-directory entry came to, as the
/// unverified edge reports it.
pub enum ConfigEntry {
    /// The directory entry itself could not be read.
    Unreadable,
    /// The entry is a subdirectory, which the loader ignores.
    Directory,
    /// The entry is a file that could not be read or did not parse.
    Invalid,
    /// The entry parsed into a configuration.
    Loaded(Configuration),
}

/// The configurations among a sequence of entry outcomes, in order.
pub open spec fn spec_loaded_configs(entries: Seq<ConfigEntry>) -> Seq<Configuration>
    decreases entries.len(),
{
    if entries.len() == 0 {
        Seq::empty()
    } else {
        let rest = spec_loaded_configs(entries.drop_last());
        match entries.last() {
            ConfigEntry::Loaded(c) => rest.push(c),
            _ => rest,
        }
    }
}

/// Keep exactly the entries that parsed, in order; every skipped entry is
/// skipped alone and never aborts the rest of the load.
pub fn collect_configs(entries: Vec<ConfigEntry>) -> (r: Vec<Configuration>)
    ensures
        r@ == spec_loaded_configs(entries@),
{
    let ghost all = entries@;
    let mut rest = entries;
    let mut configs: Vec<Configuration> = Vec::new();
    let ghost mut done: int = 0;
    while rest.len() > 0
        invariant
            0 <= done <= all.len(),
            rest@ == all.skip(done),
            configs@ == spec_loaded_configs(all.take(done)),
        decreases rest@.len(),
    {
        let entry = rest.remove(0);
        proof {
            assert(entry == all[done]);
            assert(rest@ =~= all.skip(done + 1));
            assert(all.take(done + 1).drop_last() =~= all.take(done));
            assert(all.take(done + 1).last() == all[done]);
        }
        match entry {
            ConfigEntry::Loaded(c) => {
                configs.push(c);
            },
            _ => {},
        }
        proof {
            done = done + 1;
        }
    }
    proof {
        assert(all.take(done) =~= all);
    }
    configs
}

} // verus!
