//! Reloading the configuration while the server runs (`dev`).

use vstd::prelude::*;
use crate::schema::config::TinyCmsConfig;

verus! {

/// What happened to the watched config file.
#[derive(Clone, Copy, Debug, PartialEq, Eq, Structural)]
pub enum FileChange {
    Created,
    Modified,
    Other,
}

/// Whether a change to the config file triggers a reload: it was created or modified.
pub fn triggers_reload(change: FileChange) -> (r: bool)
    ensures
        r == (change == FileChange::Created || change == FileChange::Modified),
{
    match change {
        FileChange::Created => true,
        FileChange::Modified => true,
        FileChange::Other => false,
    }
}

/// The configuration in force after a reload: the one loaded, or, when loading failed,
/// the one in force before.
pub open spec fn reloaded(current: TinyCmsConfig, loaded: Option<TinyCmsConfig>) -> TinyCmsConfig {
    match loaded {
        Some(c) => c,
        None => current,
    }
}

/// The configuration in force after a reload: the one loaded, or, when loading failed,
/// the one in force before; the flag says whether it changed.
pub fn after_reload(current: TinyCmsConfig, loaded: Option<TinyCmsConfig>) -> (r: (TinyCmsConfig, bool))
    ensures
        r.0 == reloaded(current, loaded),
        r.1 == loaded is Some,
{
    match loaded {
        Some(c) => (c, true),
        None => (current, false),
    }
}

/// The configuration in force after the reloads `loads` (each what loading the file
/// gave, `None` when it failed), in order, starting from `initial`.
pub open spec fn config_after(initial: TinyCmsConfig, loads: Seq<Option<TinyCmsConfig>>) -> TinyCmsConfig
    decreases loads.len(),
{
    if loads.len() == 0 {
        initial
    } else {
        reloaded(config_after(initial, loads.drop_last()), loads.last())
    }
}

/// Law: the configuration in force is the one the most recent successful reload loaded,
/// or the initial one when no reload succeeded; a failed reload leaves the previous
/// configuration in place.
pub proof fn law_last_good_config(initial: TinyCmsConfig, loads: Seq<Option<TinyCmsConfig>>)
    ensures
        (forall|j: int| 0 <= j < loads.len() ==> #[trigger] loads[j] is None) ==> config_after(initial, loads)
            == initial,
        forall|i: int|
            0 <= i < loads.len() && #[trigger] loads[i] is Some && (forall|j: int| i < j < loads.len() ==> loads[j] is None)
                ==> config_after(initial, loads) == loads[i]->0,
    decreases loads.len(),
{
    if loads.len() > 0 {
        let prev = loads.drop_last();
        law_last_good_config(initial, prev);
        assert forall|j: int| 0 <= j < prev.len() implies prev[j] == loads[j] by {}
        if (forall|j: int| 0 <= j < loads.len() ==> #[trigger] loads[j] is None) {
            assert(loads[loads.len() - 1] is None);
            assert forall|j: int| 0 <= j < prev.len() implies #[trigger] prev[j] is None by {
                assert(loads[j] is None);
            }
        }
        assert forall|i: int|
            0 <= i < loads.len() && #[trigger] loads[i] is Some && (forall|j: int| i < j < loads.len() ==> loads[j] is None)
            implies config_after(initial, loads) == loads[i]->0 by {
            if i < loads.len() - 1 {
                assert(loads[loads.len() - 1] is None);
                assert(prev[i] is Some);
                assert forall|j: int| i < j < prev.len() implies prev[j] is None by {
                    assert(loads[j] is None);
                }
            }
        }
    }
}

} // verus!
