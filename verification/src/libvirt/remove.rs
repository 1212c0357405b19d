//! The decisions of deleting a machine found on libvirt: stop it if it runs,
//! undefine it, then delete its volumes.

use vstd::prelude::*;

use super::LibvirtHypervisor;
use super::storage::{machine_volumes_to_delete, volumes_to_delete};

verus! {

/// Where a deletion stands.
#[derive(Debug, Clone, Copy, PartialEq, Eq)]
pub enum RemoveStage {
    ReadingName,
    CheckingActive,
    Destroying,
    Undefining,
    FindingPool,
    ListingVolumes,
    DeletingVolumes,
    Finished,
}

/// A deletion in progress.
pub struct RemoveState {
    pub stage: RemoveStage,
    /// The position of the domain in the listing.
    pub index: usize,
    pub name: String,
    /// The volumes to delete, in order.
    pub pending: Vec<String>,
    /// How many of them are deleted.
    pub next: usize,
}

/// The request to make next, or the deletion's result.
pub enum RemoveAction {
    ReadName { index: usize },
    CheckActive { index: usize },
    Destroy { index: usize },
    /// Undefine the domain, its NVRAM too.
    Undefine { index: usize },
    LookupPool { pool: String },
    ListVolumes,
    /// Look up the volume `name` in the pool and delete it.
    DeleteVolume { name: String },
    Finish { outcome: Result<bool, String> },
}

/// The answer to the request made last.
pub enum RemoveEvent {
    Name(Result<String, String>),
    Active(Result<bool, String>),
    Destroyed(Result<(), String>),
    Undefined(Result<(), String>),
    PoolFound(Result<(), String>),
    Volumes(Result<Vec<String>, String>),
    VolumeDeleted(Result<(), String>),
}

/// Whether a deletion at `stage` waits for an answer of the kind of `e`.
pub open spec fn remove_awaits(stage: RemoveStage, e: RemoveEvent) -> bool {
    match e {
        RemoveEvent::Name(_) => stage == RemoveStage::ReadingName,
        RemoveEvent::Active(_) => stage == RemoveStage::CheckingActive,
        RemoveEvent::Destroyed(_) => stage == RemoveStage::Destroying,
        RemoveEvent::Undefined(_) => stage == RemoveStage::Undefining,
        RemoveEvent::PoolFound(_) => stage == RemoveStage::FindingPool,
        RemoveEvent::Volumes(_) => stage == RemoveStage::ListingVolumes,
        RemoveEvent::VolumeDeleted(_) => stage == RemoveStage::DeletingVolumes,
    }
}

/// What holds of every deletion in progress.
pub open spec fn remove_inv(s: RemoveState) -> bool {
    s.stage == RemoveStage::DeletingVolumes ==> s.next < s.pending@.len()
}

/// The deletion stops with `outcome`.
pub open spec fn remove_finishes(
    s: RemoveState,
    s2: RemoveState,
    a: RemoveAction,
    outcome: Result<bool, String>,
) -> bool {
    &&& s2 == RemoveState { stage: RemoveStage::Finished, ..s }
    &&& a matches RemoveAction::Finish { outcome: o } && o == outcome
}

/// One step of a deletion: the next state and request after answer `e` at `s`.
pub open spec fn is_remove_step(
    h: LibvirtHypervisor,
    s: RemoveState,
    e: RemoveEvent,
    s2: RemoveState,
    a: RemoveAction,
) -> bool {
    match e {
        RemoveEvent::Name(Err(m)) => remove_finishes(s, s2, a, Err(m)),
        RemoveEvent::Name(Ok(name)) => s2 == RemoveState {
            stage: RemoveStage::CheckingActive,
            name,
            ..s
        } && (a matches RemoveAction::CheckActive { index } && index == s.index),
        RemoveEvent::Active(Err(m)) => remove_finishes(s, s2, a, Err(m)),
        RemoveEvent::Active(Ok(true)) => s2 == RemoveState { stage: RemoveStage::Destroying, ..s }
            && (a matches RemoveAction::Destroy { index } && index == s.index),
        RemoveEvent::Active(Ok(false)) => s2 == RemoveState { stage: RemoveStage::Undefining, ..s }
            && (a matches RemoveAction::Undefine { index } && index == s.index),
        RemoveEvent::Destroyed(Err(m)) => remove_finishes(s, s2, a, Err(m)),
        RemoveEvent::Destroyed(Ok(_)) => s2 == RemoveState { stage: RemoveStage::Undefining, ..s }
            && (a matches RemoveAction::Undefine { index } && index == s.index),
        RemoveEvent::Undefined(Err(m)) => remove_finishes(s, s2, a, Err(m)),
        RemoveEvent::Undefined(Ok(_)) => s2 == RemoveState { stage: RemoveStage::FindingPool, ..s }
            && (a matches RemoveAction::LookupPool { pool } && pool@ == h.storage_pool()),
        RemoveEvent::PoolFound(Err(m)) => remove_finishes(s, s2, a, Err(m)),
        RemoveEvent::PoolFound(Ok(_)) => s2 == RemoveState {
            stage: RemoveStage::ListingVolumes,
            ..s
        } && a is ListVolumes,
        RemoveEvent::Volumes(Err(m)) => remove_finishes(s, s2, a, Err(m)),
        RemoveEvent::Volumes(Ok(listed)) => {
            let pending = machine_volumes_to_delete(s.name@, listed@);
            if pending.len() == 0 {
                remove_finishes(s, s2, a, Ok(true))
            } else {
                &&& s2.stage == RemoveStage::DeletingVolumes
                &&& s2.index == s.index
                &&& s2.name == s.name
                &&& s2.pending@.map_values(|v: String| v@) == pending
                &&& s2.next == 0
                &&& a matches RemoveAction::DeleteVolume { name } && name@ == pending[0]
            }
        },
        RemoveEvent::VolumeDeleted(Err(m)) => remove_finishes(s, s2, a, Err(m)),
        RemoveEvent::VolumeDeleted(Ok(_)) => if s.next + 1 < s.pending@.len() {
            &&& s2 == RemoveState { next: (s.next + 1) as usize, ..s }
            &&& a matches RemoveAction::DeleteVolume { name } && name == s.pending@[s.next + 1]
        } else {
            remove_finishes(s, s2, a, Ok(true))
        },
    }
}

/// Starts deleting the domain at `index` in the listing.
pub fn remove_start(index: usize) -> (r: (RemoveState, RemoveAction))
    ensures
        r.0.stage == RemoveStage::ReadingName,
        r.0.index == index,
        remove_inv(r.0),
        r.1 matches RemoveAction::ReadName { index: i } && i == index,
{
    (
        RemoveState {
            stage: RemoveStage::ReadingName,
            index,
            name: String::new(),
            pending: Vec::new(),
            next: 0,
        },
        RemoveAction::ReadName { index },
    )
}

fn remove_finish(s: RemoveState, outcome: Result<bool, String>) -> (r: (RemoveState, RemoveAction))
    ensures
        remove_finishes(s, r.0, r.1, outcome),
{
    (RemoveState { stage: RemoveStage::Finished, ..s }, RemoveAction::Finish { outcome })
}

impl LibvirtHypervisor {
    /// The next state and request of a deletion after answer `e`.
    pub fn remove_step(&self, s: RemoveState, e: RemoveEvent) -> (r: (RemoveState, RemoveAction))
        requires
            remove_awaits(s.stage, e),
            remove_inv(s),
        ensures
            is_remove_step(*self, s, e, r.0, r.1),
            remove_inv(r.0),
    {
        match e {
            RemoveEvent::Name(Err(m)) => remove_finish(s, Err(m)),
            RemoveEvent::Name(Ok(name)) => {
                let index = s.index;
                (
                    RemoveState { stage: RemoveStage::CheckingActive, name, ..s },
                    RemoveAction::CheckActive { index },
                )
            },
            RemoveEvent::Active(Err(m)) => remove_finish(s, Err(m)),
            RemoveEvent::Active(Ok(active)) => {
                let index = s.index;
                if active {
                    (
                        RemoveState { stage: RemoveStage::Destroying, ..s },
                        RemoveAction::Destroy { index },
                    )
                } else {
                    (
                        RemoveState { stage: RemoveStage::Undefining, ..s },
                        RemoveAction::Undefine { index },
                    )
                }
            },
            RemoveEvent::Destroyed(Err(m)) => remove_finish(s, Err(m)),
            RemoveEvent::Destroyed(Ok(_)) => {
                let index = s.index;
                (
                    RemoveState { stage: RemoveStage::Undefining, ..s },
                    RemoveAction::Undefine { index },
                )
            },
            RemoveEvent::Undefined(Err(m)) => remove_finish(s, Err(m)),
            RemoveEvent::Undefined(Ok(_)) => (
                RemoveState { stage: RemoveStage::FindingPool, ..s },
                RemoveAction::LookupPool { pool: String::from_str(self.storage_pool_str()) },
            ),
            RemoveEvent::PoolFound(Err(m)) => remove_finish(s, Err(m)),
            RemoveEvent::PoolFound(Ok(_)) => (
                RemoveState { stage: RemoveStage::ListingVolumes, ..s },
                RemoveAction::ListVolumes,
            ),
            RemoveEvent::Volumes(Err(m)) => remove_finish(s, Err(m)),
            RemoveEvent::Volumes(Ok(listed)) => {
                let pending = volumes_to_delete(s.name.as_str(), &listed);
                if pending.len() == 0 {
                    remove_finish(s, Ok(true))
                } else {
                    let name = pending[0].clone();
                    (
                        RemoveState {
                            stage: RemoveStage::DeletingVolumes,
                            index: s.index,
                            name: s.name,
                            pending,
                            next: 0,
                        },
                        RemoveAction::DeleteVolume { name },
                    )
                }
            },
            RemoveEvent::VolumeDeleted(Err(m)) => remove_finish(s, Err(m)),
            RemoveEvent::VolumeDeleted(Ok(_)) => {
                assert(s.next < s.pending@.len());
                if s.next < s.pending.len() - 1 {
                    let next = s.next + 1;
                    let name = s.pending[next].clone();
                    (RemoveState { next, ..s }, RemoveAction::DeleteVolume { name })
                } else {
                    remove_finish(s, Ok(true))
                }
            },
        }
    }
}

} // verus!
