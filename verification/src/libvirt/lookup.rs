//! Finding a domain by its identifier: libvirt lists the domains, and their
//! identifiers are read one by one until one matches.

use vstd::prelude::*;

use super::LibvirtHypervisor;
use crate::domain::VmId;

verus! {

/// Where a lookup stands.
#[derive(Debug, Clone, Copy, PartialEq, Eq)]
pub enum LookupStage {
    Connecting,
    Listing,
    ReadingIds,
    Finished,
}

/// A lookup in progress.
pub struct LookupState {
    pub stage: LookupStage,
    pub target: VmId,
    pub count: usize,
    pub index: usize,
    /// The identifiers read so far, in the order of the listing.
    pub seen: Ghost<Seq<VmId>>,
}

/// The request to make next, or the lookup's result.
pub enum LookupAction {
    /// Open a connection to libvirt at `uri`.
    OpenConnection { uri: String },
    /// List all domains.
    ListDomains,
    /// Read the identifier of the domain at `index` in the listing.
    ReadDomainId { index: usize },
    /// The domain at `index` in the listing has the identifier.
    Found { index: usize },
    /// No listed domain has the identifier.
    NotFound,
    /// A request failed with `message`.
    Fail { message: String },
}

/// The answer to the request made last.
pub enum LookupEvent {
    Opened(Result<(), String>),
    /// How many domains the listing holds.
    Domains(Result<usize, String>),
    DomainId(Result<VmId, String>),
}

/// Whether a lookup at `stage` waits for an answer of the kind of `e`.
pub open spec fn lookup_awaits(stage: LookupStage, e: LookupEvent) -> bool {
    match e {
        LookupEvent::Opened(_) => stage == LookupStage::Connecting,
        LookupEvent::Domains(_) => stage == LookupStage::Listing,
        LookupEvent::DomainId(_) => stage == LookupStage::ReadingIds,
    }
}

/// What holds of every lookup in progress: the identifiers read so far are those
/// of the domains before `index`, and none is the one sought.
pub open spec fn lookup_inv(s: LookupState) -> bool {
    &&& s.stage == LookupStage::ReadingIds ==> s.index < s.count
    &&& (s.stage == LookupStage::Connecting || s.stage == LookupStage::Listing) ==> s.index == 0
    &&& s.seen@.len() == s.index
    &&& forall|i: int| 0 <= i < s.seen@.len() ==> #[trigger] s.seen@[i] != s.target
}

/// The lookup stops with `a`.
pub open spec fn lookup_finishes(s: LookupState, s2: LookupState, a: LookupAction) -> bool {
    s2 == LookupState { stage: LookupStage::Finished, ..s }
}

/// One step of a lookup: the next state and request after answer `e` at `s`.
pub open spec fn is_lookup_step(s: LookupState, e: LookupEvent, s2: LookupState, a: LookupAction) -> bool {
    match e {
        LookupEvent::Opened(Err(m)) => lookup_finishes(s, s2, a) && (a matches LookupAction::Fail {
            message,
        } && message == m),
        LookupEvent::Opened(Ok(_)) => s2 == LookupState { stage: LookupStage::Listing, ..s } && a
            is ListDomains,
        LookupEvent::Domains(Err(m)) => lookup_finishes(s, s2, a) && (a matches LookupAction::Fail {
            message,
        } && message == m),
        LookupEvent::Domains(Ok(n)) => if n == 0 {
            lookup_finishes(s, s2, a) && a is NotFound
        } else {
            s2 == LookupState { stage: LookupStage::ReadingIds, count: n, index: 0, ..s } && (a matches LookupAction::ReadDomainId { index } && index == 0)
        },
        LookupEvent::DomainId(Err(m)) => lookup_finishes(s, s2, a) && (a matches LookupAction::Fail {
            message,
        } && message == m),
        LookupEvent::DomainId(Ok(id)) => if id == s.target {
            lookup_finishes(s, s2, a) && (a matches LookupAction::Found { index } && index
                == s.index)
        } else if s.index + 1 < s.count {
            &&& s2 == LookupState {
                index: (s.index + 1) as usize,
                seen: Ghost(s.seen@.push(id)),
                ..s
            }
            &&& a matches LookupAction::ReadDomainId { index } && index == s.index + 1
        } else {
            lookup_finishes(s, s2, a) && a is NotFound
        },
    }
}

/// A lookup answers `NotFound` only once it has read the identifier of every
/// listed domain and none was the one sought; when it reads the one sought it
/// answers `Found` with that domain's position; and while domains remain it reads
/// the next one.
pub proof fn law_lookup_reads_every_domain(
    s: LookupState,
    e: LookupEvent,
    s2: LookupState,
    a: LookupAction,
)
    requires
        lookup_inv(s),
        lookup_awaits(s.stage, e),
        is_lookup_step(s, e, s2, a),
    ensures
        match e {
            LookupEvent::Domains(Ok(n)) => a is NotFound ==> n == 0,
            LookupEvent::DomainId(Ok(id)) => {
                &&& a is NotFound ==> {
                    &&& id != s.target
                    &&& s.index + 1 == s.count
                    &&& s.seen@.push(id).len() == s.count
                    &&& forall|k: int|
                        0 <= k < s.count ==> #[trigger] s.seen@.push(id)[k] != s.target
                }
                &&& id == s.target ==> (a matches LookupAction::Found { index } && index
                    == s.index)
                &&& id != s.target && s.index + 1 < s.count ==> (a matches LookupAction::ReadDomainId {
                    index,
                } && index == s.index + 1)
            },
            _ => true,
        },
{
    if let LookupEvent::DomainId(Ok(id)) = e {
        if id != s.target && s.index + 1 >= s.count {
            assert forall|k: int| 0 <= k < s.count implies #[trigger] s.seen@.push(id)[k] != s.target by {
                if k < s.index {
                    assert(s.seen@.push(id)[k] == s.seen@[k]);
                }
            }
        }
    }
}

impl LibvirtHypervisor {
    /// Starts looking for the domain with identifier `target`.
    pub fn lookup_start(&self, target: VmId) -> (r: (LookupState, LookupAction))
        ensures
            r.0.stage == LookupStage::Connecting,
            r.0.target == target,
            lookup_inv(r.0),
            r.1 matches LookupAction::OpenConnection { uri } && uri@ == self.uri(),
    {
        (
            LookupState {
                stage: LookupStage::Connecting,
                target,
                count: 0,
                index: 0,
                seen: Ghost(Seq::empty()),
            },
            LookupAction::OpenConnection { uri: String::from_str(self.uri_str()) },
        )
    }
}

/// The next state and request of a lookup after answer `e`.
pub fn lookup_step(s: LookupState, e: LookupEvent) -> (r: (LookupState, LookupAction))
    requires
        lookup_awaits(s.stage, e),
        lookup_inv(s),
    ensures
        is_lookup_step(s, e, r.0, r.1),
        lookup_inv(r.0),
{
    match e {
        LookupEvent::Opened(Err(m)) => (
            LookupState { stage: LookupStage::Finished, ..s },
            LookupAction::Fail { message: m },
        ),
        LookupEvent::Opened(Ok(_)) => (
            LookupState { stage: LookupStage::Listing, ..s },
            LookupAction::ListDomains,
        ),
        LookupEvent::Domains(Err(m)) => (
            LookupState { stage: LookupStage::Finished, ..s },
            LookupAction::Fail { message: m },
        ),
        LookupEvent::Domains(Ok(n)) => {
            if n == 0 {
                (LookupState { stage: LookupStage::Finished, ..s }, LookupAction::NotFound)
            } else {
                (
                    LookupState { stage: LookupStage::ReadingIds, count: n, index: 0, ..s },
                    LookupAction::ReadDomainId { index: 0 },
                )
            }
        },
        LookupEvent::DomainId(Err(m)) => (
            LookupState { stage: LookupStage::Finished, ..s },
            LookupAction::Fail { message: m },
        ),
        LookupEvent::DomainId(Ok(id)) => {
            if id == s.target {
                let index = s.index;
                (LookupState { stage: LookupStage::Finished, ..s }, LookupAction::Found { index })
            } else if s.index + 1 < s.count {
                let index = s.index + 1;
                let ghost seen = s.seen@.push(id);
                (
                    LookupState { index, seen: Ghost(seen), ..s },
                    LookupAction::ReadDomainId { index },
                )
            } else {
                (LookupState { stage: LookupStage::Finished, ..s }, LookupAction::NotFound)
            }
        },
    }
}

} // verus!
